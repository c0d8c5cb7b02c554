//! Settings of the core: which provider serves the model, and how.
//!
//! Fractions (temperature) are stored in thousandths. Free-form settings
//! are JSON texts under string keys.

use crate::string_map::{value_of, with_entry, StringMap};
use crate::text::{is_text, lowercase_of, to_chars, to_lowercase};
use vstd::prelude::*;
use vstd::string::StringExecFns;

verus! {

/// Settings of the OpenRouter provider.
#[derive(Debug, Clone)]
pub struct OpenRouterConfig {
    pub api_key: Option<String>,
    pub default_model: String,
    pub base_url: String,
    pub site_url: Option<String>,
    pub site_name: Option<String>,
}

impl Default for OpenRouterConfig {
    fn default() -> (c: OpenRouterConfig)
        ensures
            c.api_key is None,
            c.default_model@ == "openrouter/auto"@,
            c.base_url@ == "https://openrouter.ai/api/v1"@,
            c.site_url matches Some(u) && u@ == "https://github.com/yarenty/kowalski"@,
            c.site_name matches Some(n) && n@ == "Kowalski"@,
    {
        OpenRouterConfig {
            api_key: None,
            default_model: String::from_str("openrouter/auto"),
            base_url: String::from_str("https://openrouter.ai/api/v1"),
            site_url: Some(String::from_str("https://github.com/yarenty/kowalski")),
            site_name: Some(String::from_str("Kowalski")),
        }
    }
}

/// The service that runs the model.
#[derive(Debug, Clone, Copy, PartialEq, Eq)]
pub enum Provider {
    Ollama,
    OpenRouter,
    Exo,
}

/// The provider that a lowercase name stands for.
pub open spec fn provider_named(lower: Seq<char>) -> Option<Provider> {
    if lower == "ollama"@ {
        Some(Provider::Ollama)
    } else if lower == "openrouter"@ {
        Some(Provider::OpenRouter)
    } else if lower == "exo"@ {
        Some(Provider::Exo)
    } else {
        None
    }
}

impl Provider {
    /// The name of the provider.
    pub open spec fn name(self) -> Seq<char> {
        match self {
            Provider::Ollama => "ollama"@,
            Provider::OpenRouter => "openrouter"@,
            Provider::Exo => "exo"@,
        }
    }

    /// The name of the provider.
    pub fn to_string(&self) -> (s: String)
        ensures
            s@ == self.name(),
    {
        match self {
            Provider::Ollama => String::from_str("ollama"),
            Provider::OpenRouter => String::from_str("openrouter"),
            Provider::Exo => String::from_str("exo"),
        }
    }

    /// The provider that the lowercase name `lower` stands for, if it is one.
    pub fn provider_for(lower: &str) -> (p: Option<Provider>)
        ensures
            p == provider_named(lower@),
    {
        let l = to_chars(lower);
        if is_text(l.as_slice(), "ollama") {
            Some(Provider::Ollama)
        } else if is_text(l.as_slice(), "openrouter") {
            Some(Provider::OpenRouter)
        } else if is_text(l.as_slice(), "exo") {
            Some(Provider::Exo)
        } else {
            None
        }
    }

    /// The provider that `s` names, whatever its letter case.
    pub fn parse_name(s: &str) -> (r: Result<Provider, String>)
        ensures
            match r {
                Ok(p) => provider_named(lowercase_of(s@)) == Some(p),
                Err(m) => provider_named(lowercase_of(s@)) is None && m@ == "Unknown provider: "@
                    + s@,
            },
    {
        let lower = to_lowercase(s);
        match Provider::provider_for(lower.as_str()) {
            Some(p) => Ok(p),
            None => {
                let mut m = String::from_str("Unknown provider: ");
                m.append(s);
                Err(m)
            },
        }
    }
}

impl Default for Provider {
    fn default() -> (p: Provider)
        ensures
            p is Ollama,
    {
        Provider::Ollama
    }
}

impl std::str::FromStr for Provider {
    type Err = String;

    /// The provider that `s` names, whatever its letter case: what
    /// `parse_name` gives.
    fn from_str(s: &str) -> (r: Result<Provider, String>)
        ensures
            match r {
                Ok(p) => provider_named(lowercase_of(s@)) == Some(p),
                Err(m) => provider_named(lowercase_of(s@)) is None && m@ == "Unknown provider: "@
                    + s@,
            },
    {
        Provider::parse_name(s)
    }
}

/// Settings of the Ollama provider.
#[derive(Debug)]
pub struct OllamaConfig {
    pub host: String,
    pub port: u16,
    pub model: String,
    /// Further settings.
    pub additional: StringMap,
}

impl Default for OllamaConfig {
    fn default() -> (c: OllamaConfig)
        ensures
            c.host@ == "localhost"@,
            c.port == 11434,
            c.model@ == "llama3.2"@,
            c.additional.pairs().len() == 0,
    {
        OllamaConfig {
            host: String::from_str("localhost"),
            port: 11434,
            model: String::from_str("llama3.2"),
            additional: StringMap::new(),
        }
    }
}

/// Settings of chats.
#[derive(Debug)]
pub struct ChatConfig {
    /// Messages kept in the history.
    pub max_history: usize,
    /// Whether answers are streamed.
    pub enable_streaming: bool,
    /// Sampling temperature, in thousandths.
    pub temperature: u32,
    /// Maximum tokens of an answer.
    pub max_tokens: u32,
    /// Further settings.
    pub additional: StringMap,
}

impl Default for ChatConfig {
    fn default() -> (c: ChatConfig)
        ensures
            c.max_history == 100,
            c.enable_streaming,
            c.temperature == 700,
            c.max_tokens == 2048,
            c.additional.pairs().len() == 0,
    {
        ChatConfig {
            max_history: 100,
            enable_streaming: true,
            temperature: 700,
            max_tokens: 2048,
            additional: StringMap::new(),
        }
    }
}

/// Settings of the Exo provider.
#[derive(Debug)]
pub struct ExoConfig {
    pub base_url: String,
    /// Whether the cluster is used.
    pub enable_cluster: bool,
    /// Further settings.
    pub additional: StringMap,
}

impl Default for ExoConfig {
    fn default() -> (c: ExoConfig)
        ensures
            c.base_url@ == "http://localhost:52415"@,
            !c.enable_cluster,
            c.additional.pairs().len() == 0,
    {
        ExoConfig {
            base_url: String::from_str("http://localhost:52415"),
            enable_cluster: false,
            additional: StringMap::new(),
        }
    }
}

/// The settings of the core.
#[derive(Debug)]
pub struct Config {
    pub provider: Provider,
    pub ollama: OllamaConfig,
    pub openrouter: OpenRouterConfig,
    pub exo: ExoConfig,
    pub chat: ChatConfig,
    pub working_memory_retrieval_limit: usize,
    pub episodic_memory_retrieval_limit: usize,
    pub semantic_memory_retrieval_limit: usize,
    /// Further settings.
    pub additional: StringMap,
}

impl Default for Config {
    fn default() -> (c: Config)
        ensures
            c.provider is Ollama,
            c.ollama.model@ == "llama3.2"@,
            c.openrouter.api_key is None,
            c.openrouter.default_model@ == "openrouter/auto"@,
            c.chat.temperature == 700,
            c.working_memory_retrieval_limit == 3,
            c.episodic_memory_retrieval_limit == 3,
            c.semantic_memory_retrieval_limit == 3,
            c.additional.pairs().len() == 0,
    {
        Config {
            provider: Provider::Ollama,
            ollama: OllamaConfig::default(),
            openrouter: OpenRouterConfig::default(),
            exo: ExoConfig::default(),
            chat: ChatConfig::default(),
            working_memory_retrieval_limit: 3,
            episodic_memory_retrieval_limit: 3,
            semantic_memory_retrieval_limit: 3,
            additional: StringMap::new(),
        }
    }
}

/// Values that override settings, as found in the process environment.
#[derive(Debug)]
pub struct EnvOverrides {
    /// `OPENROUTER_API_KEY`
    pub openrouter_api_key: Option<String>,
    /// `KOWALSKI_PROVIDER`
    pub provider: Option<String>,
    /// `KOWALSKI_MODEL`
    pub model: Option<String>,
    /// `OLLAMA_MODEL`
    pub ollama_model: Option<String>,
}

/// The value, if it is set to a non-empty text.
pub open spec fn non_empty(v: Option<String>) -> Option<Seq<char>> {
    match v {
        Some(s) => if s@.len() > 0 {
            Some(s@)
        } else {
            None
        },
        None => None,
    }
}

/// The provider after the override: the named one if the name is known.
pub open spec fn overridden_provider(before: Provider, v: Option<String>) -> Provider {
    match v {
        Some(s) => match provider_named(lowercase_of(s@)) {
            Some(p) => p,
            None => before,
        },
        None => before,
    }
}

impl Config {
    /// The model that the provider in force runs.
    pub open spec fn model_in_force(self) -> Seq<char> {
        match self.provider {
            Provider::OpenRouter => self.openrouter.default_model@,
            _ => self.ollama.model@,
        }
    }

    /// The model that the provider in force runs.
    pub fn effective_model(&self) -> (m: String)
        ensures
            m@ == self.model_in_force(),
    {
        match self.provider {
            Provider::OpenRouter => self.openrouter.default_model.clone(),
            _ => self.ollama.model.clone(),
        }
    }

    /// The default settings switched to OpenRouter with `api_key`, and with
    /// `model` as its model if one is given.
    pub fn with_openrouter(api_key: String, model: Option<String>) -> (c: Config)
        ensures
            c.provider is OpenRouter,
            c.openrouter.api_key == Some(api_key),
            c.openrouter.default_model@ == match model {
                Some(m) => m@,
                None => "openrouter/auto"@,
            },
            c.ollama.model@ == "llama3.2"@,
    {
        let mut config = Config::default();
        config.provider = Provider::OpenRouter;
        config.openrouter.api_key = Some(api_key);
        match model {
            Some(m) => {
                config.openrouter.default_model = m;
            },
            None => {},
        }
        config
    }

    /// Applies overrides in their fixed order: the API key, the provider,
    /// the model of the provider then in force, the Ollama model. Empty
    /// values and unknown provider names change nothing.
    pub fn apply_overrides(&mut self, vars: &EnvOverrides)
        ensures
            final(self).provider == overridden_provider(old(self).provider, vars.provider),
            match non_empty(vars.openrouter_api_key) {
                Some(k) => final(self).openrouter.api_key matches Some(s) && s@ == k,
                None => final(self).openrouter.api_key == old(self).openrouter.api_key,
            },
            final(self).openrouter.default_model@ == match non_empty(vars.model) {
                Some(m) => if final(self).provider is OpenRouter {
                    m
                } else {
                    old(self).openrouter.default_model@
                },
                None => old(self).openrouter.default_model@,
            },
            final(self).ollama.model@ == match non_empty(vars.ollama_model) {
                Some(m) => m,
                None => match non_empty(vars.model) {
                    Some(m) => if final(self).provider is OpenRouter {
                        old(self).ollama.model@
                    } else {
                        m
                    },
                    None => old(self).ollama.model@,
                },
            },
    {
        match &vars.openrouter_api_key {
            Some(key) => {
                if !key.as_str().is_empty() {
                    self.openrouter.api_key = Some(key.clone());
                }
            },
            None => {},
        }
        match &vars.provider {
            Some(name) => {
                match Provider::parse_name(name.as_str()) {
                    Ok(p) => {
                        self.provider = p;
                    },
                    Err(_) => {},
                }
            },
            None => {},
        }
        match &vars.model {
            Some(model) => {
                if !model.as_str().is_empty() {
                    match self.provider {
                        Provider::OpenRouter => {
                            self.openrouter.default_model = model.clone();
                        },
                        _ => {
                            self.ollama.model = model.clone();
                        },
                    }
                }
            },
            None => {},
        }
        match &vars.ollama_model {
            Some(model) => {
                if !model.as_str().is_empty() {
                    self.ollama.model = model.clone();
                }
            },
            None => {},
        }
    }
}

/// Settings that extend the settings of the core.
pub trait ConfigExt {
    /// The settings of the core.
    fn core_config(&self) -> &Config;

    /// The settings of the core, for change in place.
    fn core_config_mut(&mut self) -> &mut Config;
}

/// The JSON text stored under `key` in the further settings of `config`.
pub fn get_additional(config: &Config, key: &str) -> (v: Option<String>)
    ensures
        match v {
            Some(s) => value_of(config.additional.pairs(), key@) == Some(s@),
            None => value_of(config.additional.pairs(), key@) is None,
        },
{
    match config.additional.get(key) {
        Some(s) => Some(s.clone()),
        None => None,
    }
}

/// Stores the JSON text `json` under `key` in the further settings of
/// `config`.
pub fn set_additional(config: &mut Config, key: &str, json: &str)
    ensures
        final(config).additional.pairs() == with_entry(
            old(config).additional.pairs(),
            key@,
            json@,
        ),
        final(config).provider == old(config).provider,
{
    config.additional.insert(String::from_str(key), String::from_str(json));
}

/// Settings of the template agent.
#[derive(Debug, Clone)]
pub struct TemplateAgentConfig {
    pub max_concurrent_requests: usize,
    /// Timeout of a request in seconds.
    pub request_timeout: u64,
    pub user_agent: String,
    pub follow_redirects: bool,
    pub max_redirects: usize,
    pub verify_ssl: bool,
    pub proxy: Option<String>,
    pub system_prompt: String,
    pub debug_logging: bool,
}

/// Default number of requests open together.
pub fn default_max_concurrent() -> (n: usize)
    ensures
        n == 10,
{
    10
}

/// Default timeout of a request in seconds.
pub fn default_timeout() -> (n: u64)
    ensures
        n == 30,
{
    30
}

/// Default user agent.
pub fn default_user_agent() -> (s: String)
    ensures
        s@ == "Kowalski Agent/1.0"@,
{
    String::from_str("Kowalski Agent/1.0")
}

/// Default number of redirects that are followed.
pub fn default_max_redirects() -> (n: usize)
    ensures
        n == 5,
{
    5
}

/// The default of switches that are on.
pub fn default_true() -> (b: bool)
    ensures
        b,
{
    true
}

/// Default system prompt.
pub fn default_system_prompt() -> (s: String)
    ensures
        s@ == "You are a helpful assistant."@,
{
    String::from_str("You are a helpful assistant.")
}

impl Default for TemplateAgentConfig {
    fn default() -> (c: TemplateAgentConfig)
        ensures
            c.max_concurrent_requests == 10,
            c.request_timeout == 30,
            c.user_agent@ == "Kowalski Agent/1.0"@,
            c.follow_redirects,
            c.max_redirects == 5,
            c.verify_ssl,
            c.proxy is None,
            c.system_prompt@ == "You are a helpful assistant."@,
            !c.debug_logging,
    {
        TemplateAgentConfig {
            max_concurrent_requests: default_max_concurrent(),
            request_timeout: default_timeout(),
            user_agent: default_user_agent(),
            follow_redirects: true,
            max_redirects: default_max_redirects(),
            verify_ssl: true,
            proxy: None,
            system_prompt: default_system_prompt(),
            debug_logging: false,
        }
    }
}

impl TemplateAgentConfig {
    /// The settings of the template agent under `config`: the defaults,
    /// whatever the core settings hold.
    pub fn from_core(_config: Config) -> (c: TemplateAgentConfig)
        ensures
            c.max_concurrent_requests == 10,
            c.request_timeout == 30,
            c.user_agent@ == "Kowalski Agent/1.0"@,
            c.follow_redirects,
            c.max_redirects == 5,
            c.verify_ssl,
            c.proxy is None,
            c.system_prompt@ == "You are a helpful assistant."@,
            !c.debug_logging,
    {
        TemplateAgentConfig::default()
    }
}

/// Settings of the data agent.
#[derive(Debug)]
pub struct DataAgentConfig {
    /// The settings of the core.
    pub base: Config,
    pub system_prompt: String,
    pub max_rows: usize,
    pub max_columns: usize,
}

impl DataAgentConfig {
    /// The settings of the data agent over the core settings `base`.
    pub fn from_core(base: Config) -> (c: DataAgentConfig)
        ensures
            c.base == base,
            c.system_prompt@ == "You are a data analysis assistant."@,
            c.max_rows == 1000,
            c.max_columns == 50,
    {
        DataAgentConfig {
            base,
            system_prompt: String::from_str("You are a data analysis assistant."),
            max_rows: 1000,
            max_columns: 50,
        }
    }
}

impl Default for DataAgentConfig {
    fn default() -> (c: DataAgentConfig)
        ensures
            c.system_prompt@ == "You are a data analysis assistant."@,
            c.max_rows == 1000,
            c.max_columns == 50,
    {
        DataAgentConfig::from_core(Config::default())
    }
}

impl ConfigExt for DataAgentConfig {
    fn core_config(&self) -> (c: &Config)
        ensures
            *c == self.base,
    {
        &self.base
    }

    fn core_config_mut(&mut self) -> (c: &mut Config)
        ensures
            *c == old(self).base,
            final(self).base == *final(c),
            final(self).system_prompt == old(self).system_prompt,
            final(self).max_rows == old(self).max_rows,
            final(self).max_columns == old(self).max_columns,
    {
        &mut self.base
    }
}

} // verus!
