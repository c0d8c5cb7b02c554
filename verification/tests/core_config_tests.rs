use kowalski_rlm::agent::{FederatedAgent, FederatedBaseAgent, FederationMessage, MessageType};
use kowalski_rlm::agent_selector::FederationRole;
use kowalski_rlm::core_config::{
    default_max_concurrent, default_max_redirects, default_system_prompt, default_timeout,
    default_true, default_user_agent, get_additional, set_additional, Config, ConfigExt,
    DataAgentConfig, EnvOverrides, Provider, TemplateAgentConfig,
};
use kowalski_rlm::exo_cluster_manager::{
    endpoint, find_device_for, ExoDeviceInfo, REPLResponse, RemoteREPLExecutor,
};
use kowalski_rlm::device_health::DeviceCapabilities;
use kowalski_rlm::error::RLMError;
use kowalski_rlm::repl_executor::REPLExecutor;
use kowalski_rlm::time::Duration;
use std::str::FromStr;

#[test]
fn providers_parse_and_print() {
    assert_eq!("OLLAMA".parse::<Provider>(), Ok(Provider::Ollama));
    assert_eq!(Provider::parse_name("OpenRouter"), Ok(Provider::OpenRouter));
    assert_eq!(Provider::parse_name("exo"), Ok(Provider::Exo));
    assert_eq!(Provider::parse_name("vllm"), Err("Unknown provider: vllm".to_string()));
    assert_eq!(Provider::OpenRouter.to_string(), "openrouter");
    assert_eq!(Provider::Exo.to_string(), "exo");
    assert_eq!(Provider::default(), Provider::Ollama);
}

#[test]
fn effective_model_follows_the_provider() {
    let mut config = Config::default();
    assert_eq!(config.effective_model(), "llama3.2");
    config.provider = Provider::Exo;
    assert_eq!(config.effective_model(), "llama3.2");
    config.provider = Provider::OpenRouter;
    assert_eq!(config.effective_model(), "openrouter/auto");
    let config = Config::with_openrouter("key".to_string(), Some("m/x".to_string()));
    assert_eq!(config.effective_model(), "m/x");
    assert_eq!(config.openrouter.api_key.as_deref(), Some("key"));
    let config = Config::with_openrouter("key".to_string(), None);
    assert_eq!(config.effective_model(), "openrouter/auto");
    assert_eq!(config.chat.temperature, 700);
    assert_eq!(config.chat.max_tokens, 2048);
    assert_eq!(config.ollama.port, 11434);
    assert_eq!(config.exo.base_url, "http://localhost:52415");
}

#[test]
fn overrides_apply_in_order() {
    let mut config = Config::default();
    config.apply_overrides(&EnvOverrides {
        openrouter_api_key: Some("k".to_string()),
        provider: Some("openrouter".to_string()),
        model: Some("big".to_string()),
        ollama_model: Some("small".to_string()),
    });
    assert_eq!(config.provider, Provider::OpenRouter);
    assert_eq!(config.openrouter.api_key.as_deref(), Some("k"));
    assert_eq!(config.openrouter.default_model, "big");
    assert_eq!(config.ollama.model, "small");

    let mut config = Config::default();
    config.apply_overrides(&EnvOverrides {
        openrouter_api_key: Some(String::new()),
        provider: Some("nonsense".to_string()),
        model: Some("mid".to_string()),
        ollama_model: Some(String::new()),
    });
    assert_eq!(config.provider, Provider::Ollama);
    assert_eq!(config.openrouter.api_key, None);
    assert_eq!(config.ollama.model, "mid");
    assert_eq!(config.openrouter.default_model, "openrouter/auto");
}

#[test]
fn agent_configs_have_their_defaults() {
    let template = TemplateAgentConfig::default();
    assert_eq!(template.max_concurrent_requests, default_max_concurrent());
    assert_eq!(template.request_timeout, default_timeout());
    assert_eq!(template.user_agent, default_user_agent());
    assert_eq!(template.max_redirects, default_max_redirects());
    assert_eq!(template.follow_redirects, default_true());
    assert_eq!(template.system_prompt, default_system_prompt());
    assert_eq!(TemplateAgentConfig::from_core(Config::default()).request_timeout, 30);
    let mut data = DataAgentConfig::default();
    assert_eq!(data.max_rows, 1000);
    assert_eq!(data.max_columns, 50);
    set_additional(data.core_config_mut(), "limit", "42");
    assert_eq!(get_additional(data.core_config(), "limit"), Some("42".to_string()));
    assert_eq!(get_additional(data.core_config(), "other"), None);
}

#[test]
fn remote_runner_builds_requests_and_reads_responses() {
    let runner = RemoteREPLExecutor::new("dev-1", "python")
        .with_timeout(Duration::from_millis(1500))
        .with_max_output_bytes(64);
    assert_eq!(runner.language(), "python");
    let request = runner.request("print(1)");
    assert_eq!(request.language, "python");
    assert_eq!(request.code, "print(1)");
    assert_eq!(request.timeout_ms, 1500);
    assert_eq!(request.max_output_bytes, 64);
    let response = |stdout: &str, stderr: &str, exit_code: i32| REPLResponse {
        stdout: stdout.to_string(),
        stderr: stderr.to_string(),
        exit_code,
    };
    assert_eq!(runner.interpret(&response("1", "", 0)).unwrap(), "1");
    assert_eq!(runner.interpret(&response("", "warn", 0)).unwrap(), "warn");
    assert_eq!(runner.interpret(&response("", "", 0)).unwrap(), "(no output)");
    match runner.interpret(&response("x", "bad", 2)) {
        Err(RLMError::ExecutionError(m)) => assert_eq!(m, "Remote REPL failed (dev-1): bad"),
        _ => panic!("expected an execution error"),
    }
    assert_eq!(endpoint("http://h:1", "/state"), "http://h:1/state");
    let device = |id: &str, runtimes: &[&str]| ExoDeviceInfo {
        id: id.to_string(),
        address: "h:1".to_string(),
        capabilities: DeviceCapabilities {
            runtimes: runtimes.iter().map(|r| r.to_string()).collect(),
            ..DeviceCapabilities::default()
        },
    };
    let devices = vec![device("a", &["java"]), device("b", &["rust", "python"]), device("c", &["python"])];
    assert_eq!(find_device_for(&devices, "python").unwrap().id, "b");
    assert!(find_device_for(&devices, "bash").is_none());
}

#[test]
fn agents_own_their_federation_state() {
    let mut agent = FederatedBaseAgent::new("worker-1");
    let other = FederatedBaseAgent::new("worker-1");
    assert_eq!(agent.federation_id(), "worker-1");
    assert_eq!(agent.federation_role(), FederationRole::Worker);
    agent.set_federation_role(FederationRole::Observer);
    assert_eq!(agent.federation_role(), FederationRole::Observer);
    agent.register_with_coordinator("boss").unwrap();
    agent
        .handle_federation_message(FederationMessage {
            sender: "boss".to_string(),
            message_type: MessageType::TaskDelegation,
            content: "{}".to_string(),
        })
        .unwrap();
    assert_eq!(agent.state.coordinator_id.as_deref(), Some("boss"));
    assert_eq!(agent.state.inbox.len(), 1);
    assert_eq!(agent.state.inbox[0].sender, "boss");
    assert!(other.state.inbox.is_empty());
    assert_eq!(other.state.coordinator_id, None);
}

#[test]
fn provider_from_str_agrees_with_parse_name() {
    for name in ["ollama", "Ollama", "OPENROUTER", "exo", "eXo", "", " exo", "vllm"] {
        assert_eq!(Provider::from_str(name), Provider::parse_name(name), "{:?}", name);
    }
    assert_eq!(Provider::from_str("ExO"), Ok(Provider::Exo));
    assert_eq!(Provider::from_str("none"), Err("Unknown provider: none".to_string()));
}

#[test]
fn providers_are_found_by_lowercase_name() {
    assert_eq!(Provider::provider_for("ollama"), Some(Provider::Ollama));
    assert_eq!(Provider::provider_for("openrouter"), Some(Provider::OpenRouter));
    assert_eq!(Provider::provider_for("exo"), Some(Provider::Exo));
    for other in ["", "Ollama", "EXO", "open router", "exo "] {
        assert_eq!(Provider::provider_for(other), None, "{:?}", other);
    }
}
