//! Data exchanged with an Exo cluster, and the remote code runner.
//!
//! Talking to the cluster is left to the caller; this module builds what is
//! sent and decides on what came back.

use crate::device_health::DeviceCapabilities;
use crate::error::{RLMError, RLMResult};
use crate::repl_executor::{reported_output, REPLExecutor};
use crate::text::{holds_text, list_holds};
use crate::time::Duration;
use vstd::prelude::*;
use vstd::string::StringExecFns;

verus! {

/// A device as the cluster reports it.
#[derive(Debug, Clone)]
pub struct ExoDeviceInfo {
    pub id: String,
    pub address: String,
    pub capabilities: DeviceCapabilities,
}

/// The state of the cluster.
#[derive(Debug, Clone)]
pub struct ExoClusterState {
    pub devices: Vec<ExoDeviceInfo>,
}

/// A model as the cluster reports it.
#[derive(Debug, Clone)]
pub struct ExoModelInfo {
    pub name: String,
    pub size: Option<u64>,
    pub digest: Option<String>,
}

/// The models of the cluster.
#[derive(Debug, Clone)]
pub struct ExoModelListResponse {
    pub models: Vec<ExoModelInfo>,
}

/// A request to run code on a device.
#[derive(Debug, Clone)]
pub struct REPLRequest {
    pub language: String,
    pub code: String,
    pub timeout_ms: u64,
    pub max_output_bytes: usize,
}

/// What running code on a device gave.
#[derive(Debug, Clone)]
pub struct REPLResponse {
    pub stdout: String,
    pub stderr: String,
    pub exit_code: i32,
}

/// The address of an endpoint: the base address followed by the path.
pub fn endpoint(base_url: &str, path: &str) -> (url: String)
    ensures
        url@ == base_url@ + path@,
{
    let mut url = String::from_str(base_url);
    url.append(path);
    url
}

/// `runtimes` names `language`.
pub open spec fn has_runtime(runtimes: Seq<String>, language: Seq<char>) -> bool {
    holds_text(runtimes, language)
}

/// Position of the first device of `devices` that runs `language`, or
/// `devices.len()`.
pub open spec fn device_running(devices: Seq<ExoDeviceInfo>, language: Seq<char>) -> int
    decreases devices.len(),
{
    if devices.len() == 0 {
        0
    } else if has_runtime(devices[0].capabilities.runtimes@, language) {
        0
    } else {
        1 + device_running(devices.drop_first(), language)
    }
}

proof fn lemma_device_running(devices: Seq<ExoDeviceInfo>, language: Seq<char>, k: int)
    requires
        0 <= k <= devices.len(),
        forall|j: int|
            0 <= j < k ==> !has_runtime((#[trigger] devices[j]).capabilities.runtimes@, language),
        k < devices.len() ==> has_runtime(devices[k].capabilities.runtimes@, language),
    ensures
        device_running(devices, language) == k,
    decreases devices.len(),
{
    if k > 0 {
        lemma_device_running(devices.drop_first(), language, k - 1);
    }
}

/// The first device of `devices` that runs `language`.
pub fn find_device_for<'a>(devices: &'a Vec<ExoDeviceInfo>, language: &str) -> (d: Option<
    &'a ExoDeviceInfo,
>)
    ensures
        ({
            let k = device_running(devices@, language@);
            &&& d is Some <==> k < devices@.len()
            &&& d is Some ==> *d->0 == devices@[k]
        }),
{
    let wanted = String::from_str(language);
    let mut i: usize = 0;
    while i < devices.len()
        invariant
            i <= devices@.len(),
            wanted@ == language@,
            forall|j: int|
                0 <= j < i ==> !has_runtime(
                    (#[trigger] devices@[j]).capabilities.runtimes@,
                    language@,
                ),
        decreases devices@.len() - i,
    {
        if list_holds(&devices[i].capabilities.runtimes, &wanted) {
            proof {
                lemma_device_running(devices@, language@, i as int);
            }
            return Some(&devices[i]);
        }
        i += 1;
    }
    proof {
        lemma_device_running(devices@, language@, i as int);
    }
    None
}

/// `ms` capped at the largest `u64`.
pub open spec fn capped_millis(ms: nat) -> u64 {
    if ms > u64::MAX {
        u64::MAX
    } else {
        ms as u64
    }
}

/// Runs code on a device of the cluster.
#[derive(Debug, Clone)]
pub struct RemoteREPLExecutor {
    pub device_id: String,
    pub language: String,
    pub timeout: Duration,
    pub max_output_bytes: usize,
}

impl RemoteREPLExecutor {
    /// A runner for `language` on `device_id` with a timeout of thirty
    /// seconds and an output limit of a million bytes.
    pub fn new(device_id: &str, language: &str) -> (r: RemoteREPLExecutor)
        ensures
            r.device_id@ == device_id@,
            r.language@ == language@,
            r.timeout == Duration::spec_from_secs(30),
            r.max_output_bytes == 1_000_000,
    {
        RemoteREPLExecutor {
            device_id: String::from_str(device_id),
            language: String::from_str(language),
            timeout: Duration::from_secs(30),
            max_output_bytes: 1_000_000,
        }
    }

    /// Replaces the timeout.
    pub fn with_timeout(self, timeout: Duration) -> (r: RemoteREPLExecutor)
        ensures
            r == (RemoteREPLExecutor { timeout, ..self }),
    {
        let mut r = self;
        r.timeout = timeout;
        r
    }

    /// Replaces the output limit.
    pub fn with_max_output_bytes(self, max_output_bytes: usize) -> (r: RemoteREPLExecutor)
        ensures
            r == (RemoteREPLExecutor { max_output_bytes, ..self }),
    {
        let mut r = self;
        r.max_output_bytes = max_output_bytes;
        r
    }

    /// The request that runs `code`.
    pub fn request(&self, code: &str) -> (r: REPLRequest)
        ensures
            r.language@ == self.language@,
            r.code@ == code@,
            r.timeout_ms == capped_millis(self.timeout.total_millis()),
            r.max_output_bytes == self.max_output_bytes,
    {
        let ms = self.timeout.as_millis();
        REPLRequest {
            language: self.language.clone(),
            code: String::from_str(code),
            timeout_ms: if ms > u64::MAX as u128 {
                u64::MAX
            } else {
                ms as u64
            },
            max_output_bytes: self.max_output_bytes,
        }
    }

    /// What a response means: an execution error for a non-zero exit code,
    /// the reported output otherwise.
    pub fn interpret(&self, response: &REPLResponse) -> (r: RLMResult<String>)
        ensures
            match r {
                Ok(text) => response.exit_code == 0 && text@ == reported_output(
                    response.stdout@,
                    response.stderr@,
                    true,
                ),
                Err(e) => {
                    &&& response.exit_code != 0
                    &&& e is ExecutionError
                    &&& e.detail() == "Remote REPL failed ("@ + self.device_id@ + "): "@
                        + response.stderr@
                },
            },
    {
        if response.exit_code != 0 {
            let mut m = String::from_str("Remote REPL failed (");
            m.append(self.device_id.as_str());
            m.append("): ");
            m.append(response.stderr.as_str());
            return Err(RLMError::execution(m.as_str()));
        }
        let no_out = response.stdout.as_str().is_empty();
        let no_err = response.stderr.as_str().is_empty();
        if no_out && no_err {
            Ok(String::from_str("(no output)"))
        } else if no_out {
            Ok(response.stderr.clone())
        } else {
            Ok(response.stdout.clone())
        }
    }
}

impl REPLExecutor for RemoteREPLExecutor {
    fn language(&self) -> (name: &str)
        ensures
            name@ == self.language@,
    {
        self.language.as_str()
    }
}

} // verus!
