//! Health bookkeeping of the devices of a cluster.
//!
//! A device turns unhealthy after a number of failed checks in a row and
//! healthy again with the first check that succeeds. Probing the devices is
//! left to the caller, who reports what each check gave.

use crate::text::{holds_text, list_holds};
use crate::time::Duration;
use vstd::prelude::*;
use vstd::string::StringExecFns;

verus! {

/// What a device can run.
#[derive(Debug, Clone)]
pub struct DeviceCapabilities {
    /// Runtimes on the device: `python`, `rust`, `java`, `node`, ...
    pub runtimes: Vec<String>,
    pub gpu_memory_mb: Option<u64>,
    pub system_memory_mb: Option<u64>,
    /// Models loaded on the device.
    pub models: Vec<String>,
}

impl Default for DeviceCapabilities {
    fn default() -> (c: DeviceCapabilities)
        ensures
            c.runtimes@.len() == 0,
            c.gpu_memory_mb is None,
            c.system_memory_mb is None,
            c.models@.len() == 0,
    {
        DeviceCapabilities {
            runtimes: Vec::new(),
            gpu_memory_mb: None,
            system_memory_mb: None,
            models: Vec::new(),
        }
    }
}

/// What is known of the health of one device.
#[derive(Debug, Clone)]
pub struct DeviceHealth {
    pub device_id: String,
    /// Socket address of the device, as text.
    pub address: String,
    pub is_healthy: bool,
    /// Time of the last successful check or of the registration, in
    /// milliseconds on the caller's clock.
    pub last_check_ms: u64,
    pub consecutive_failures: u32,
    pub response_time_ms: u64,
    pub capabilities: DeviceCapabilities,
}

/// Figures of a cluster.
#[derive(Debug, Clone, Copy)]
pub struct DeviceClusterStatus {
    pub total_devices: usize,
    pub healthy_devices: usize,
    pub unhealthy_devices: usize,
    /// Mean response time over all devices, rounded down.
    pub average_response_time_ms: u64,
}

/// Position of the first device of `devices` with identifier `id`, or
/// `devices.len()`.
pub open spec fn device_slot(devices: Seq<DeviceHealth>, id: Seq<char>) -> int
    decreases devices.len(),
{
    if devices.len() == 0 {
        0
    } else if devices[0].device_id@ == id {
        0
    } else {
        1 + device_slot(devices.drop_first(), id)
    }
}

proof fn lemma_device_slot(devices: Seq<DeviceHealth>, id: Seq<char>, k: int)
    requires
        0 <= k <= devices.len(),
        forall|j: int| 0 <= j < k ==> (#[trigger] devices[j]).device_id@ != id,
        k < devices.len() ==> devices[k].device_id@ == id,
    ensures
        device_slot(devices, id) == k,
    decreases devices.len(),
{
    if k > 0 {
        lemma_device_slot(devices.drop_first(), id, k - 1);
    }
}

/// `runtimes` names `runtime`.
pub open spec fn runs(runtimes: Seq<String>, runtime: Seq<char>) -> bool {
    holds_text(runtimes, runtime)
}

/// The device is healthy and, if a runtime is asked for, has it.
pub open spec fn serves(device: DeviceHealth, runtime: Option<Seq<char>>) -> bool {
    device.is_healthy && match runtime {
        Some(r) => runs(device.capabilities.runtimes@, r),
        None => true,
    }
}

/// The devices among the first `n` that serve `runtime`, in order.
pub open spec fn serving(devices: Seq<DeviceHealth>, runtime: Option<Seq<char>>, n: int) -> Seq<
    DeviceHealth,
>
    decreases n,
{
    if n <= 0 {
        seq![]
    } else {
        let rest = serving(devices, runtime, n - 1);
        if serves(devices[n - 1], runtime) {
            rest.push(devices[n - 1])
        } else {
            rest
        }
    }
}

/// Index of the fastest device among the first `n` that serve `runtime`,
/// the earliest on a tie; `-1` if none does.
pub open spec fn fastest(devices: Seq<DeviceHealth>, runtime: Seq<char>, n: int) -> int
    decreases n,
{
    if n <= 0 {
        -1
    } else {
        let prev = fastest(devices, runtime, n - 1);
        if serves(devices[n - 1], Some(runtime)) && (prev < 0 || devices[n - 1].response_time_ms
            < devices[prev].response_time_ms) {
            n - 1
        } else {
            prev
        }
    }
}

/// Number of healthy devices among the first `n`.
pub open spec fn healthy_count(devices: Seq<DeviceHealth>, n: int) -> nat
    decreases n,
{
    if n <= 0 {
        0
    } else {
        healthy_count(devices, n - 1) + if devices[n - 1].is_healthy {
            1nat
        } else {
            0nat
        }
    }
}

/// Sum of the response times of the first `n` devices.
pub open spec fn response_sum(devices: Seq<DeviceHealth>, n: int) -> nat
    decreases n,
{
    if n <= 0 {
        0
    } else {
        response_sum(devices, n - 1) + devices[n - 1].response_time_ms as nat
    }
}

/// The device after one more failed check under `threshold`.
pub open spec fn after_failure(d: DeviceHealth, threshold: u32) -> DeviceHealth {
    let failures = if d.consecutive_failures == u32::MAX {
        u32::MAX
    } else {
        (d.consecutive_failures + 1) as u32
    };
    DeviceHealth {
        consecutive_failures: failures,
        is_healthy: d.is_healthy && failures < threshold,
        ..d
    }
}

/// The device after a check that succeeded at `now_ms` within
/// `response_time_ms`.
pub open spec fn after_success(d: DeviceHealth, response_time_ms: u64, now_ms: u64) -> DeviceHealth {
    DeviceHealth {
        consecutive_failures: 0,
        is_healthy: true,
        response_time_ms,
        last_check_ms: now_ms,
        ..d
    }
}

/// The references of a list as values.
pub open spec fn referents(s: Seq<&DeviceHealth>) -> Seq<DeviceHealth> {
    Seq::new(s.len(), |i: int| *s[i])
}

/// Keeps the health of the devices of a cluster.
#[derive(Debug)]
pub struct HealthMonitor {
    devices: Vec<DeviceHealth>,
    check_interval: Duration,
    failure_threshold: u32,
}

impl HealthMonitor {
    /// The devices in order of registration.
    pub closed spec fn devices(&self) -> Seq<DeviceHealth> {
        self.devices@
    }

    /// Failed checks in a row that turn a device unhealthy.
    pub closed spec fn threshold(&self) -> u32 {
        self.failure_threshold
    }

    /// Pause between rounds of checks.
    pub closed spec fn interval(&self) -> Duration {
        self.check_interval
    }

    /// A monitor without devices.
    pub fn new(check_interval: Duration, failure_threshold: u32) -> (m: HealthMonitor)
        ensures
            m.devices().len() == 0,
            m.threshold() == failure_threshold,
            m.interval() == check_interval,
    {
        HealthMonitor { devices: Vec::new(), check_interval, failure_threshold }
    }

    /// Pause between rounds of checks.
    pub fn check_interval(&self) -> (d: Duration)
        ensures
            d == self.interval(),
    {
        self.check_interval
    }

    fn slot(&self, device_id: &str) -> (k: usize)
        ensures
            k == device_slot(self.devices(), device_id@),
            k <= self.devices().len(),
    {
        let wanted = String::from_str(device_id);
        let mut i: usize = 0;
        while i < self.devices.len()
            invariant
                i <= self.devices@.len(),
                wanted@ == device_id@,
                forall|j: int| 0 <= j < i ==> (#[trigger] self.devices@[j]).device_id@ != device_id@,
            decreases self.devices@.len() - i,
        {
            if self.devices[i].device_id == wanted {
                proof {
                    lemma_device_slot(self.devices@, device_id@, i as int);
                }
                return i;
            }
            i += 1;
        }
        proof {
            lemma_device_slot(self.devices@, device_id@, i as int);
        }
        i
    }

    /// Registers a healthy device with the given capabilities, unless one is
    /// registered under the same identifier.
    pub fn register_device_with_capabilities(
        &mut self,
        device_id: String,
        address: String,
        capabilities: DeviceCapabilities,
        now_ms: u64,
    )
        ensures
            final(self).threshold() == old(self).threshold(),
            final(self).interval() == old(self).interval(),
            device_slot(old(self).devices(), device_id@) < old(self).devices().len() ==> final(self).devices() == old(self).devices(),
            device_slot(old(self).devices(), device_id@) == old(self).devices().len() ==> final(self).devices() == old(self).devices().push(
                DeviceHealth {
                    device_id,
                    address,
                    is_healthy: true,
                    last_check_ms: now_ms,
                    consecutive_failures: 0,
                    response_time_ms: 0,
                    capabilities,
                },
            ),
    {
        let k = self.slot(device_id.as_str());
        if k == self.devices.len() {
            self.devices.push(
                DeviceHealth {
                    device_id,
                    address,
                    is_healthy: true,
                    last_check_ms: now_ms,
                    consecutive_failures: 0,
                    response_time_ms: 0,
                    capabilities,
                },
            );
        }
    }

    /// Registers a healthy device without known capabilities, unless one is
    /// registered under the same identifier.
    pub fn register_device(&mut self, device_id: String, address: String, now_ms: u64)
        ensures
            final(self).threshold() == old(self).threshold(),
            final(self).interval() == old(self).interval(),
            device_slot(old(self).devices(), device_id@) < old(self).devices().len() ==> final(self).devices() == old(self).devices(),
            device_slot(old(self).devices(), device_id@) == old(self).devices().len() ==> {
                &&& final(self).devices().len() == old(self).devices().len() + 1
                &&& final(self).devices().drop_last() == old(self).devices()
                &&& final(self).devices().last().device_id == device_id
                &&& final(self).devices().last().address == address
                &&& final(self).devices().last().is_healthy
                &&& final(self).devices().last().consecutive_failures == 0
                &&& final(self).devices().last().response_time_ms == 0
                &&& final(self).devices().last().last_check_ms == now_ms
                &&& final(self).devices().last().capabilities.runtimes@.len() == 0
            },
    {
        self.register_device_with_capabilities(
            device_id,
            address,
            DeviceCapabilities::default(),
            now_ms,
        );
        proof {
            if device_slot(old(self).devices(), device_id@) == old(self).devices().len() {
                assert(self.devices@.drop_last() =~= old(self).devices@);
            }
        }
    }

    /// Whether the device is registered and healthy.
    pub fn is_device_healthy(&self, device_id: &str) -> (b: bool)
        ensures
            ({
                let k = device_slot(self.devices(), device_id@);
                b == (k < self.devices().len() && self.devices()[k].is_healthy)
            }),
    {
        let k = self.slot(device_id);
        k < self.devices.len() && self.devices[k].is_healthy
    }

    fn collect(&self, runtime: Option<&String>) -> (out: Vec<&DeviceHealth>)
        ensures
            referents(out@) == serving(
                self.devices(),
                match runtime {
                    Some(r) => Some(r@),
                    None => None,
                },
                self.devices().len() as int,
            ),
    {
        let ghost wanted: Option<Seq<char>> = match runtime {
            Some(r) => Some(r@),
            None => None,
        };
        let mut out: Vec<&DeviceHealth> = Vec::new();
        let mut i: usize = 0;
        while i < self.devices.len()
            invariant
                i <= self.devices@.len(),
                wanted == match runtime {
                    Some(r) => Some(r@),
                    None => None::<Seq<char>>,
                },
                referents(out@) == serving(self.devices@, wanted, i as int),
            decreases self.devices@.len() - i,
        {
            let ghost before = referents(out@);
            let device = &self.devices[i];
            let fits = device.is_healthy && match runtime {
                Some(r) => list_holds(&device.capabilities.runtimes, r),
                None => true,
            };
            if fits {
                out.push(device);
                proof {
                    assert(referents(out@) =~= before.push(self.devices@[i as int]));
                }
            }
            i += 1;
        }
        out
    }

    /// The healthy devices, in order of registration.
    pub fn get_healthy_devices(&self) -> (out: Vec<&DeviceHealth>)
        ensures
            referents(out@) == serving(self.devices(), None, self.devices().len() as int),
    {
        self.collect(None)
    }

    /// The healthy devices that have `runtime`, in order of registration.
    pub fn get_devices_with_runtime(&self, runtime: &str) -> (out: Vec<&DeviceHealth>)
        ensures
            referents(out@) == serving(
                self.devices(),
                Some(runtime@),
                self.devices().len() as int,
            ),
    {
        let wanted = String::from_str(runtime);
        self.collect(Some(&wanted))
    }

    /// The healthy device with `runtime` that answers fastest, the earliest
    /// registered on a tie.
    pub fn get_fastest_device_for_runtime(&self, runtime: &str) -> (d: Option<&DeviceHealth>)
        ensures
            ({
                let k = fastest(self.devices(), runtime@, self.devices().len() as int);
                &&& d is None <==> k < 0
                &&& d is Some ==> 0 <= k < self.devices().len() && *d->0 == self.devices()[k]
            }),
    {
        let wanted = String::from_str(runtime);
        let mut best: Option<usize> = None;
        let mut i: usize = 0;
        while i < self.devices.len()
            invariant
                i <= self.devices@.len(),
                wanted@ == runtime@,
                match best {
                    Some(b) => b < i && b == fastest(self.devices@, runtime@, i as int),
                    None => fastest(self.devices@, runtime@, i as int) == -1,
                },
            decreases self.devices@.len() - i,
        {
            let device = &self.devices[i];
            if device.is_healthy && list_holds(&device.capabilities.runtimes, &wanted) {
                let better = match best {
                    Some(b) => device.response_time_ms < self.devices[b].response_time_ms,
                    None => true,
                };
                if better {
                    best = Some(i);
                }
            }
            i += 1;
        }
        match best {
            Some(b) => Some(&self.devices[b]),
            None => None,
        }
    }

    /// Records a failed check of the device: the count of failures in a row
    /// grows, and the device turns unhealthy once it reaches the threshold.
    /// An unknown device changes nothing.
    pub fn mark_failure(&mut self, device_id: &str)
        ensures
            final(self).threshold() == old(self).threshold(),
            final(self).interval() == old(self).interval(),
            ({
                let k = device_slot(old(self).devices(), device_id@);
                if k < old(self).devices().len() {
                    final(self).devices() == old(self).devices().update(
                        k,
                        after_failure(old(self).devices()[k], old(self).threshold()),
                    )
                } else {
                    final(self).devices() == old(self).devices()
                }
            }),
    {
        let k = self.slot(device_id);
        if k < self.devices.len() {
            let mut device = self.devices.remove(k);
            if device.consecutive_failures < u32::MAX {
                device.consecutive_failures = device.consecutive_failures + 1;
            }
            if device.consecutive_failures >= self.failure_threshold {
                device.is_healthy = false;
            }
            self.devices.insert(k, device);
            proof {
                assert(self.devices@ =~= old(self).devices@.update(
                    k as int,
                    after_failure(old(self).devices@[k as int], self.failure_threshold),
                ));
            }
        }
    }

    /// Records a check of the device that succeeded at `now_ms` within
    /// `response_time_ms`: the device is healthy and its failures are
    /// forgotten. An unknown device changes nothing.
    pub fn mark_success(&mut self, device_id: &str, response_time_ms: u64, now_ms: u64)
        ensures
            final(self).threshold() == old(self).threshold(),
            final(self).interval() == old(self).interval(),
            ({
                let k = device_slot(old(self).devices(), device_id@);
                if k < old(self).devices().len() {
                    final(self).devices() == old(self).devices().update(
                        k,
                        after_success(old(self).devices()[k], response_time_ms, now_ms),
                    )
                } else {
                    final(self).devices() == old(self).devices()
                }
            }),
    {
        let k = self.slot(device_id);
        if k < self.devices.len() {
            let mut device = self.devices.remove(k);
            device.consecutive_failures = 0;
            device.is_healthy = true;
            device.response_time_ms = response_time_ms;
            device.last_check_ms = now_ms;
            self.devices.insert(k, device);
            proof {
                assert(self.devices@ =~= old(self).devices@.update(
                    k as int,
                    after_success(old(self).devices@[k as int], response_time_ms, now_ms),
                ));
            }
        }
    }

    /// All devices, in order of registration.
    pub fn list_all_devices(&self) -> (all: &[DeviceHealth])
        ensures
            all@ == self.devices(),
    {
        self.devices.as_slice()
    }

    /// The figures of the cluster.
    pub fn get_status(&self) -> (s: DeviceClusterStatus)
        ensures
            s.total_devices == self.devices().len(),
            s.healthy_devices == healthy_count(self.devices(), self.devices().len() as int),
            s.unhealthy_devices == s.total_devices - s.healthy_devices,
            s.average_response_time_ms == if self.devices().len() == 0 {
                0
            } else {
                response_sum(self.devices(), self.devices().len() as int) / self.devices().len()
            },
    {
        let total = self.devices.len();
        let mut healthy: usize = 0;
        let mut sum: u128 = 0;
        let mut i: usize = 0;
        while i < total
            invariant
                i <= total,
                total == self.devices@.len(),
                healthy <= i,
                healthy == healthy_count(self.devices@, i as int),
                sum == response_sum(self.devices@, i as int),
                sum <= i * u64::MAX,
            decreases total - i,
        {
            if self.devices[i].is_healthy {
                healthy += 1;
            }
            proof {
                assert(i * u64::MAX + u64::MAX == (i + 1) * u64::MAX) by (nonlinear_arith);
                assert((i + 1) * u64::MAX <= usize::MAX * u64::MAX) by (nonlinear_arith)
                    requires
                        i + 1 <= usize::MAX,
                ;
            }
            sum = sum + self.devices[i].response_time_ms as u128;
            i += 1;
        }
        let average: u64 = if total > 0 {
            let mean: u128 = sum / (total as u128);
            assert(mean <= u64::MAX) by (nonlinear_arith)
                requires
                    mean == sum / (total as u128),
                    sum <= total * u64::MAX,
                    total > 0,
            ;
            mean as u64
        } else {
            0
        };
        DeviceClusterStatus {
            total_devices: total,
            healthy_devices: healthy,
            unhealthy_devices: total - healthy,
            average_response_time_ms: average,
        }
    }

    /// Forgets the device registered under `device_id`, if there is one.
    pub fn unregister_device(&mut self, device_id: &str)
        ensures
            final(self).threshold() == old(self).threshold(),
            final(self).interval() == old(self).interval(),
            ({
                let k = device_slot(old(self).devices(), device_id@);
                if k < old(self).devices().len() {
                    final(self).devices() == old(self).devices().remove(k)
                } else {
                    final(self).devices() == old(self).devices()
                }
            }),
    {
        let k = self.slot(device_id);
        if k < self.devices.len() {
            self.devices.remove(k);
        }
    }

    /// Forgets all devices.
    pub fn clear(&mut self)
        ensures
            final(self).threshold() == old(self).threshold(),
            final(self).interval() == old(self).interval(),
            final(self).devices().len() == 0,
    {
        self.devices.clear();
    }
}

} // verus!
