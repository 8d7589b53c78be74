//! The sensor side of the pipeline: a monitor abstracts "one device worth of
//! telemetry" behind a one-time static-info query and a repeatable sample
//! operation.
//!
//! The driver-backed monitor talks to the device through an outside binding
//! crate; every call into it stands behind a small trusted wrapper, and all
//! assembly of the results — best-effort substitution for non-core fields,
//! failure on missing core fields, process-list deduplication — is verified.
//! A scripted monitor replays fixed readings so the whole pipeline can run
//! without hardware.

use vstd::prelude::*;
use vstd::string::StringExecFns;
use crate::data::GpuData;
use crate::data::GpuInfo;
use crate::data::ProcessInfo;
use crate::data::dedup_by_pid;
use crate::data::dedup_processes;
use crate::data::unique_pids;
use nvml_wrapper::Device;
use nvml_wrapper::Nvml;
use nvml_wrapper::enum_wrappers::device::Clock;
use nvml_wrapper::enum_wrappers::device::PcieUtilCounter;
use nvml_wrapper::enum_wrappers::device::TemperatureSensor;
use nvml_wrapper::enums::device::UsedGpuMemory;
use nvml_wrapper::error::NvmlError;

verus! {

#[verifier::external_type_specification]
#[verifier::external_body]
pub struct ExNvml(Nvml);

#[verifier::external_type_specification]
#[verifier::external_body]
pub struct ExNvmlError(NvmlError);

#[verifier::external_type_specification]
#[verifier::external_body]
pub struct ExDevice<'nvml>(Device<'nvml>);

#[verifier::external_type_specification]
#[verifier::external_body]
pub struct ExInstant(std::time::Instant);

/// Why a monitor could not be built or a sample could not be taken.
///
/// The first two are fatal at construction: no monitor instance exists.
/// `SamplingFailed` is transient: the monitor stays usable and the caller
/// should simply try again on the next tick.
#[derive(Debug)]
pub enum MonitorError {
    /// The driver library could not be initialized.
    NvmlInit(NvmlError),
    /// No device exists at the requested index.
    DeviceNotFound(u32),
    /// A core telemetry field was unavailable this tick.
    SamplingFailed(String),
}

/// What one enumerated process looks like before name resolution: its id and
/// its GPU memory footprint in bytes, when the driver reported one.
pub type RawProcess = (u32, Option<u64>);

// ---------------------------------------------------------------------------
// Trusted wrappers around the driver binding. Each holds exactly one outside
// call plus conversion of its result; nothing a contract relies on happens
// in them beyond what the binding's source shows.
// ---------------------------------------------------------------------------

/// Relies on `Nvml::init`: loads and initializes the driver library.
#[verifier::external_body]
fn nvml_init() -> (r: Result<Nvml, NvmlError>) {
    Nvml::init()
}

/// Relies on `Nvml::device_by_index`: a handle for the device at `index`, or
/// an error when no such device is present.
#[verifier::external_body]
fn device_at<'a>(nvml: &'a Nvml, index: u32) -> (r: Result<Device<'a>, NvmlError>) {
    nvml.device_by_index(index)
}

/// Relies on `Nvml::sys_driver_version`: the installed driver version string.
#[verifier::external_body]
fn driver_version_of(nvml: &Nvml) -> (r: Result<String, NvmlError>) {
    nvml.sys_driver_version()
}

/// Relies on `Device::name`: the product name of the device.
#[verifier::external_body]
fn name_of(device: &Device<'_>) -> (r: Result<String, NvmlError>) {
    device.name()
}

/// Relies on `Device::uuid`: the globally unique identifier of the device.
#[verifier::external_body]
fn uuid_of(device: &Device<'_>) -> (r: Result<String, NvmlError>) {
    device.uuid()
}

/// Relies on `Device::vbios_version`: the video BIOS version string.
#[verifier::external_body]
fn vbios_version_of(device: &Device<'_>) -> (r: Result<String, NvmlError>) {
    device.vbios_version()
}

/// Relies on `Device::current_pcie_link_gen`: the current PCIe generation.
#[verifier::external_body]
fn pcie_gen_of(device: &Device<'_>) -> (r: Result<u32, NvmlError>) {
    device.current_pcie_link_gen()
}

/// Relies on `Device::current_pcie_link_width`: the current PCIe lane width.
#[verifier::external_body]
fn pcie_width_of(device: &Device<'_>) -> (r: Result<u32, NvmlError>) {
    device.current_pcie_link_width()
}

/// Relies on `Device::utilization_rates`: picks the `gpu` field, the percent
/// of time a kernel was executing over the last sample period.
#[verifier::external_body]
fn utilization_of(device: &Device<'_>) -> (r: Result<u32, NvmlError>) {
    device.utilization_rates().map(|u| u.gpu)
}

/// Relies on `Device::memory_info`: picks the `used` and `total` fields, in
/// bytes.
#[verifier::external_body]
fn memory_of(device: &Device<'_>) -> (r: Result<(u64, u64), NvmlError>) {
    device.memory_info().map(|m| (m.used, m.total))
}

/// Relies on `Device::temperature` for the on-die GPU sensor, in degrees
/// Celsius.
#[verifier::external_body]
fn temperature_of(device: &Device<'_>) -> (r: Result<u32, NvmlError>) {
    device.temperature(TemperatureSensor::Gpu)
}

/// Relies on `Device::clock_info` for the graphics clock, in MHz.
#[verifier::external_body]
fn graphics_clock_of(device: &Device<'_>) -> (r: Result<u32, NvmlError>) {
    device.clock_info(Clock::Graphics)
}

/// Relies on `Device::clock_info` for the memory clock, in MHz.
#[verifier::external_body]
fn memory_clock_of(device: &Device<'_>) -> (r: Result<u32, NvmlError>) {
    device.clock_info(Clock::Memory)
}

/// Relies on `Device::power_usage`: current power draw in milliwatts.
#[verifier::external_body]
fn power_usage_of(device: &Device<'_>) -> (r: Result<u32, NvmlError>) {
    device.power_usage()
}

/// Relies on `Device::power_management_limit`: the power cap in milliwatts.
#[verifier::external_body]
fn power_limit_of(device: &Device<'_>) -> (r: Result<u32, NvmlError>) {
    device.power_management_limit()
}

/// Relies on `Device::fan_speed` for fan 0, in percent of its maximum.
#[verifier::external_body]
fn fan_speed_of(device: &Device<'_>) -> (r: Result<u32, NvmlError>) {
    device.fan_speed(0)
}

/// Relies on `Device::pcie_throughput` with the send counter, in KB/s.
#[verifier::external_body]
fn pcie_tx_of(device: &Device<'_>) -> (r: Result<u32, NvmlError>) {
    device.pcie_throughput(PcieUtilCounter::Send)
}

/// Relies on `Device::pcie_throughput` with the receive counter, in KB/s.
#[verifier::external_body]
fn pcie_rx_of(device: &Device<'_>) -> (r: Result<u32, NvmlError>) {
    device.pcie_throughput(PcieUtilCounter::Receive)
}

/// Relies on `Device::running_graphics_processes`: one entry per process the
/// driver reports, converted to its id and, where the driver gave one, its
/// memory footprint (`UsedGpuMemory::Used` carries bytes; `Unavailable`
/// becomes nothing).
#[verifier::external_body]
fn processes_of(device: &Device<'_>) -> (r: Result<Vec<RawProcess>, NvmlError>) {
    device.running_graphics_processes().map(|ps|
        ps.into_iter().map(|p|
            (
                p.pid,
                match p.used_gpu_memory {
                    UsedGpuMemory::Used(v) => Some(v),
                    UsedGpuMemory::Unavailable => None,
                },
            ),
        ).collect()
    )
}

/// Relies on `NvmlError`'s `Display` impl: a human-readable reason.
#[verifier::external_body]
fn nvml_error_text(e: &NvmlError) -> (r: String) {
    format!("{}", e)
}

/// Relies on `Instant::now`: a reading of a monotonic clock.
#[verifier::external_body]
fn clock_now() -> (r: std::time::Instant) {
    std::time::Instant::now()
}

/// Relies on `Instant::elapsed`: the time since `start`.
#[verifier::external_body]
fn elapsed_since(start: &std::time::Instant) -> (r: core::time::Duration) {
    start.elapsed()
}

/// Relies on `Duration::as_millis`: the duration in whole milliseconds
/// (truncated into `u64`, which holds hundreds of millions of years).
#[verifier::external_body]
fn duration_to_millis(d: core::time::Duration) -> (r: u64) {
    d.as_millis() as u64
}

// ---------------------------------------------------------------------------
// Verified assembly of the outside results.
// ---------------------------------------------------------------------------

/// The sentinel name of a process whose display name is not yet resolved;
/// name resolution is OS work done outside the library.
pub open spec fn unknown_label() -> Seq<char> {
    "unknown"@
}

/// The entry built from one raw process record: same id, the reported
/// footprint or zero, and the sentinel name.
pub open spec fn entry_matches_raw(e: ProcessInfo, rp: RawProcess) -> bool {
    &&& e.pid == rp.0
    &&& e.memory_usage == (match rp.1 {
        Some(v) => v,
        None => 0u64,
    })
    &&& e.name@ == unknown_label()
}

/// Elementwise: `pre` is exactly the entries built from `raw`, in order.
pub open spec fn entries_match_raw(pre: Seq<ProcessInfo>, raw: Seq<RawProcess>) -> bool {
    &&& pre.len() == raw.len()
    &&& forall|i: int| 0 <= i < raw.len() ==> entry_matches_raw(#[trigger] pre[i], raw[i])
}

/// Build the process list of a sample from the raw driver records: one entry
/// per record, then deduplicated by process id, first occurrence winning.
fn raw_to_entries(raw: Vec<RawProcess>) -> (r: Vec<ProcessInfo>)
    ensures
        unique_pids(r@),
        exists|pre: Seq<ProcessInfo>| entries_match_raw(pre, raw@) && r@ == dedup_by_pid(pre),
{
    let mut pre: Vec<ProcessInfo> = Vec::new();
    let mut i: usize = 0;
    while i < raw.len()
        invariant
            i <= raw@.len(),
            pre@.len() == i,
            forall|j: int| 0 <= j < i ==> entry_matches_raw(#[trigger] pre@[j], raw@[j]),
        decreases raw@.len() - i,
    {
        let (pid, mem) = raw[i];
        let memory_usage = match mem {
            Some(v) => v,
            None => 0,
        };
        pre.push(ProcessInfo { pid, name: String::from_str("unknown"), memory_usage });
        i += 1;
    }
    let ghost pre_seq = pre@;
    let r = dedup_processes(pre);
    assert(entries_match_raw(pre_seq, raw@) && r@ == dedup_by_pid(pre_seq));
    r
}

/// Assemble the static-info record from whatever identity queries succeeded:
/// each string field falls back to the placeholder `"N/A"`, each numeric
/// field to zero, independently of the others.
pub fn build_static_info(
    name: Option<String>,
    uuid: Option<String>,
    driver_version: Option<String>,
    vbios_version: Option<String>,
    pcie_gen: Option<u32>,
    pcie_width: Option<u32>,
) -> (r: GpuInfo)
    ensures
        (match name {
            Some(v) => r.name@ == v@,
            None => r.name@ == "N/A"@,
        }),
        (match uuid {
            Some(v) => r.uuid@ == v@,
            None => r.uuid@ == "N/A"@,
        }),
        (match driver_version {
            Some(v) => r.driver_version@ == v@,
            None => r.driver_version@ == "N/A"@,
        }),
        (match vbios_version {
            Some(v) => r.vbios_version@ == v@,
            None => r.vbios_version@ == "N/A"@,
        }),
        (match pcie_gen {
            Some(v) => r.pcie_gen == v,
            None => r.pcie_gen == 0,
        }),
        (match pcie_width {
            Some(v) => r.pcie_width == v,
            None => r.pcie_width == 0,
        }),
{
    GpuInfo {
        name: match name {
            Some(v) => v,
            None => String::from_str("N/A"),
        },
        uuid: match uuid {
            Some(v) => v,
            None => String::from_str("N/A"),
        },
        driver_version: match driver_version {
            Some(v) => v,
            None => String::from_str("N/A"),
        },
        vbios_version: match vbios_version {
            Some(v) => v,
            None => String::from_str("N/A"),
        },
        pcie_gen: match pcie_gen {
            Some(v) => v,
            None => 0,
        },
        pcie_width: match pcie_width {
            Some(v) => v,
            None => 0,
        },
    }
}

/// Assemble one sample from whatever field queries succeeded.
///
/// The three core fields — utilization, memory, temperature — must all be
/// present or the sample fails with `SamplingFailed`: without them it is
/// meaningless. Every other field is best-effort: clocks and fan speed fall
/// back to zero on their own; power draw and cap are kept only as a pair,
/// as are the two PCIe counters, and are zeroed otherwise. A missing
/// process enumeration yields an empty list, and the list is deduplicated
/// by process id, first occurrence winning.
pub fn build_sample(
    timestamp: u64,
    utilization: Option<u32>,
    memory: Option<(u64, u64)>,
    temperature: Option<u32>,
    gpu_clock: Option<u32>,
    memory_clock: Option<u32>,
    power_usage: Option<u32>,
    power_limit: Option<u32>,
    fan_speed: Option<u32>,
    pcie_tx: Option<u32>,
    pcie_rx: Option<u32>,
    processes: Option<Vec<RawProcess>>,
) -> (r: Result<(GpuData, Vec<ProcessInfo>), MonitorError>)
    ensures
        (r matches Ok(_)) <==> (utilization is Some && memory is Some && temperature is Some),
        r matches Err(e) ==> e matches MonitorError::SamplingFailed(_),
        r matches Ok(p) ==> {
            &&& p.0.timestamp == timestamp
            &&& p.0.utilization == utilization.unwrap()
            &&& p.0.memory_used == memory.unwrap().0
            &&& p.0.memory_total == memory.unwrap().1
            &&& p.0.temperature == temperature.unwrap()
            &&& p.0.gpu_clock == (match gpu_clock {
                Some(v) => v,
                None => 0u32,
            })
            &&& p.0.memory_clock == (match memory_clock {
                Some(v) => v,
                None => 0u32,
            })
            &&& (if power_usage is Some && power_limit is Some {
                p.0.power_usage == power_usage.unwrap() && p.0.power_limit == power_limit.unwrap()
            } else {
                p.0.power_usage == 0 && p.0.power_limit == 0
            })
            &&& p.0.fan_speed == (match fan_speed {
                Some(v) => v,
                None => 0u32,
            })
            &&& (if pcie_tx is Some && pcie_rx is Some {
                p.0.pcie_throughput_tx == pcie_tx.unwrap() && p.0.pcie_throughput_rx
                    == pcie_rx.unwrap()
            } else {
                p.0.pcie_throughput_tx == 0 && p.0.pcie_throughput_rx == 0
            })
            &&& unique_pids(p.1@)
            &&& (match processes {
                Some(raw) => exists|pre: Seq<ProcessInfo>|
                    entries_match_raw(pre, raw@) && p.1@ == dedup_by_pid(pre),
                None => p.1@.len() == 0,
            })
        },
{
    let (util, mem, temp) = match (utilization, memory, temperature) {
        (Some(u), Some(m), Some(t)) => (u, m, t),
        _ => {
            return Err(
                MonitorError::SamplingFailed(String::from_str("core telemetry field unavailable")),
            );
        },
    };
    let (pu, pl) = match (power_usage, power_limit) {
        (Some(u), Some(l)) => (u, l),
        _ => (0, 0),
    };
    let (tx, rx) = match (pcie_tx, pcie_rx) {
        (Some(t), Some(r)) => (t, r),
        _ => (0, 0),
    };
    let data = GpuData {
        timestamp,
        utilization: util,
        memory_used: mem.0,
        memory_total: mem.1,
        temperature: temp,
        gpu_clock: match gpu_clock {
            Some(v) => v,
            None => 0,
        },
        memory_clock: match memory_clock {
            Some(v) => v,
            None => 0,
        },
        power_usage: pu,
        power_limit: pl,
        fan_speed: match fan_speed {
            Some(v) => v,
            None => 0,
        },
        pcie_throughput_tx: tx,
        pcie_throughput_rx: rx,
    };
    let entries = match processes {
        Some(raw) => raw_to_entries(raw),
        None => Vec::new(),
    };
    Ok((data, entries))
}

/// A sensor: one-time identity query plus a repeatable sample operation.
///
/// Today two variants exist — the driver-backed monitor and a scripted one
/// for tests — and the contract anticipates others. Whatever the source,
/// the process list of a successful sample never repeats a process id.
pub trait GpuMonitor {
    /// Query device identity; fields the source cannot report carry
    /// placeholders, and the call itself never fails.
    fn get_static_info(&self) -> GpuInfo;

    /// Take one full telemetry reading together with the processes seen
    /// with it. A failure is transient: the monitor stays usable.
    fn sample(&mut self) -> (r: Result<(GpuData, Vec<ProcessInfo>), MonitorError>)
        ensures
            r matches Ok(p) ==> unique_pids(p.1@),
    ;
}

/// The driver-backed monitor: owns a handle to the driver library and the
/// index of the device it watches, and timestamps samples against its own
/// construction time.
pub struct NvmlMonitor {
    nvml: Nvml,
    device_index: u32,
    start_time: std::time::Instant,
}

impl NvmlMonitor {
    /// Initialize the driver library and probe the device index once, so a
    /// missing driver or device surfaces here and not on every tick. No
    /// monitor exists on failure.
    pub fn new(device_index: u32) -> (r: Result<NvmlMonitor, MonitorError>)
        ensures
            r matches Err(e) ==> (e matches MonitorError::NvmlInit(_) || e
                matches MonitorError::DeviceNotFound(_)),
            r matches Err(MonitorError::DeviceNotFound(i)) ==> i == device_index,
    {
        let nvml = match nvml_init() {
            Ok(n) => n,
            Err(e) => {
                return Err(MonitorError::NvmlInit(e));
            },
        };
        match device_at(&nvml, device_index) {
            Ok(_) => (),
            Err(_) => {
                return Err(MonitorError::DeviceNotFound(device_index));
            },
        }
        Ok(NvmlMonitor { nvml, device_index, start_time: clock_now() })
    }
}

impl GpuMonitor for NvmlMonitor {
    /// Best effort field by field: whatever identity query fails is replaced
    /// by its placeholder, and the call never fails as a whole.
    fn get_static_info(&self) -> GpuInfo {
        let driver_version = driver_version_of(&self.nvml).ok();
        match device_at(&self.nvml, self.device_index) {
            Ok(device) => build_static_info(
                name_of(&device).ok(),
                uuid_of(&device).ok(),
                driver_version,
                vbios_version_of(&device).ok(),
                pcie_gen_of(&device).ok(),
                pcie_width_of(&device).ok(),
            ),
            Err(_) => build_static_info(None, None, driver_version, None, None, None),
        }
    }

    /// One full reading: every field is queried independently and the
    /// results are assembled by `build_sample`, so a missing core field
    /// fails the sample while everything else degrades to defaults. A
    /// failure here is always transient: the monitor stays usable.
    fn sample(&mut self) -> (r: Result<(GpuData, Vec<ProcessInfo>), MonitorError>)
        ensures
            r matches Err(e) ==> e matches MonitorError::SamplingFailed(_),
    {
        let device = match device_at(&self.nvml, self.device_index) {
            Ok(d) => d,
            Err(e) => {
                return Err(MonitorError::SamplingFailed(nvml_error_text(&e)));
            },
        };
        let timestamp = duration_to_millis(elapsed_since(&self.start_time));
        build_sample(
            timestamp,
            utilization_of(&device).ok(),
            memory_of(&device).ok(),
            temperature_of(&device).ok(),
            graphics_clock_of(&device).ok(),
            memory_clock_of(&device).ok(),
            power_usage_of(&device).ok(),
            power_limit_of(&device).ok(),
            fan_speed_of(&device).ok(),
            pcie_tx_of(&device).ok(),
            pcie_rx_of(&device).ok(),
            processes_of(&device).ok(),
        )
    }
}

/// One step of a scripted monitor's playback.
pub enum ScriptStep {
    /// Report this reading and process list.
    Produce(GpuData, Vec<ProcessInfo>),
    /// Fail this sample with a transient error.
    Fail,
}

/// A deterministic synthetic monitor: replays a fixed script of readings
/// and transient failures, one per `sample` call, so the whole pipeline can
/// be driven without hardware. An exhausted script keeps failing
/// transiently.
pub struct ScriptedMonitor {
    info: GpuInfo,
    script: Vec<ScriptStep>,
}

impl ScriptedMonitor {
    /// The steps not yet played, in playback order.
    pub closed spec fn remaining(&self) -> Seq<ScriptStep> {
        self.script@
    }

    /// The identity this monitor reports.
    pub closed spec fn identity(&self) -> GpuInfo {
        self.info
    }

    pub fn new(info: GpuInfo, script: Vec<ScriptStep>) -> (m: ScriptedMonitor)
        ensures
            m.remaining() == script@,
            m.identity() == info,
    {
        ScriptedMonitor { info, script }
    }
}

impl GpuMonitor for ScriptedMonitor {
    /// The identity the monitor was constructed with.
    fn get_static_info(&self) -> (r: GpuInfo)
        ensures
            r.name@ == self.identity().name@,
            r.uuid@ == self.identity().uuid@,
            r.pcie_gen == self.identity().pcie_gen,
            r.pcie_width == self.identity().pcie_width,
            r.driver_version@ == self.identity().driver_version@,
            r.vbios_version@ == self.identity().vbios_version@,
    {
        self.info.duplicate()
    }

    /// Play the next step of the script; the process list of a produced
    /// reading is deduplicated exactly as the driver-backed monitor does.
    fn sample(&mut self) -> (r: Result<(GpuData, Vec<ProcessInfo>), MonitorError>)
        ensures
            r matches Err(e) ==> e matches MonitorError::SamplingFailed(_),
            old(self).remaining().len() == 0 ==> final(self).remaining() == old(self).remaining()
                && r matches Err(_),
            old(self).remaining().len() > 0 ==> final(self).remaining() == old(
                self,
            ).remaining().drop_first(),
            old(self).remaining().len() > 0 ==> (match old(self).remaining()[0] {
                ScriptStep::Produce(d, ps) => r matches Ok(p) && p.0 == d && p.1@ == dedup_by_pid(
                    ps@,
                ),
                ScriptStep::Fail => r matches Err(_),
            }),
    {
        if self.script.len() == 0 {
            return Err(MonitorError::SamplingFailed(String::from_str("script exhausted")));
        }
        assert(self.script@.remove(0) =~= self.script@.drop_first());
        match self.script.remove(0) {
            ScriptStep::Produce(data, procs) => Ok((data, dedup_processes(procs))),
            ScriptStep::Fail => Err(
                MonitorError::SamplingFailed(String::from_str("scripted failure")),
            ),
        }
    }
}

} // verus!
