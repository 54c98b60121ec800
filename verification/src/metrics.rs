//! The OS-facing metrics provider.
//!
//! `HostMetrics` owns the handles needed to re-read system, network and
//! disk facts on command. The handles are `sysinfo` values; what the logic
//! needs of them is read out as plain values (`SystemFacts`, `NetEntry`,
//! `DiskEntry`) through the trusted items below, and everything downstream
//! of that reading is verified. The provider itself has no concurrency
//! control — callers serialize access (see `crate::store`).

use vstd::prelude::*;

pub use crate::store::collect_data;

verus! {

use vstd::multiset::Multiset;

use crate::si::DiskEntry;
use crate::si::DiskEntryV;
use crate::si::NetEntry;
use crate::si::NetEntryV;
use crate::si::SystemFacts;

#[verifier::external_type_specification]
#[verifier::external_body]
pub struct ExSystem(sysinfo::System);

#[verifier::external_type_specification]
#[verifier::external_body]
pub struct ExNetworks(sysinfo::Networks);

#[verifier::external_type_specification]
#[verifier::external_body]
pub struct ExDisks(sysinfo::Disks);

#[verifier::external_type_specification]
#[verifier::external_body]
pub struct ExCpu(sysinfo::Cpu);

#[verifier::external_type_specification]
#[verifier::external_body]
pub struct ExDisk(sysinfo::Disk);

#[verifier::external_type_specification]
#[verifier::external_body]
pub struct ExNetworkData(sysinfo::NetworkData);

/// Relies on sysinfo::System::new_all: a system handle with every metric
/// category refreshed once.
pub assume_specification[ sysinfo::System::new_all ]() -> sysinfo::System;

/// Relies on sysinfo::System::refresh_all: re-reads the system's metrics in
/// place, overwriting prior values.
pub assume_specification[ sysinfo::System::refresh_all ](system: &mut sysinfo::System);

/// The total RAM reading, in bytes, cached in a system handle.
pub uninterp spec fn sys_total_memory(system: sysinfo::System) -> u64;

/// The used RAM reading, in bytes, cached in a system handle.
pub uninterp spec fn sys_used_memory(system: sysinfo::System) -> u64;

/// The total swap reading, in bytes, cached in a system handle.
pub uninterp spec fn sys_total_swap(system: sysinfo::System) -> u64;

/// The used swap reading, in bytes, cached in a system handle.
pub uninterp spec fn sys_used_swap(system: sysinfo::System) -> u64;

/// How many logical CPUs a system handle lists.
pub uninterp spec fn sys_num_cpus(system: sysinfo::System) -> usize;

/// The global CPU usage reading cached in a system handle, as the IEEE-754
/// bit pattern of the percentage.
pub uninterp spec fn sys_cpu_usage_bits(system: sysinfo::System) -> u32;

/// Relies on sysinfo::System::total_memory: the total RAM reading cached in
/// the handle — a function of the handle value alone.
pub assume_specification[ sysinfo::System::total_memory ](system: &sysinfo::System) -> (r: u64)
    ensures
        r == sys_total_memory(*system),
;

/// Relies on sysinfo::System::used_memory: the used RAM reading cached in
/// the handle — a function of the handle value alone.
pub assume_specification[ sysinfo::System::used_memory ](system: &sysinfo::System) -> (r: u64)
    ensures
        r == sys_used_memory(*system),
;

/// Relies on sysinfo::System::total_swap: the total swap reading cached in
/// the handle — a function of the handle value alone.
pub assume_specification[ sysinfo::System::total_swap ](system: &sysinfo::System) -> (r: u64)
    ensures
        r == sys_total_swap(*system),
;

/// Relies on sysinfo::System::used_swap: the used swap reading cached in
/// the handle — a function of the handle value alone.
pub assume_specification[ sysinfo::System::used_swap ](system: &sysinfo::System) -> (r: u64)
    ensures
        r == sys_used_swap(*system),
;

/// Relies on sysinfo::System::cpus: the list of logical CPUs cached in the
/// handle; its length is a function of the handle value alone.
pub assume_specification[ sysinfo::System::cpus ](system: &sysinfo::System) -> (r: &[sysinfo::Cpu])
    ensures
        r@.len() == sys_num_cpus(*system),
;

/// Relies on sysinfo::System::uptime: seconds since boot.
pub assume_specification[ sysinfo::System::uptime ]() -> u64;

/// Relies on sysinfo::System::name: the OS name, when the platform reports one.
pub assume_specification[ sysinfo::System::name ]() -> Option<String>;

/// Relies on sysinfo::System::host_name: the hostname, when the platform
/// reports one.
pub assume_specification[ sysinfo::System::host_name ]() -> Option<String>;

/// Relies on sysinfo::System::kernel_version: the kernel version, when the
/// platform reports one.
pub assume_specification[ sysinfo::System::kernel_version ]() -> Option<String>;

/// Relies on sysinfo::System::os_version: the OS version, when the platform
/// reports one.
pub assume_specification[ sysinfo::System::os_version ]() -> Option<String>;

/// Relies on sysinfo::set_open_files_limit: caps how many file handles the
/// refresh code may keep open; reports whether the cap was applied.
pub assume_specification[ sysinfo::set_open_files_limit ](limit: isize) -> bool;

/// Relies on sysinfo::Networks::new_with_refreshed_list: an interface table
/// refreshed once.
pub assume_specification[ sysinfo::Networks::new_with_refreshed_list ]() -> sysinfo::Networks;

/// Relies on sysinfo::Networks::refresh: re-reads the counters of the listed
/// interfaces in place.
pub assume_specification[ sysinfo::Networks::refresh ](networks: &mut sysinfo::Networks);

/// Relies on sysinfo::Disks::new_with_refreshed_list: a volume table
/// refreshed once.
pub assume_specification[ sysinfo::Disks::new_with_refreshed_list ]() -> sysinfo::Disks;

/// Relies on sysinfo::Disks::refresh: re-reads the listed volumes in place.
pub assume_specification[ sysinfo::Disks::refresh ](disks: &mut sysinfo::Disks);

/// What an interface table holds: one record per interface, keyed by the
/// interface's name. The table is a hash map, so no order is promised.
pub uninterp spec fn networks_contents(networks: sysinfo::Networks) -> Multiset<NetEntryV>;

/// What a volume table holds, in the platform's list order.
pub uninterp spec fn disks_contents(disks: sysinfo::Disks) -> Seq<DiskEntryV>;

/// Relies on sysinfo::Networks::list and the sysinfo::NetworkData accessors
/// mac_address, total_received, total_transmitted, total_errors_on_received
/// and total_errors_on_transmitted: one entry per listed interface, with its
/// name, MAC bytes and cumulative counters copied verbatim. The underlying
/// map is a hash map, so the entries come in no promised order.
#[verifier::external_body]
fn network_entries(networks: &sysinfo::Networks) -> (r: Vec<NetEntry>)
    ensures
        r@.map_values(|e: NetEntry| e@).to_multiset() == networks_contents(*networks),
{
    let mut r = Vec::new();
    for (name, data) in networks.list() {
        r.push(NetEntry {
            name: name.clone(),
            mac: data.mac_address().0,
            bytes_in: data.total_received(),
            bytes_out: data.total_transmitted(),
            errors_in: data.total_errors_on_received(),
            errors_out: data.total_errors_on_transmitted(),
        });
    }
    r
}

/// Relies on sysinfo::Disks::list and the sysinfo::Disk accessors
/// mount_point, name, kind, total_space and available_space: one entry per
/// listed volume, in list order; paths become strings by lossy UTF-8
/// conversion, and any unrecognized disk technology counts as `Unknown`.
#[verifier::external_body]
fn disk_entries(disks: &sysinfo::Disks) -> (r: Vec<DiskEntry>)
    ensures
        r@.map_values(|e: DiskEntry| e@) == disks_contents(*disks),
{
    let mut r = Vec::new();
    for d in disks.list() {
        let kind = match d.kind() {
            sysinfo::DiskKind::HDD => crate::si::DiskKind::Hdd,
            sysinfo::DiskKind::SSD => crate::si::DiskKind::Ssd,
            sysinfo::DiskKind::Unknown(_) => crate::si::DiskKind::Unknown,
        };
        r.push(DiskEntry {
            mount_point: d.mount_point().to_string_lossy().to_string(),
            device: d.name().to_string_lossy().to_string(),
            kind,
            total: d.total_space(), available: d.available_space(),
        });
    }
    r
}

/// Relies on sysinfo::System::global_cpu_info and sysinfo::Cpu::cpu_usage:
/// the global CPU usage percentage cached in the handle — a function of the
/// handle value alone — carried verbatim as its IEEE-754 bit pattern.
#[verifier::external_body]
fn global_cpu_usage_bits(system: &sysinfo::System) -> (r: u32)
    ensures
        r == sys_cpu_usage_bits(*system),
{
    system.global_cpu_info().cpu_usage().to_bits()
}

/// Relies on sysinfo::System::load_average: the 1-, 5- and 15-minute load
/// averages, carried verbatim as their IEEE-754 bit patterns.
#[verifier::external_body]
fn load_average_bits() -> (u64, u64, u64) {
    let la = sysinfo::System::load_average();
    (la.one.to_bits(), la.five.to_bits(), la.fifteen.to_bits())
}

#[verifier::external_type_specification]
#[verifier::external_body]
pub struct ExSystemTime(std::time::SystemTime);

#[verifier::external_type_specification]
#[verifier::external_body]
pub struct ExSystemTimeError(std::time::SystemTimeError);

/// Relies on std::time::SystemTime::now: the wall clock now.
pub assume_specification[ std::time::SystemTime::now ]() -> std::time::SystemTime;

/// Relies on std::time::SystemTime::duration_since: the span from `earlier`
/// to this time, or an error when this time does not lie after `earlier`.
pub assume_specification[ std::time::SystemTime::duration_since ](
    t: &std::time::SystemTime,
    earlier: std::time::SystemTime,
) -> Result<core::time::Duration, std::time::SystemTimeError>;

/// Relies on core::time::Duration::as_secs: the span in whole seconds.
pub assume_specification[ core::time::Duration::as_secs ](
    d: &core::time::Duration,
) -> u64;

/// Relies on std::time::SystemTime::UNIX_EPOCH: the instant the snapshot
/// timestamps count from.
#[verifier::external_body]
fn unix_epoch() -> std::time::SystemTime {
    std::time::SystemTime::UNIX_EPOCH
}

/// The wall clock now, as whole seconds since the Unix epoch; zero should
/// the clock stand before the epoch.
pub(crate) fn unix_timestamp_secs() -> u64 {
    let now = std::time::SystemTime::now();
    match now.duration_since(unix_epoch()) {
        Ok(d) => d.as_secs(),
        Err(_) => 0,
    }
}

fn option_or_empty(o: Option<String>) -> (r: String)
    ensures
        r@ == (match o {
            Some(s) => s@,
            None => Seq::<char>::empty(),
        }),
{
    match o {
        Some(s) => s,
        None => String::new(),
    }
}

/// The provider: owns the mutable handles needed to re-read system, network
/// and disk facts. Callers must serialize access.
pub struct HostMetrics {
    pub system: sysinfo::System,
    pub networks: sysinfo::Networks,
    pub disks: sysinfo::Disks,
}

impl HostMetrics {
    /// A ready provider, with system, network and disk facts refreshed once.
    pub fn new() -> Self {
        let mut system = sysinfo::System::new_all();
        system.refresh_all();
        let networks = sysinfo::Networks::new_with_refreshed_list();
        let disks = sysinfo::Disks::new_with_refreshed_list();
        HostMetrics { system, networks, disks }
    }

    /// Read-only view of the system facts handle.
    pub fn system(&self) -> (r: &sysinfo::System)
        ensures
            r == &self.system,
    {
        &self.system
    }

    /// Read-only view of the interface table.
    pub fn networks(&self) -> (r: &sysinfo::Networks)
        ensures
            r == &self.networks,
    {
        &self.networks
    }

    /// Read-only view of the volume table.
    pub fn disks(&self) -> (r: &sysinfo::Disks)
        ensures
            r == &self.disks,
    {
        &self.disks
    }

    /// Re-read system, network and disk facts in place, overwriting prior
    /// values.
    pub fn refresh(&mut self) {
        self.system.refresh_all();
        self.networks.refresh();
        self.disks.refresh();
    }

    /// One copy of the global system facts. The memory, swap, CPU-count
    /// and CPU-usage gauges are the readings cached in this provider's
    /// system handle; the remaining fields come from the platform's global
    /// facilities, and a category the platform cannot report becomes an
    /// empty string or zero rather than a failure.
    pub fn system_facts(&self) -> (r: SystemFacts)
        ensures
            r.total_memory == sys_total_memory(self.system),
            r.used_memory == sys_used_memory(self.system),
            r.total_swap == sys_total_swap(self.system),
            r.used_swap == sys_used_swap(self.system),
            r.num_cpus == sys_num_cpus(self.system),
            r.cpu_usage_bits == sys_cpu_usage_bits(self.system),
    {
        SystemFacts {
            system_name: option_or_empty(sysinfo::System::name()),
            hostname: option_or_empty(sysinfo::System::host_name()),
            kernel_version: option_or_empty(sysinfo::System::kernel_version()),
            os_version: option_or_empty(sysinfo::System::os_version()),
            uptime: sysinfo::System::uptime(),
            total_memory: self.system.total_memory(),
            used_memory: self.system.used_memory(),
            total_swap: self.system.total_swap(),
            used_swap: self.system.used_swap(),
            num_cpus: self.system.cpus().len(),
            cpu_usage_bits: global_cpu_usage_bits(&self.system),
            load_average_bits: load_average_bits(),
        }
    }

    /// The interface table as plain entries, in no promised order.
    pub fn network_entries(&self) -> (r: Vec<NetEntry>)
        ensures
            r@.map_values(|e: NetEntry| e@).to_multiset() == networks_contents(self.networks),
    {
        network_entries(&self.networks)
    }

    /// The volume table as plain entries, in the platform's list order.
    pub fn disk_entries(&self) -> (r: Vec<DiskEntry>)
        ensures
            r@.map_values(|e: DiskEntry| e@) == disks_contents(self.disks),
    {
        disk_entries(&self.disks)
    }
}

/// A ready provider; expensive open-file accounting is disabled first to
/// keep refreshes cheap.
pub fn init() -> HostMetrics {
    sysinfo::set_open_files_limit(0);
    HostMetrics::new()
}

} // verus!
