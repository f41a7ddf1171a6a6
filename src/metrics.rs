//! The system-information provider, as far as the library's logic calls it.
//! What it reports depends on the machine and the moment, so the contracts
//! here promise nothing about the values that come back.

use sysinfo::{CpuExt, ProcessExt, SystemExt, UserExt};
use vstd::prelude::*;

verus! {

#[verifier::external_type_specification]
#[verifier::external_body]
pub struct ExSystem(sysinfo::System);

#[verifier::external_type_specification]
#[verifier::external_body]
pub struct ExUid(sysinfo::Uid);

/// A process as the provider lists it, each value in its display form.
pub struct ProcessRecord {
    pub pid: String,
    pub name: String,
    pub user_id: Option<sysinfo::Uid>,
    pub cpu_usage: String,
    pub memory_usage: String,
    pub status: String,
}

/// Relies on sysinfo's `System::new_all`: a provider with every kind of
/// information loaded once.
#[verifier::external_body]
pub(crate) fn new_system() -> (r: sysinfo::System) {
    sysinfo::System::new_all()
}

/// Relies on sysinfo's `SystemExt::refresh_cpu`: samples the CPU usage again.
#[verifier::external_body]
pub(crate) fn refresh_cpu(system: &mut sysinfo::System) {
    system.refresh_cpu()
}

/// Relies on sysinfo's `SystemExt::refresh_memory`: samples the memory totals again.
#[verifier::external_body]
pub(crate) fn refresh_memory(system: &mut sysinfo::System) {
    system.refresh_memory()
}

/// Relies on sysinfo's `SystemExt::refresh_processes`: lists the processes again.
#[verifier::external_body]
pub(crate) fn refresh_processes(system: &mut sysinfo::System) {
    system.refresh_processes()
}

/// Relies on sysinfo's `SystemExt::name`: the operating system's name, if known.
#[verifier::external_body]
pub(crate) fn os_name(system: &sysinfo::System) -> (r: Option<String>) {
    system.name()
}

/// Relies on sysinfo's `SystemExt::os_version`: the operating system's version, if known.
#[verifier::external_body]
pub(crate) fn os_version(system: &sysinfo::System) -> (r: Option<String>) {
    system.os_version()
}

/// Relies on sysinfo's `SystemExt::kernel_version`: the kernel's version, if known.
#[verifier::external_body]
pub(crate) fn kernel_version(system: &sysinfo::System) -> (r: Option<String>) {
    system.kernel_version()
}

/// Relies on sysinfo's `SystemExt::host_name`: the machine's host name, if known.
#[verifier::external_body]
pub(crate) fn host_name(system: &sysinfo::System) -> (r: Option<String>) {
    system.host_name()
}

/// Relies on sysinfo's `SystemExt::uptime`: seconds since the machine booted.
#[verifier::external_body]
pub(crate) fn uptime(system: &sysinfo::System) -> (r: u64) {
    system.uptime()
}

/// Relies on sysinfo's `CpuExt::brand` of `SystemExt::global_cpu_info`: the CPU's brand.
#[verifier::external_body]
pub(crate) fn cpu_brand(system: &sysinfo::System) -> (r: String) {
    system.global_cpu_info().brand().to_string()
}

/// Relies on sysinfo's `SystemExt::cpus` and `CpuExt::cpu_usage`: the usage of
/// each core, in whole percent.
#[verifier::external_body]
pub(crate) fn core_usages(system: &sysinfo::System) -> (r: Vec<u64>) {
    system.cpus().iter().map(|cpu| cpu.cpu_usage() as u64).collect()
}

/// Relies on sysinfo's `SystemExt::processes`: every process the provider
/// lists, in the order in which its map is walked.
#[verifier::external_body]
pub(crate) fn process_records(system: &sysinfo::System) -> (r: Vec<ProcessRecord>) {
    system.processes().values().map(|p| ProcessRecord {
        pid: p.pid().to_string(),
        name: p.name().to_string(),
        user_id: p.user_id().cloned(),
        cpu_usage: p.cpu_usage().to_string(),
        memory_usage: p.memory().to_string(),
        status: p.status().to_string(),
    }).collect()
}

/// Relies on sysinfo's `SystemExt::get_user_by_id`: the name of the user with
/// that id, or `None` where no such user is known.
#[verifier::external_body]
pub(crate) fn user_name_by_id(system: &sysinfo::System, uid: &sysinfo::Uid) -> (r: Option<String>) {
    system.get_user_by_id(uid).map(|user| user.name().to_string())
}

} // verus!
