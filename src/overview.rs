use crate::metrics::{
    host_name, kernel_version, new_system, os_name, os_version, refresh_cpu, refresh_memory,
    uptime,
};
use crate::text::or_not_available;
use vstd::prelude::*;

verus! {

/// What the overview has cached: the system summary and the provider it samples.
pub struct OverviewInfo {
    pub os: Seq<char>,
    pub os_version: Seq<char>,
    pub kernel_version: Seq<char>,
    pub host_name: Seq<char>,
    pub uptime: u64,
    pub cpu_load: usize,
    pub memory_total: u64,
    pub memory_used: u64,
    pub disk_space_total: u64,
    pub disk_space_used: u64,
    pub process_count: u64,
    pub network_status: Seq<char>,
    pub network_sent: u64,
    pub network_received: u64,
    pub system: sysinfo::System,
}

/// The overview tab: operating system, host, CPU, memory, disk and network summary.
pub struct Overview {
    system_info: sysinfo::System,
    os: String,
    os_version: String,
    kernel_version: String,
    host_name: String,
    uptime: u64,
    cpu_load: usize,
    memory_total: u64,
    memory_used: u64,
    disk_space_total: u64,
    disk_space_used: u64,
    process_count: u64,
    network_status: String,
    network_sent: u64,
    network_received: u64,
}

impl View for Overview {
    type V = OverviewInfo;

    closed spec fn view(&self) -> OverviewInfo {
        OverviewInfo {
            os: self.os@,
            os_version: self.os_version@,
            kernel_version: self.kernel_version@,
            host_name: self.host_name@,
            uptime: self.uptime,
            cpu_load: self.cpu_load,
            memory_total: self.memory_total,
            memory_used: self.memory_used,
            disk_space_total: self.disk_space_total,
            disk_space_used: self.disk_space_used,
            process_count: self.process_count,
            network_status: self.network_status@,
            network_sent: self.network_sent,
            network_received: self.network_received,
            system: self.system_info,
        }
    }
}

impl Overview {
    /// A summary of this machine: the names the provider knows, "N/A" for
    /// those it does not, and every count at zero until it is set.
    pub fn new() -> (r: Self)
        ensures
            r@.uptime == 0,
            r@.cpu_load == 0,
            r@.memory_total == 0,
            r@.memory_used == 0,
            r@.disk_space_total == 0,
            r@.disk_space_used == 0,
            r@.process_count == 0,
            r@.network_status.len() == 0,
            r@.network_sent == 0,
            r@.network_received == 0,
    {
        let system_info = new_system();
        let os = or_not_available(os_name(&system_info));
        let os_version = or_not_available(os_version(&system_info));
        let kernel_version = or_not_available(kernel_version(&system_info));
        let host_name = or_not_available(host_name(&system_info));
        Overview {
            system_info,
            os,
            os_version,
            kernel_version,
            host_name,
            uptime: 0,
            cpu_load: 0,
            memory_total: 0,
            memory_used: 0,
            disk_space_total: 0,
            disk_space_used: 0,
            process_count: 0,
            network_status: String::new(),
            network_sent: 0,
            network_received: 0,
        }
    }

    /// The provider whose samples the overview shows.
    pub fn system(&self) -> (r: &sysinfo::System)
        ensures
            *r == self@.system,
    {
        &self.system_info
    }

    pub fn get_os(&self) -> (r: &String)
        ensures
            r@ == self@.os,
    {
        &self.os
    }

    pub fn get_os_version(&self) -> (r: &String)
        ensures
            r@ == self@.os_version,
    {
        &self.os_version
    }

    pub fn get_kernel_version(&self) -> (r: &String)
        ensures
            r@ == self@.kernel_version,
    {
        &self.kernel_version
    }

    pub fn get_host_name(&self) -> (r: &String)
        ensures
            r@ == self@.host_name,
    {
        &self.host_name
    }

    pub fn get_uptime(&self) -> (r: u64)
        ensures
            r == self@.uptime,
    {
        self.uptime
    }

    /// Samples CPU usage and memory again and caches the uptime; the rest of
    /// the cached summary stays as it is.
    pub fn tick(&mut self)
        ensures
            final(self)@ == (OverviewInfo {
                system: final(self)@.system,
                uptime: final(self)@.uptime,
                ..old(self)@
            }),
    {
        refresh_cpu(&mut self.system_info);
        refresh_memory(&mut self.system_info);
        let seconds = uptime(&self.system_info);
        self.uptime = seconds;
    }

    /// Samples CPU usage again; the cached summary stays as it is.
    pub fn update(&mut self)
        ensures
            final(self)@ == (OverviewInfo { system: final(self)@.system, ..old(self)@ }),
    {
        refresh_cpu(&mut self.system_info);
    }

    pub fn os(self, os_string: String) -> (r: Self)
        ensures
            r@ == (OverviewInfo { os: os_string@, ..self@ }),
    {
        let mut s = self;
        s.os = os_string;
        s
    }

    pub fn os_version(self, os_version: String) -> (r: Self)
        ensures
            r@ == (OverviewInfo { os_version: os_version@, ..self@ }),
    {
        let mut s = self;
        s.os_version = os_version;
        s
    }

    pub fn kernel_version(self, kernel_version: String) -> (r: Self)
        ensures
            r@ == (OverviewInfo { kernel_version: kernel_version@, ..self@ }),
    {
        let mut s = self;
        s.kernel_version = kernel_version;
        s
    }

    pub fn host_name(self, host_name: String) -> (r: Self)
        ensures
            r@ == (OverviewInfo { host_name: host_name@, ..self@ }),
    {
        let mut s = self;
        s.host_name = host_name;
        s
    }

    pub fn uptime(self, uptime: u64) -> (r: Self)
        ensures
            r@ == (OverviewInfo { uptime: uptime, ..self@ }),
    {
        let mut s = self;
        s.uptime = uptime;
        s
    }

    pub fn cpu_load(self, cpu_load: usize) -> (r: Self)
        ensures
            r@ == (OverviewInfo { cpu_load: cpu_load, ..self@ }),
    {
        let mut s = self;
        s.cpu_load = cpu_load;
        s
    }

    pub fn memory_total(self, memory_total: u64) -> (r: Self)
        ensures
            r@ == (OverviewInfo { memory_total: memory_total, ..self@ }),
    {
        let mut s = self;
        s.memory_total = memory_total;
        s
    }

    pub fn memory_used(self, memory_used: u64) -> (r: Self)
        ensures
            r@ == (OverviewInfo { memory_used: memory_used, ..self@ }),
    {
        let mut s = self;
        s.memory_used = memory_used;
        s
    }

    pub fn disk_space_total(self, disk_space_total: u64) -> (r: Self)
        ensures
            r@ == (OverviewInfo { disk_space_total: disk_space_total, ..self@ }),
    {
        let mut s = self;
        s.disk_space_total = disk_space_total;
        s
    }

    pub fn disk_space_used(self, disk_space_used: u64) -> (r: Self)
        ensures
            r@ == (OverviewInfo { disk_space_used: disk_space_used, ..self@ }),
    {
        let mut s = self;
        s.disk_space_used = disk_space_used;
        s
    }

    pub fn process_count(self, process_count: u64) -> (r: Self)
        ensures
            r@ == (OverviewInfo { process_count: process_count, ..self@ }),
    {
        let mut s = self;
        s.process_count = process_count;
        s
    }

    pub fn network_status(self, network_status: String) -> (r: Self)
        ensures
            r@ == (OverviewInfo { network_status: network_status@, ..self@ }),
    {
        let mut s = self;
        s.network_status = network_status;
        s
    }

    pub fn network_sent(self, network_sent: u64) -> (r: Self)
        ensures
            r@ == (OverviewInfo { network_sent: network_sent, ..self@ }),
    {
        let mut s = self;
        s.network_sent = network_sent;
        s
    }

    pub fn network_received(self, network_received: u64) -> (r: Self)
        ensures
            r@ == (OverviewInfo { network_received: network_received, ..self@ }),
    {
        let mut s = self;
        s.network_received = network_received;
        s
    }
}

} // verus!
