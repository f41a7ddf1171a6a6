use crate::metrics::{core_usages, cpu_brand};
use vstd::prelude::*;

verus! {

/// What the CPU view has cached from the provider.
pub struct CpuSnapshot {
    pub brand: Seq<char>,
    pub usages: Seq<u64>,
}

/// The CPU tab: the processor's brand and the usage of each core, as last sampled.
pub struct Cpuview {
    cpu_brand: String,
    core_usages: Vec<u64>,
}

impl View for Cpuview {
    type V = CpuSnapshot;

    closed spec fn view(&self) -> CpuSnapshot {
        CpuSnapshot { brand: self.cpu_brand@, usages: self.core_usages@ }
    }
}

impl Cpuview {
    /// A view that has sampled nothing yet.
    pub fn new() -> (r: Self)
        ensures
            r@.brand.len() == 0,
            r@.usages.len() == 0,
    {
        Cpuview { cpu_brand: String::new(), core_usages: Vec::new() }
    }

    /// Caches the brand and the per-core usage that `system` last sampled.
    pub fn update(&mut self, system: &sysinfo::System) {
        let brand = cpu_brand(system);
        let usages = core_usages(system);
        self.set_sample(brand, usages);
    }

    /// Replaces the cached sample by `brand` and the per-core `usages`.
    pub fn set_sample(&mut self, brand: String, usages: Vec<u64>)
        ensures
            final(self)@ == (CpuSnapshot { brand: brand@, usages: usages@ }),
    {
        self.cpu_brand = brand;
        self.core_usages = usages;
    }

    pub fn cpu_brand(&self) -> (r: &String)
        ensures
            r@ == self@.brand,
    {
        &self.cpu_brand
    }

    /// Usage of each core, in whole percent.
    pub fn core_usages(&self) -> (r: &Vec<u64>)
        ensures
            r@ == self@.usages,
    {
        &self.core_usages
    }
}

} // verus!
