//! Static configuration handed to the execution engine at spawn time; the
//! supervision core only carries it, never interprets it.

use vstd::prelude::*;

verus! {

use vstd::string::StringExecFns;

/// Resource ceilings and the allow-list of callable namespace prefixes for
/// the processes of one environment.
pub struct EnvConfig {
    /// Maximum amount of memory a process may use, in bytes.
    max_memory: u64,
    /// Maximum amount of compute, expressed in units of fuel; `None` leaves
    /// the computation unmetered.
    max_fuel: Option<u32>,
    /// Namespace prefixes whose host calls the processes may reach.
    allowed_namespaces: Vec<String>,
}

impl EnvConfig {
    /// The memory ceiling, in bytes.
    pub closed spec fn spec_max_memory(&self) -> u64 {
        self.max_memory
    }

    /// The fuel ceiling, if any.
    pub closed spec fn spec_max_fuel(&self) -> Option<u32> {
        self.max_fuel
    }

    /// The allow-list of namespace prefixes, in insertion order.
    pub closed spec fn spec_namespaces(&self) -> Seq<String> {
        self.allowed_namespaces@
    }

    /// A configuration with the given ceilings and an empty allow-list.
    pub fn new(max_memory: u64, max_fuel: Option<u32>) -> (r: EnvConfig)
        ensures
            r.spec_max_memory() == max_memory,
            r.spec_max_fuel() == max_fuel,
            r.spec_namespaces() =~= Seq::<String>::empty(),
    {
        EnvConfig { max_memory, max_fuel, allowed_namespaces: Vec::new() }
    }

    /// The memory ceiling, in bytes.
    pub fn max_memory(&self) -> (r: u64)
        ensures
            r == self.spec_max_memory(),
    {
        self.max_memory
    }

    /// The fuel ceiling, if the computation is metered.
    pub fn max_fuel(&self) -> (r: Option<u32>)
        ensures
            r == self.spec_max_fuel(),
    {
        self.max_fuel
    }

    /// The namespace prefixes allowed so far, in the order they were added.
    pub fn allowed_namespace(&self) -> (r: &Vec<String>)
        ensures
            r@ == self.spec_namespaces(),
    {
        &self.allowed_namespaces
    }

    /// Appends one namespace prefix to the allow-list.
    pub fn allow_namespace(&mut self, namespace: String)
        ensures
            final(self).spec_max_memory() == old(self).spec_max_memory(),
            final(self).spec_max_fuel() == old(self).spec_max_fuel(),
            final(self).spec_namespaces() == old(self).spec_namespaces().push(namespace),
    {
        self.allowed_namespaces.push(namespace)
    }
}

impl Default for EnvConfig {
    /// One gibibyte of memory, unmetered fuel, and the runtime's own
    /// namespace plus the WASI-compatible namespace allowed.
    fn default() -> (r: EnvConfig)
        ensures
            r.spec_max_memory() == 0x40000000u64,
            r.spec_max_fuel() is None,
            r.spec_namespaces().len() == 2,
            r.spec_namespaces()[0]@ == "lunatic::"@,
            r.spec_namespaces()[1]@ == "wasi_snapshot_preview1::"@,
    {
        let mut allowed_namespaces: Vec<String> = Vec::new();
        allowed_namespaces.push(String::from_str("lunatic::"));
        allowed_namespaces.push(String::from_str("wasi_snapshot_preview1::"));
        EnvConfig { max_memory: 0x40000000, max_fuel: None, allowed_namespaces }
    }
}

} // verus!
