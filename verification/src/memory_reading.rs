//! One reading of the machine's physical memory. A value of
//! [`MachineMemoryReading`] is only ever made by reading the machine, so
//! whatever holds one holds what the machine reported at that moment.

use vstd::prelude::*;
use sysinfo::System;

verus! {

/// Total and available physical memory in bytes, as the machine reported
/// them in one reading.
#[derive(Clone, Copy, Debug, PartialEq, Eq)]
pub struct MachineMemoryReading {
    total_bytes: u64,
    available_bytes: u64,
}

impl MachineMemoryReading {
    /// The total physical memory reported, in bytes.
    pub closed spec fn spec_total_bytes(&self) -> u64 {
        self.total_bytes
    }

    /// The available physical memory reported, in bytes.
    pub closed spec fn spec_available_bytes(&self) -> u64 {
        self.available_bytes
    }

    /// The total physical memory reported, in bytes.
    pub fn total_bytes(&self) -> (r: u64)
        ensures
            r == self.spec_total_bytes(),
    {
        self.total_bytes
    }

    /// The available physical memory reported, in bytes.
    pub fn available_bytes(&self) -> (r: u64)
        ensures
            r == self.spec_available_bytes(),
    {
        self.available_bytes
    }
}

/// Total and available physical memory in bytes, from `sysinfo::System`
/// (`System::new`, `refresh_memory`, `total_memory`, `available_memory`);
/// zeros when `System::new` fails. Nothing is promised of the values: they
/// are whatever the operating system reports at the time of the call.
#[verifier::external_body]
pub(crate) fn read_system_memory_bytes() -> (r: MachineMemoryReading) {
    match System::new() {
        Ok(mut system) => {
            system.refresh_memory();
            MachineMemoryReading { total_bytes: system.total_memory(), available_bytes: system.available_memory() }
        },
        Err(_) => MachineMemoryReading { total_bytes: 0, available_bytes: 0 },
    }
}

} // verus!
