//! Disk capacity as reported once at startup: name, file system and the
//! raw byte counters, with the derived used-space percentage.

use vstd::prelude::*;

verus! {

/// How full a disk is, as a whole percentage in `0..=100`.
///
/// A zero-capacity disk is defined to be 0% used rather than a division
/// by zero, and a disk that somehow reports more available than total
/// space is also 0% used.
pub open spec fn spec_percent_used(total: u64, available: u64) -> u64 {
    if total == 0 || available >= total {
        0
    } else {
        (((total - available) * 100) / (total as int)) as u64
    }
}

/// One disk's capacity snapshot. Disks are enumerated once at startup;
/// capacity changes rarely enough that a single snapshot suffices.
#[derive(Debug, Clone, PartialEq)]
pub struct Disk {
    pub name: String,
    pub file_system: String,
    pub total_space: u64,
    pub available_space: u64,
}

impl Disk {
    pub fn new(name: String, file_system: String, total_space: u64, available_space: u64) -> (d: Disk)
        ensures
            d.name == name,
            d.file_system == file_system,
            d.total_space == total_space,
            d.available_space == available_space,
    {
        Disk { name, file_system, total_space, available_space }
    }

    /// Percentage of this disk's space that is in use, in `0..=100`.
    pub fn percent_used_space(&self) -> (p: u64)
        ensures
            p == spec_percent_used(self.total_space, self.available_space),
            p <= 100,
    {
        if self.total_space == 0 || self.available_space >= self.total_space {
            0
        } else {
            let used: u64 = self.total_space - self.available_space;
            let p128: u128 = (used as u128) * 100 / (self.total_space as u128);
            assert(used * 100 / (self.total_space as int) <= 100) by (nonlinear_arith)
                requires 0 < self.total_space && used <= self.total_space;
            p128 as u64
        }
    }
}

} // verus!
