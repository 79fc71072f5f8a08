//! What is reported of the machine.

use vstd::prelude::*;

verus! {

/// Bytes in one mebibyte.
pub const MEBIBYTE: u64 = 1048576;

/// The processors and the memory of the machine, memory in whole
/// mebibytes.
#[derive(Debug, Clone, PartialEq, Eq)]
pub struct SystemResources {
    pub cpu_count: usize,
    pub cpu_brand: String,
    pub total_memory: u64,
    pub used_memory: u64,
    pub available_memory: u64,
}

/// Whole mebibytes in `bytes`.
pub fn mebibytes(bytes: u64) -> (whole: u64)
    ensures
        whole == bytes / MEBIBYTE,
{
    bytes / MEBIBYTE
}

impl SystemResources {
    /// The report for the readings of the machine: memory in bytes, and
    /// the brand of the first processor, if there is a processor.
    pub fn from_readings(
        cpu_count: usize,
        first_brand: Option<String>,
        total_bytes: u64,
        used_bytes: u64,
        available_bytes: u64,
    ) -> (report: SystemResources)
        ensures
            report.cpu_count == cpu_count,
            report.cpu_brand@ == match first_brand {
                Some(brand) => brand@,
                None => "Unknown"@,
            },
            report.total_memory == total_bytes / MEBIBYTE,
            report.used_memory == used_bytes / MEBIBYTE,
            report.available_memory == available_bytes / MEBIBYTE,
    {
        let cpu_brand = match first_brand {
            Some(brand) => brand,
            None => "Unknown".to_owned(),
        };
        SystemResources {
            cpu_count,
            cpu_brand,
            total_memory: mebibytes(total_bytes),
            used_memory: mebibytes(used_bytes),
            available_memory: mebibytes(available_bytes),
        }
    }
}

} // verus!
