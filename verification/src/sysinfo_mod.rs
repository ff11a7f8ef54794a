//! Figures about the local machine.

use vstd::prelude::*;

verus! {

/// The traffic of a network interface since it came up.
#[derive(Debug, Clone)]
pub struct NetworkInfo {
    pub interface: String,
    pub received_bytes: u64,
    pub transmitted_bytes: u64,
}

/// A number of bytes in whole mebibytes, rounded down.
pub fn mebibytes(bytes: u64) -> (r: u64)
    ensures
        r == bytes / 1048576u64,
{
    bytes / (1024 * 1024)
}

} // verus!
