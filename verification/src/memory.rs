//! A trapped guest access to an emulated MMIO region.

use vstd::prelude::*;

verus! {

/// One guest access to an emulated MMIO region, as the trap handler sees it.
/// For a read, the handler stores the value to return in `value`.
pub struct MMIOAccess {
    /// Offset of the access from the start of the emulated region.
    pub address: usize,
    /// Width of the access in bytes.
    pub size: usize,
    pub is_write: bool,
    /// The value written by the guest, or the value the guest reads back.
    pub value: usize,
}

} // verus!
