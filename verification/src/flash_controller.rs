//! Interface the key-value store drives its flash hardware through.

use vstd::prelude::*;
use crate::error_codes::ErrorCode;

verus! {

/// The flash operations the key-value store relies on; implemented by the
/// platform. A region is the smallest erasable unit. The store is written
/// for any implementation that fills the given buffer on `read_region` and
/// keeps its length; an asynchronous implementation may answer any call with
/// the matching `*NotReady` error and complete it in the background, in
/// which case the store reports that error to its caller for a later retry.
pub trait FlashController {
    /// Reads `buf.len()` bytes starting at `offset` within flash region
    /// `region_number` into `buf`.
    fn read_region(&self, region_number: usize, offset: usize, buf: &mut Vec<u8>) -> (r: Result<
        (),
        ErrorCode,
    >)
        ensures
            final(buf)@.len() == old(buf)@.len(),
    ;

    /// Writes `buf` to the absolute flash `address`.
    fn write(&self, address: usize, buf: &[u8]) -> (r: Result<(), ErrorCode>);

    /// Erases flash region `region_number` back to its blank state.
    fn erase_region(&self, region_number: usize) -> (r: Result<(), ErrorCode>);
}

} // verus!
