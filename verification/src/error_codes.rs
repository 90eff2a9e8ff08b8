//! Error values of the key-value flash store.

use vstd::prelude::*;

verus! {

/// Failures a key-value store operation can report. The `*NotReady`
/// variants come from an asynchronous flash controller and carry the region
/// whose data is not available yet; the caller retries the operation once
/// the flash is ready.
#[derive(Copy, Clone, PartialEq, Eq, Structural, Debug)]
pub enum ErrorCode {
    /// The store's geometry or stored data is unusable.
    CorruptData,
    /// A stored object's checksum does not match its contents.
    InvalidCheckSum,
    /// No live object with the requested key exists.
    KeyNotFound,
    /// An object with the same key hash already exists.
    KeyAlreadyExists,
    /// The target region cannot take the object.
    RegionFull,
    /// No region can take the object.
    FlashFull,
    /// The flash controller failed to read.
    ReadFail,
    /// The flash controller failed to write.
    WriteFail,
    /// The flash controller failed to erase.
    EraseFail,
    /// The object is larger than a region.
    ObjectTooLarge,
    /// The caller's buffer is too small for the stored value.
    BufferTooSmall,
    /// The read of this region has been started but has not finished yet.
    ReadNotReady(usize),
    /// The write to this region has not finished yet.
    WriteNotReady(usize),
    /// The erase of this region has not finished yet.
    EraseNotReady(usize),
}

} // verus!
