//! Asynchronous use of the key-value store.
//!
//! An asynchronous flash controller answers a request it cannot serve yet
//! with one of the `*NotReady` errors, finishes the flash work in the
//! background, and expects the same request again once it is ready. This
//! wrapper keeps the state such a retry needs: initialisation remembers how
//! far it came so `continue_initalise` resumes rather than restarts, and a
//! suspended key operation is remembered -- with the key's hash -- so that
//! `continue_operation` re-runs exactly the operation that was interrupted.

use vstd::prelude::*;
use crate::error_codes::ErrorCode;
use crate::flash_controller::FlashController;
use crate::tickfs::{TickFS, find_object, region_end, build_object, hash_key, main_key, lemma_region_address};
use crate::tickfs::{OBJECT_OVERHEAD, MAX_OBJECT_LENGTH};

verus! {

/// How far initialisation has come.
#[derive(Copy, Clone, PartialEq, Eq, Structural, Debug)]
pub enum InitPhase {
    /// Looking for the store marker in its home region.
    CheckMain,
    /// Erasing fresh flash; the payload is the next region to erase.
    Erase(usize),
    /// Writing the store marker.
    WriteMain,
    /// Initialisation finished.
    Done,
}

/// A key operation that was interrupted by a not-ready flash, with the
/// key hash it was started for.
#[derive(Copy, Clone, PartialEq, Eq, Structural, Debug)]
pub enum PendingOp {
    Append(u64),
    Get(u64),
    Invalidate(u64),
}

/// Whether an error reports flash work that merely has not finished yet.
fn is_not_ready(e: &ErrorCode) -> (r: bool)
    ensures
        r == (e is ReadNotReady || e is WriteNotReady || e is EraseNotReady),
{
    match e {
        ErrorCode::ReadNotReady(_) => true,
        ErrorCode::WriteNotReady(_) => true,
        ErrorCode::EraseNotReady(_) => true,
        _ => false,
    }
}

/// The key-value store driven through an asynchronous flash controller.
pub struct AsyncTickFS<C: FlashController> {
    /// The underlying store.
    pub tickfs: TickFS<C>,
    /// How far initialisation has come.
    pub init_phase: InitPhase,
    /// The suspended key operation, if any.
    pub pending: Option<PendingOp>,
}

impl<C: FlashController> AsyncTickFS<C> {
    /// The wrapped store's geometry is consistent.
    pub open spec fn wf(self) -> bool {
        self.tickfs.wf()
    }

    /// Creates the store without touching the flash; `initalise` starts the
    /// flash work. The geometry checks and errors are those of
    /// `TickFS::new`.
    pub fn new(controller: C, read_buf: Vec<u8>, flash_size: usize, region_size: usize) -> (r:
        Result<AsyncTickFS<C>, ErrorCode>)
        ensures
            (r matches Ok(t) ==> t.wf() && t.tickfs.flash_size == flash_size
                && t.tickfs.region_size == region_size),
    {
        if region_size < OBJECT_OVERHEAD || region_size > MAX_OBJECT_LENGTH {
            return Err(ErrorCode::CorruptData);
        }
        if read_buf.len() != region_size {
            return Err(ErrorCode::BufferTooSmall);
        }
        let num_regions = flash_size / region_size;
        if num_regions == 0 {
            return Err(ErrorCode::CorruptData);
        }
        proof {
            vstd::arithmetic::div_mod::lemma_fundamental_div_mod(flash_size as int,
                region_size as int);
            vstd::arithmetic::div_mod::lemma_mod_bound(flash_size as int, region_size as int);
            let q = flash_size as int / region_size as int;
            assert(flash_size as int == region_size as int * q + flash_size as int % region_size
                as int);
            assert(num_regions * region_size == region_size as int * q) by (nonlinear_arith)
                requires
                    num_regions == q,
            ;
        }
        Ok(AsyncTickFS {
            tickfs: TickFS { controller, flash_size, region_size, num_regions, read_buf },
            init_phase: InitPhase::CheckMain,
            pending: None,
        })
    }

    /// Starts (or finishes) initialisation: looks for the store marker and,
    /// on fresh flash, erases every region once and writes the marker. A
    /// `*NotReady` error suspends the work where it stands; call
    /// `continue_initalise` to resume.
    pub fn initalise(&mut self) -> (r: Result<(), ErrorCode>)
        requires
            old(self).wf(),
        ensures
            final(self).wf(),
            final(self).tickfs.flash_size == old(self).tickfs.flash_size,
            final(self).tickfs.region_size == old(self).tickfs.region_size,
            final(self).tickfs.num_regions == old(self).tickfs.num_regions,
    {
        self.drive_initialise()
    }

    /// Resumes a suspended initialisation from where it stopped.
    pub fn continue_initalise(&mut self) -> (r: Result<(), ErrorCode>)
        requires
            old(self).wf(),
        ensures
            final(self).wf(),
            final(self).tickfs.flash_size == old(self).tickfs.flash_size,
            final(self).tickfs.region_size == old(self).tickfs.region_size,
            final(self).tickfs.num_regions == old(self).tickfs.num_regions,
    {
        self.drive_initialise()
    }

    /// Runs initialisation from the recorded phase until it completes or the
    /// flash reports not-ready.
    fn drive_initialise(&mut self) -> (r: Result<(), ErrorCode>)
        requires
            old(self).wf(),
        ensures
            final(self).wf(),
            final(self).tickfs.flash_size == old(self).tickfs.flash_size,
            final(self).tickfs.region_size == old(self).tickfs.region_size,
            final(self).tickfs.num_regions == old(self).tickfs.num_regions,
    {
        let key = main_key();
        let hash = hash_key(key.as_slice());
        let main_region = (hash % (self.tickfs.num_regions as u64)) as usize;

        if self.init_phase == InitPhase::Done {
            return Ok(());
        }

        if self.init_phase == InitPhase::CheckMain {
            match self.tickfs.controller.read_region(main_region, 0, &mut self.tickfs.read_buf) {
                Ok(()) => {}
                Err(e) => {
                    return Err(e);
                }
            }
            match find_object(&self.tickfs.read_buf, hash) {
                Some(_) => {
                    self.init_phase = InitPhase::Done;
                    return Ok(());
                }
                None => {
                    self.init_phase = InitPhase::Erase(0);
                }
            }
        }

        let next = match self.init_phase {
            InitPhase::Erase(next) => next,
            _ => self.tickfs.num_regions,
        };
        let mut region: usize = next;
        while region < self.tickfs.num_regions
            invariant
                self.wf(),
                self.tickfs.flash_size == old(self).tickfs.flash_size,
                self.tickfs.region_size == old(self).tickfs.region_size,
                self.tickfs.num_regions == old(self).tickfs.num_regions,
            decreases self.tickfs.num_regions - region,
        {
            match self.tickfs.controller.erase_region(region) {
                Ok(()) => {}
                Err(e) => {
                    // Resume with this region next time.
                    self.init_phase = InitPhase::Erase(region);
                    return Err(e);
                }
            }
            region += 1;
        }
        match self.init_phase {
            InitPhase::Erase(_) => {
                self.init_phase = InitPhase::WriteMain;
            }
            _ => {}
        }

        // Write the marker object into its home region.
        match self.tickfs.controller.read_region(main_region, 0, &mut self.tickfs.read_buf) {
            Ok(()) => {}
            Err(e) => {
                return Err(e);
            }
        }
        let end = region_end(&self.tickfs.read_buf);
        if self.tickfs.region_size - end < OBJECT_OVERHEAD {
            return Err(ErrorCode::RegionFull);
        }
        let empty: Vec<u8> = Vec::new();
        let object = build_object(hash, empty.as_slice());
        proof {
            lemma_region_address(main_region as int, self.tickfs.num_regions as int,
                self.tickfs.region_size as int, self.tickfs.flash_size as int, end as int);
        }
        let address = main_region * self.tickfs.region_size + end;
        match self.tickfs.controller.write(address, object.as_slice()) {
            Ok(()) => {
                self.init_phase = InitPhase::Done;
                Ok(())
            }
            Err(e) => Err(e),
        }
    }

    /// Stores `value` under `key`; the semantics and errors of
    /// `TickFS::append_key`. A `*NotReady` error suspends the operation
    /// for `continue_operation`.
    pub fn append_key(&mut self, key: &[u8], value: &[u8]) -> (r: Result<(), ErrorCode>)
        requires
            old(self).wf(),
        ensures
            final(self).wf(),
            final(self).tickfs.flash_size == old(self).tickfs.flash_size,
            final(self).tickfs.region_size == old(self).tickfs.region_size,
            final(self).tickfs.num_regions == old(self).tickfs.num_regions,
    {
        let hash = hash_key(key);
        self.pending = Some(PendingOp::Append(hash));
        let r = self.tickfs.append_hashed(hash, value);
        self.settle(r)
    }

    /// Retrieves the value stored under `key` into the front of `buf`; the
    /// semantics and errors of `TickFS::get_key`. A `*NotReady` error
    /// suspends the operation for `continue_operation`.
    pub fn get_key(&mut self, key: &[u8], buf: &mut Vec<u8>) -> (r: Result<(), ErrorCode>)
        requires
            old(self).wf(),
        ensures
            final(self).wf(),
            final(self).tickfs.flash_size == old(self).tickfs.flash_size,
            final(self).tickfs.region_size == old(self).tickfs.region_size,
            final(self).tickfs.num_regions == old(self).tickfs.num_regions,
            final(buf)@.len() == old(buf)@.len(),
    {
        let hash = hash_key(key);
        self.pending = Some(PendingOp::Get(hash));
        let r = self.tickfs.get_hashed(hash, buf);
        self.settle(r)
    }

    /// Marks the object stored under `key` as deleted; the semantics and
    /// errors of `TickFS::invalidate_key`. A `*NotReady` error suspends the
    /// operation for `continue_operation`.
    pub fn invalidate_key(&mut self, key: &[u8]) -> (r: Result<(), ErrorCode>)
        requires
            old(self).wf(),
        ensures
            final(self).wf(),
            final(self).tickfs.flash_size == old(self).tickfs.flash_size,
            final(self).tickfs.region_size == old(self).tickfs.region_size,
            final(self).tickfs.num_regions == old(self).tickfs.num_regions,
    {
        let hash = hash_key(key);
        self.pending = Some(PendingOp::Invalidate(hash));
        let r = self.tickfs.invalidate_hashed(hash);
        self.settle(r)
    }

    /// Reclaims dead regions; the semantics of `TickFS::garbage_collect`.
    /// A `*NotReady` error is returned as-is: the caller retries by calling
    /// this function again.
    pub fn garbage_collect(&mut self) -> (r: Result<usize, ErrorCode>)
        requires
            old(self).wf(),
        ensures
            final(self).wf(),
            final(self).tickfs.flash_size == old(self).tickfs.flash_size,
            final(self).tickfs.region_size == old(self).tickfs.region_size,
            final(self).tickfs.num_regions == old(self).tickfs.num_regions,
    {
        self.tickfs.garbage_collect()
    }

    /// Re-runs the suspended key operation now that the flash is ready. The
    /// operation and the key hash come from the suspension; `value` must be
    /// given again for an append and `buf` for a retrieval, as on the
    /// original call. Without a suspended operation the store state is
    /// reported corrupt.
    pub fn continue_operation(&mut self, _key: Option<&[u8]>, value: Option<&[u8]>, buf: Option<
        &mut Vec<u8>,
    >) -> (r: Result<(), ErrorCode>)
        requires
            old(self).wf(),
        ensures
            final(self).wf(),
            final(self).tickfs.flash_size == old(self).tickfs.flash_size,
            final(self).tickfs.region_size == old(self).tickfs.region_size,
            final(self).tickfs.num_regions == old(self).tickfs.num_regions,
    {
        let op = match self.pending {
            Some(op) => op,
            None => {
                return Err(ErrorCode::CorruptData);
            }
        };
        let r = match op {
            PendingOp::Append(hash) => {
                match value {
                    Some(value) => self.tickfs.append_hashed(hash, value),
                    None => Err(ErrorCode::CorruptData),
                }
            }
            PendingOp::Get(hash) => {
                match buf {
                    Some(buf) => self.tickfs.get_hashed(hash, buf),
                    None => Err(ErrorCode::CorruptData),
                }
            }
            PendingOp::Invalidate(hash) => self.tickfs.invalidate_hashed(hash),
        };
        self.settle(r)
    }

    /// Clears the suspension unless the operation is still waiting on the
    /// flash.
    fn settle(&mut self, r: Result<(), ErrorCode>) -> (out: Result<(), ErrorCode>)
        ensures
            out == r,
            final(self).tickfs == old(self).tickfs,
    {
        let keep = match &r {
            Err(e) => is_not_ready(e),
            Ok(()) => false,
        };
        if !keep {
            self.pending = None;
        }
        r
    }
}

} // verus!
