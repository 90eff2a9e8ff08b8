//! Buffers of application memory passed to the kernel.
//!
//! When a process shares a buffer through the allow syscall, the kernel
//! wraps it in an `AppSlice`, which remembers the owning process and the
//! address the buffer sits at in that process's memory. The role marker
//! records whether the slice is private to the owning process or shared
//! with the kernel.

use vstd::prelude::*;
use crate::pmp::AppId;

verus! {

/// Marker: an `AppSlice` hidden from the kernel.
#[derive(Debug)]
pub struct Private;

/// Marker: an `AppSlice` shared with the kernel.
#[derive(Debug)]
pub struct Shared;

/// The base of a buffer inside an application's memory: its address there
/// and the process it belongs to.
pub struct AppPtr<L, T> {
    /// Address of the buffer within the owning process's memory.
    pub addr: usize,
    /// The process the memory belongs to.
    pub process: AppId,
    /// Role of the buffer (`Private` or `Shared`).
    pub role: core::marker::PhantomData<L>,
    /// Element type of the buffer.
    pub item: core::marker::PhantomData<T>,
}

impl<L, T> AppPtr<L, T> {
    /// A base at `addr` owned by `process`.
    pub fn new(addr: usize, process: AppId) -> (p: AppPtr<L, T>)
        ensures
            p.addr == addr,
            p.process == process,
    {
        AppPtr { addr, process, role: core::marker::PhantomData, item: core::marker::PhantomData }
    }
}

/// Buffer of memory shared from an application to the kernel; created after
/// an allow syscall.
pub struct AppSlice<L, T> {
    /// Where the buffer lives and who owns it.
    pub ptr: AppPtr<L, T>,
    /// The buffer's elements.
    pub data: Vec<T>,
}

impl<L, T> AppSlice<L, T> {
    /// Wraps `data`, which sits at `addr` in the memory of `process`.
    pub fn new(addr: usize, data: Vec<T>, process: AppId) -> (s: AppSlice<L, T>)
        ensures
            s.ptr.addr == addr,
            s.ptr.process == process,
            s.data@ == data@,
    {
        AppSlice { ptr: AppPtr::new(addr, process), data }
    }

    /// Number of elements in the slice.
    pub fn len(&self) -> (n: usize)
        ensures
            n == self.data@.len(),
    {
        self.data.len()
    }

    /// Address of the buffer inside the owning process's memory.
    pub fn ptr(&self) -> (a: usize)
        ensures
            a == self.ptr.addr,
    {
        self.ptr.addr
    }

    /// Borrows the elements for in-place reading and writing.
    pub fn iter_mut(&mut self) -> (r: &mut Vec<T>)
        ensures
            *r == old(self).data,
            final(self).data == *final(r),
            final(self).ptr == old(self).ptr,
    {
        &mut self.data
    }
}

impl<L, T: Copy> AppSlice<L, T> {
    /// A copy of the elements, front to back.
    pub fn iter(&self) -> (v: Vec<T>)
        ensures
            v@ == self.data@,
    {
        let mut v: Vec<T> = Vec::new();
        let mut i: usize = 0;
        while i < self.data.len()
            invariant
                i <= self.data@.len(),
                v@ == self.data@.take(i as int),
            decreases self.data@.len() - i,
        {
            let x = self.data[i];
            v.push(x);
            proof {
                assert(v@ =~= self.data@.take(i + 1));
            }
            i += 1;
        }
        proof {
            assert(self.data@.take(self.data@.len() as int) == self.data@);
        }
        v
    }

    /// The elements cut into chunks of `size`: every chunk is non-empty,
    /// every chunk but the last has exactly `size` elements, and together
    /// they are exactly the slice -- so there are as many chunks as `size`
    /// fits into the length, rounded up.
    pub fn chunks(&self, size: usize) -> (r: Vec<Vec<T>>)
        requires
            size >= 1,
        ensures
            (forall|k: int| 0 <= k < r@.len() ==> 1 <= (#[trigger] r@[k])@.len() <= size),
            (forall|k: int| 0 <= k < r@.len() - 1 ==> (#[trigger] r@[k])@.len() == size),
            r@.map_values(|c: Vec<T>| c@).flatten() == self.data@,
    {
        let mut r: Vec<Vec<T>> = Vec::new();
        let mut i: usize = 0;
        let n = self.data.len();
        while i < n
            invariant
                i <= n,
                n == self.data@.len(),
                size >= 1,
                (forall|k: int| 0 <= k < r@.len() ==> 1 <= (#[trigger] r@[k])@.len() <= size),
                (forall|k: int| 0 <= k < r@.len() - 1 ==> (#[trigger] r@[k])@.len() == size),
                (r@.len() > 0 && i < n ==> r@[r@.len() - 1]@.len() == size),
                r@.map_values(|c: Vec<T>| c@).flatten() == self.data@.take(i as int),
            decreases n - i,
        {
            let take = if n - i < size {
                n - i
            } else {
                size
            };
            let mut chunk: Vec<T> = Vec::new();
            let mut j: usize = 0;
            while j < take
                invariant
                    j <= take,
                    i + take <= n,
                    n == self.data@.len(),
                    chunk@ == self.data@.subrange(i as int, i + j),
                decreases take - j,
            {
                let x = self.data[i + j];
                chunk.push(x);
                proof {
                    assert(chunk@ =~= self.data@.subrange(i as int, i + j + 1));
                }
                j += 1;
            }
            proof {
                let ghost chunks_before = r@.map_values(|c: Vec<T>| c@);
                let ghost chunks_after = r@.push(chunk).map_values(|c: Vec<T>| c@);
                assert(chunks_after =~= chunks_before.push(chunk@));
                chunks_before.lemma_flatten_and_flatten_alt_are_equivalent();
                chunks_after.lemma_flatten_and_flatten_alt_are_equivalent();
                assert(chunks_after.drop_last() =~= chunks_before);
                assert(chunks_after.last() == chunk@);
                assert(chunks_after.flatten_alt() == chunks_before.flatten_alt() + chunk@);
                assert(chunks_before.flatten_alt() + chunk@ =~= self.data@.take(i + take));
            }
            r.push(chunk);
            i += take;
        }
        proof {
            assert(self.data@.take(n as int) == self.data@);
        }
        r
    }

    /// The elements cut into chunks of `size`, for mutation chunk by chunk;
    /// the copies are written back through `iter_mut`.
    pub fn chunks_mut(&mut self, size: usize) -> (r: Vec<Vec<T>>)
        requires
            size >= 1,
        ensures
            *final(self) == *old(self),
            (forall|k: int| 0 <= k < r@.len() ==> 1 <= (#[trigger] r@[k])@.len() <= size),
            (forall|k: int| 0 <= k < r@.len() - 1 ==> (#[trigger] r@[k])@.len() == size),
            r@.map_values(|c: Vec<T>| c@).flatten() == old(self).data@,
    {
        self.chunks(size)
    }
}

} // verus!
