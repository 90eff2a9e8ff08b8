//! A tiny circular key-value store for flash memory.
//!
//! The flash is divided into regions, the smallest erasable unit. Each
//! stored object lives inside one region and carries a header -- a version
//! byte, a 15-bit length with a live flag in the top bit, and the 64-bit
//! hash of its key -- followed by the value and a 64-bit checksum of
//! everything before it. A key's hash picks its home region; an object is
//! appended to the first region with room, scanning onward from its home
//! region with wrap-around. Deleting clears the live flag in place; space is
//! only reclaimed by garbage collection, which erases regions holding
//! nothing but dead objects.

use vstd::prelude::*;
use crate::error_codes::ErrorCode;
use crate::flash_controller::FlashController;

verus! {

/// On-flash format version written into every object header.
pub const VERSION: u8 = 0;

/// Offset of the version byte within an object.
pub const VERSION_OFFSET: usize = 0;

/// Offset of the flagged big-endian length within an object.
pub const LEN_OFFSET: usize = 1;

/// Offset of the key hash within an object.
pub const HASH_OFFSET: usize = 3;

/// Header bytes before the value: version, flagged length, key hash.
pub const HEADER_LENGTH: usize = 11;

/// Trailing checksum bytes of an object.
pub const CHECK_SUM_LEN: usize = 8;

/// Total overhead of an object around its value.
pub const OBJECT_OVERHEAD: usize = 19;

/// Largest length the 15-bit header field can carry.
pub const MAX_OBJECT_LENGTH: usize = 0x7fff;

/// Offset basis of the 64-bit FNV-1a hash.
pub const FNV_OFFSET_BASIS: u64 = 0xcbf29ce484222325;

/// Prime of the 64-bit FNV-1a hash.
pub const FNV_PRIME: u64 = 0x100000001b3;

/// One FNV-1a step: fold a byte into the running hash.
pub open spec fn fnv_step(h: u64, b: u8) -> u64 {
    ((((h ^ (b as u64)) as nat) * (FNV_PRIME as nat)) % 0x10000000000000000) as u64
}

/// 64-bit FNV-1a hash of a byte sequence.
pub open spec fn fnv1a(bytes: Seq<u8>) -> u64
    decreases bytes.len(),
{
    if bytes.len() == 0 {
        FNV_OFFSET_BASIS
    } else {
        fnv_step(fnv1a(bytes.drop_last()), bytes.last())
    }
}

/// The eight little-endian bytes of `h`.
pub open spec fn le64_seq(h: u64) -> Seq<u8> {
    let q0 = h as nat;
    let q1 = q0 / 256;
    let q2 = q1 / 256;
    let q3 = q2 / 256;
    let q4 = q3 / 256;
    let q5 = q4 / 256;
    let q6 = q5 / 256;
    let q7 = q6 / 256;
    seq![
        (q0 % 256) as u8,
        (q1 % 256) as u8,
        (q2 % 256) as u8,
        (q3 % 256) as u8,
        (q4 % 256) as u8,
        (q5 % 256) as u8,
        (q6 % 256) as u8,
        (q7 % 256) as u8,
    ]
}

/// The value of the eight little-endian bytes at `off`.
pub open spec fn le64_at(s: Seq<u8>, off: int) -> u64 {
    ((s[off] as nat) + 256 * ((s[off + 1] as nat) + 256 * ((s[off + 2] as nat) + 256 * ((s[off + 3] as nat)
        + 256 * ((s[off + 4] as nat) + 256 * ((s[off + 5] as nat) + 256 * ((s[off + 6] as nat) + 256 * (s[off
        + 7] as nat)))))))) as u64
}

/// Executable FNV-1a over `bytes[start..end]`.
pub fn hash_range(bytes: &Vec<u8>, start: usize, end: usize) -> (h: u64)
    requires
        start <= end <= bytes@.len(),
    ensures
        h == fnv1a(bytes@.subrange(start as int, end as int)),
{
    let mut h: u64 = FNV_OFFSET_BASIS;
    let mut i: usize = start;
    while i < end
        invariant
            start <= i <= end <= bytes@.len(),
            h == fnv1a(bytes@.subrange(start as int, i as int)),
        decreases end - i,
    {
        let b = bytes[i];
        h = (h ^ (b as u64)).wrapping_mul(FNV_PRIME);
        proof {
            let pre = bytes@.subrange(start as int, i as int);
            let post = bytes@.subrange(start as int, i + 1);
            assert(post.drop_last() == pre);
            assert(post.last() == bytes@[i as int]);
        }
        i += 1;
    }
    h
}

/// Executable FNV-1a over a byte slice.
pub fn hash_key(key: &[u8]) -> (h: u64)
    ensures
        h == fnv1a(key@),
{
    let mut h: u64 = FNV_OFFSET_BASIS;
    let mut i: usize = 0;
    let n = key.len();
    while i < n
        invariant
            n == key@.len(),
            i <= n,
            h == fnv1a(key@.take(i as int)),
        decreases n - i,
    {
        let b = key[i];
        h = (h ^ (b as u64)).wrapping_mul(FNV_PRIME);
        proof {
            let pre = key@.take(i as int);
            let post = key@.take(i + 1);
            assert(post.drop_last() == pre);
            assert(post.last() == key@[i as int]);
        }
        i += 1;
    }
    proof {
        assert(key@.take(n as int) == key@);
    }
    h
}

/// Appends the eight little-endian bytes of `h` to `out`.
#[verifier::rlimit(50)]
pub fn push_le64(out: &mut Vec<u8>, h: u64)
    ensures
        final(out)@ == old(out)@ + le64_seq(h),
{
    let b0 = (h % 256) as u8;
    let b1 = ((h / 256) % 256) as u8;
    let b2 = ((h / 0x10000) % 256) as u8;
    let b3 = ((h / 0x1000000) % 256) as u8;
    let b4 = ((h / 0x100000000) % 256) as u8;
    let b5 = ((h / 0x10000000000) % 256) as u8;
    let b6 = ((h / 0x1000000000000) % 256) as u8;
    let b7 = ((h / 0x100000000000000) % 256) as u8;
    out.push(b0);
    out.push(b1);
    out.push(b2);
    out.push(b3);
    out.push(b4);
    out.push(b5);
    out.push(b6);
    out.push(b7);
    proof {
        assert(final(out)@ =~= old(out)@ + le64_seq(h));
    }
}

/// Reads the 64-bit little-endian value at `off`.
pub fn read_le64(bytes: &Vec<u8>, off: usize) -> (h: u64)
    requires
        off + 8 <= bytes@.len(),
    ensures
        h == le64_at(bytes@, off as int),
{
    let n = bytes.len();
    proof {
        assert(n == bytes@.len());
    }
    let b0 = bytes[off] as u64;
    let b1 = bytes[off + 1] as u64;
    let b2 = bytes[off + 2] as u64;
    let b3 = bytes[off + 3] as u64;
    let b4 = bytes[off + 4] as u64;
    let b5 = bytes[off + 5] as u64;
    let b6 = bytes[off + 6] as u64;
    let b7 = bytes[off + 7] as u64;
    b0 + 256 * (b1 + 256 * (b2 + 256 * (b3 + 256 * (b4 + 256 * (b5 + 256 * (b6 + 256 * b7))))))
}

/// Round trip: the little-endian bytes of `h` read back as `h`.
pub proof fn lemma_le64_round_trip(h: u64, s: Seq<u8>, off: int)
    requires
        0 <= off,
        off + 8 <= s.len(),
        s.subrange(off, off + 8) == le64_seq(h),
    ensures
        le64_at(s, off) == h,
{
    assert forall|k: int| 0 <= k < 8 implies s[off + k] == le64_seq(h)[k] by {
        assert(s.subrange(off, off + 8)[k] == s[off + k]);
    }
}

/// Total length recorded in the header of the object at `off`: the top bit
/// of the first length byte is the live flag, the remaining 15 bits are the
/// big-endian length of the whole object, value and overhead included.
pub open spec fn object_total_len(region: Seq<u8>, off: int) -> int {
    ((region[off + 1] as int) % 0x80) * 0x100 + (region[off + 2] as int)
}

/// Whether the object at `off` is live (its live flag is still set).
pub open spec fn object_live(region: Seq<u8>, off: int) -> bool {
    region[off + 1] as int >= 0x80
}

/// The key hash recorded in the header of the object at `off`.
pub open spec fn object_hash(region: Seq<u8>, off: int) -> u64 {
    le64_at(region, off + 3)
}

/// Whether a structurally sound object header sits at `off`: room for the
/// overhead, the right version byte, and a recorded length that covers the
/// overhead and stays inside the region. Anything else ends the object
/// chain of the region.
pub open spec fn object_ok(region: Seq<u8>, off: int) -> bool {
    &&& 0 <= off
    &&& off + OBJECT_OVERHEAD <= region.len()
    &&& region[off] == VERSION
    &&& object_total_len(region, off) >= OBJECT_OVERHEAD
    &&& off + object_total_len(region, off) <= region.len()
}

/// Offset of the first live object with hash `hash`, walking the object
/// chain from `off`.
pub open spec fn scan_from(region: Seq<u8>, off: int, hash: u64) -> Option<int>
    decreases region.len() - off,
{
    if !object_ok(region, off) {
        None
    } else if object_live(region, off) && object_hash(region, off) == hash {
        Some(off)
    } else {
        scan_from(region, off + object_total_len(region, off), hash)
    }
}

/// Offset just past the last object of the region's chain: where the next
/// object would be appended.
pub open spec fn chain_end(region: Seq<u8>, off: int) -> int
    decreases region.len() - off,
{
    if !object_ok(region, off) {
        off
    } else {
        chain_end(region, off + object_total_len(region, off))
    }
}

/// Whether any object in the chain from `off` is still live.
pub open spec fn any_live_from(region: Seq<u8>, off: int) -> bool
    decreases region.len() - off,
{
    if !object_ok(region, off) {
        false
    } else if object_live(region, off) {
        true
    } else {
        any_live_from(region, off + object_total_len(region, off))
    }
}

/// Header of an object of `total_len` bytes for key hash `hash`: version,
/// the length under a set live flag, and the hash.
pub open spec fn header_bytes(hash: u64, total_len: int) -> Seq<u8> {
    seq![VERSION, (0x80 + total_len / 0x100) as u8, (total_len % 0x100) as u8] + le64_seq(hash)
}

/// The full on-flash encoding of an object: header, value, checksum.
pub open spec fn object_bytes(hash: u64, value: Seq<u8>) -> Seq<u8> {
    let body = header_bytes(hash, OBJECT_OVERHEAD + value.len()) + value;
    body + le64_seq(fnv1a(body))
}

/// Builds the on-flash encoding of an object.
pub fn build_object(hash: u64, value: &[u8]) -> (obj: Vec<u8>)
    requires
        value@.len() + OBJECT_OVERHEAD <= MAX_OBJECT_LENGTH,
    ensures
        obj@ == object_bytes(hash, value@),
        obj@.len() == value@.len() + OBJECT_OVERHEAD,
        object_hash(obj@, 0) == hash,
{
    let total = value.len() + OBJECT_OVERHEAD;
    let mut obj: Vec<u8> = Vec::new();
    obj.push(VERSION);
    obj.push((0x80 + total / 0x100) as u8);
    obj.push((total % 0x100) as u8);
    push_le64(&mut obj, hash);
    obj.extend_from_slice(value);
    proof {
        assert(obj@ =~= header_bytes(hash, OBJECT_OVERHEAD + value@.len()) + value@);
    }
    let check_sum = hash_range(&obj, 0, obj.len());
    proof {
        assert(obj@.subrange(0, obj@.len() as int) == obj@);
    }
    push_le64(&mut obj, check_sum);
    proof {
        assert(obj@.subrange(HASH_OFFSET as int, HASH_OFFSET + 8) =~= le64_seq(hash));
        lemma_le64_round_trip(hash, obj@, HASH_OFFSET as int);
    }
    obj
}


/// Finds the first live object whose key hash is `hash` in a region image,
/// returning its offset and total length.
pub fn find_object(region: &Vec<u8>, hash: u64) -> (r: Option<(usize, usize)>)
    ensures
        (r is Some <==> scan_from(region@, 0, hash) is Some),
        (r is Some ==> ({
            let off = (r->0).0 as int;
            &&& scan_from(region@, 0, hash) == Some(off)
            &&& object_ok(region@, off)
            &&& object_live(region@, off)
            &&& object_hash(region@, off) == hash
            &&& (r->0).1 == object_total_len(region@, off)
        })),
{
    let n = region.len();
    let mut off: usize = 0;
    loop
        invariant
            n == region@.len(),
            off <= n,
            scan_from(region@, 0, hash) == scan_from(region@, off as int, hash),
        decreases n - off,
    {
        if n - off < OBJECT_OVERHEAD {
            return None;
        }
        if region[off] != VERSION {
            return None;
        }
        let total = (region[off + 1] as usize % 0x80) * 0x100 + region[off + 2] as usize;
        if total < OBJECT_OVERHEAD {
            return None;
        }
        if total > n - off {
            return None;
        }
        proof {
            assert(object_ok(region@, off as int));
        }
        if region[off + 1] >= 0x80 {
            let h = read_le64(region, off + 3);
            if h == hash {
                return Some((off, total));
            }
        }
        proof {
            assert(scan_from(region@, off as int, hash)
                == scan_from(region@, off + object_total_len(region@, off as int), hash));
        }
        off += total;
    }
}

/// Offset at which the next object would be appended in a region image.
pub fn region_end(region: &Vec<u8>) -> (e: usize)
    ensures
        e == chain_end(region@, 0),
        e <= region@.len(),
{
    let n = region.len();
    let mut off: usize = 0;
    loop
        invariant
            n == region@.len(),
            off <= n,
            chain_end(region@, 0) == chain_end(region@, off as int),
        decreases n - off,
    {
        if n - off < OBJECT_OVERHEAD {
            return off;
        }
        if region[off] != VERSION {
            return off;
        }
        let total = (region[off + 1] as usize % 0x80) * 0x100 + region[off + 2] as usize;
        if total < OBJECT_OVERHEAD {
            return off;
        }
        if total > n - off {
            return off;
        }
        proof {
            assert(object_ok(region@, off as int));
            assert(chain_end(region@, off as int)
                == chain_end(region@, off + object_total_len(region@, off as int)));
        }
        off += total;
    }
}

/// Whether a region image holds at least one object, and whether any of its
/// objects is still live.
pub fn region_live_info(region: &Vec<u8>) -> (r: (bool, bool))
    ensures
        r.0 == object_ok(region@, 0),
        r.1 == any_live_from(region@, 0),
{
    let n = region.len();
    let mut off: usize = 0;
    let mut has_object = false;
    loop
        invariant
            n == region@.len(),
            off <= n,
            has_object == (off > 0 && object_ok(region@, 0)),
            (off == 0 ==> !has_object),
            any_live_from(region@, 0) == any_live_from(region@, off as int),
            (off > 0 ==> object_ok(region@, 0)),
        decreases n - off,
    {
        if n - off < OBJECT_OVERHEAD {
            return (has_object, false);
        }
        if region[off] != VERSION {
            return (has_object, false);
        }
        let total = (region[off + 1] as usize % 0x80) * 0x100 + region[off + 2] as usize;
        if total < OBJECT_OVERHEAD {
            return (has_object, false);
        }
        if total > n - off {
            return (has_object, false);
        }
        proof {
            assert(object_ok(region@, off as int));
        }
        if region[off + 1] >= 0x80 {
            return (true, true);
        }
        proof {
            assert(any_live_from(region@, off as int)
                == any_live_from(region@, off + object_total_len(region@, off as int)));
        }
        has_object = true;
        off += total;
    }
}


/// A region address stays inside the flash.
pub proof fn lemma_region_address(r: int, num_regions: int, region_size: int, flash_size: int, end: int)
    requires
        0 <= r < num_regions,
        0 <= end <= region_size,
        num_regions * region_size <= flash_size,
    ensures
        r * region_size + end <= flash_size,
{
    assert((r + 1) * region_size <= num_regions * region_size) by (nonlinear_arith)
        requires
            r + 1 <= num_regions,
            region_size >= 0,
    ;
    assert(r * region_size + end <= (r + 1) * region_size) by (nonlinear_arith)
        requires
            end <= region_size,
    ;
}

/// The key bytes of the marker object that flags an initialised store.
pub fn main_key() -> (k: Vec<u8>)
    ensures
        k@.len() == 4,
{
    let mut k: Vec<u8> = Vec::new();
    k.push(0x4d);
    k.push(0x41);
    k.push(0x49);
    k.push(0x4e);
    k
}

/// The key-value store over a flash controller `C`.
pub struct TickFS<C: FlashController> {
    /// The platform's flash driver.
    pub controller: C,
    /// Total flash bytes managed by the store.
    pub flash_size: usize,
    /// Bytes per region, the smallest erasable unit.
    pub region_size: usize,
    /// Number of whole regions in the flash.
    pub num_regions: usize,
    /// Scratch buffer one region large, holding the region read last.
    pub read_buf: Vec<u8>,
}

impl<C: FlashController> TickFS<C> {
    /// Geometry and scratch buffer are consistent.
    pub open spec fn wf(self) -> bool {
        &&& OBJECT_OVERHEAD <= self.region_size <= MAX_OBJECT_LENGTH
        &&& 1 <= self.num_regions
        &&& self.num_regions == self.flash_size / self.region_size
        &&& self.num_regions * self.region_size <= self.flash_size
        &&& self.read_buf@.len() == self.region_size
    }

    /// Creates a store over `flash_size` bytes of flash in regions of
    /// `region_size` bytes, with `read_buf` as the region-sized scratch
    /// buffer, and initialises it synchronously: if the flash does not hold
    /// the store's marker object yet, every region is erased once and the
    /// marker is written.
    ///
    /// Fails with `CorruptData` when the region size cannot hold an object,
    /// exceeds what the length field can record, or exceeds the flash size;
    /// with `BufferTooSmall` when the scratch buffer is not region-sized;
    /// and with whatever error the flash controller reports.
    pub fn new(controller: C, read_buf: Vec<u8>, flash_size: usize, region_size: usize) -> (r:
        Result<TickFS<C>, ErrorCode>)
        ensures
            (r matches Ok(t) ==> t.wf() && t.flash_size == flash_size && t.region_size
                == region_size),
            (region_size < OBJECT_OVERHEAD || region_size > MAX_OBJECT_LENGTH
                ==> r == Err::<TickFS<C>, ErrorCode>(ErrorCode::CorruptData)),
    {
        if region_size < OBJECT_OVERHEAD || region_size > MAX_OBJECT_LENGTH {
            return Err(ErrorCode::CorruptData);
        }
        if read_buf.len() != region_size {
            return Err(ErrorCode::BufferTooSmall);
        }
        let num_regions = flash_size / region_size;
        if num_regions == 0 {
            return Err(ErrorCode::CorruptData);
        }
        proof {
            vstd::arithmetic::div_mod::lemma_fundamental_div_mod(flash_size as int,
                region_size as int);
            vstd::arithmetic::div_mod::lemma_mod_bound(flash_size as int, region_size as int);
            let q = flash_size as int / region_size as int;
            assert(flash_size as int == region_size as int * q + flash_size as int % region_size as int);
            assert(region_size as int * q <= flash_size as int);
            assert(num_regions == q);
            assert(num_regions * region_size == region_size as int * q) by (nonlinear_arith)
                requires
                    num_regions == q,
            ;
            assert(num_regions * region_size <= flash_size);
        }
        let mut store = TickFS { controller, flash_size, region_size, num_regions, read_buf };
        proof {
            assert(store.wf());
        }
        match store.initialise() {
            Ok(()) => Ok(store),
            Err(e) => Err(e),
        }
    }

    /// Looks for the marker object; when it is absent, erases every region
    /// once and writes the marker into its home region.
    fn initialise(&mut self) -> (r: Result<(), ErrorCode>)
        requires
            old(self).wf(),
        ensures
            final(self).wf(),
            final(self).flash_size == old(self).flash_size,
            final(self).region_size == old(self).region_size,
            final(self).num_regions == old(self).num_regions,
    {
        let key = main_key();
        let hash = hash_key(key.as_slice());
        let main_region = (hash % (self.num_regions as u64)) as usize;

        match self.controller.read_region(main_region, 0, &mut self.read_buf) {
            Ok(()) => {}
            Err(e) => {
                return Err(e);
            }
        }
        match find_object(&self.read_buf, hash) {
            Some(_) => {
                // The marker is present: the flash already holds a store.
                return Ok(());
            }
            None => {}
        }

        // Fresh flash: bring every region into the blank state.
        let mut region: usize = 0;
        while region < self.num_regions
            invariant
                self.wf(),
                self.flash_size == old(self).flash_size,
                self.region_size == old(self).region_size,
                self.num_regions == old(self).num_regions,
            decreases self.num_regions - region,
        {
            match self.controller.erase_region(region) {
                Ok(()) => {}
                Err(e) => {
                    return Err(e);
                }
            }
            region += 1;
        }

        // Write the marker object into its home region.
        match self.controller.read_region(main_region, 0, &mut self.read_buf) {
            Ok(()) => {}
            Err(e) => {
                return Err(e);
            }
        }
        let end = region_end(&self.read_buf);
        if self.region_size - end < OBJECT_OVERHEAD {
            return Err(ErrorCode::RegionFull);
        }
        let empty: Vec<u8> = Vec::new();
        let object = build_object(hash, empty.as_slice());
        proof {
            lemma_region_address(main_region as int, self.num_regions as int,
                self.region_size as int, self.flash_size as int, end as int);
        }
        let address = main_region * self.region_size + end;
        match self.controller.write(address, object.as_slice()) {
            Ok(()) => Ok(()),
            Err(e) => Err(e),
        }
    }

    /// Stores `value` under `key`.
    ///
    /// The key's hash picks the home region; the object goes to the first
    /// region, scanning onward from there with wrap-around, that has room.
    /// Fails with `ObjectTooLarge` iff the object cannot fit a region at
    /// all, with `KeyAlreadyExists` when a live object with this key's hash
    /// is found on the way, with `FlashFull` when no region has room, and
    /// with whatever error the flash controller reports.
    #[verifier::rlimit(60)]
    pub fn append_key(&mut self, key: &[u8], value: &[u8]) -> (r: Result<(), ErrorCode>)
        requires
            old(self).wf(),
        ensures
            final(self).wf(),
            final(self).flash_size == old(self).flash_size,
            final(self).region_size == old(self).region_size,
            final(self).num_regions == old(self).num_regions,
            (value@.len() + OBJECT_OVERHEAD > old(self).region_size
                ==> r == Err::<(), ErrorCode>(ErrorCode::ObjectTooLarge)),
            (r is Ok ==> scan_from(final(self).read_buf@, 0, fnv1a(key@)) is None
                && chain_end(final(self).read_buf@, 0) + value@.len() + OBJECT_OVERHEAD
                    <= old(self).region_size),
    {
        let hash = hash_key(key);
        self.append_hashed(hash, value)
    }

    /// `append_key` for an already computed key hash.
    #[verifier::rlimit(60)]
    pub fn append_hashed(&mut self, hash: u64, value: &[u8]) -> (r: Result<(), ErrorCode>)
        requires
            old(self).wf(),
        ensures
            final(self).wf(),
            final(self).flash_size == old(self).flash_size,
            final(self).region_size == old(self).region_size,
            final(self).num_regions == old(self).num_regions,
            (value@.len() + OBJECT_OVERHEAD > old(self).region_size
                ==> r == Err::<(), ErrorCode>(ErrorCode::ObjectTooLarge)),
            (r is Ok ==> scan_from(final(self).read_buf@, 0, hash) is None
                && chain_end(final(self).read_buf@, 0) + value@.len() + OBJECT_OVERHEAD
                    <= old(self).region_size),
    {
        if value.len() > self.region_size || self.region_size - value.len() < OBJECT_OVERHEAD {
            return Err(ErrorCode::ObjectTooLarge);
        }
        let start_region = (hash % (self.num_regions as u64)) as usize;

        let mut i: usize = 0;
        while i < self.num_regions
            invariant
                self.wf(),
                self.flash_size == old(self).flash_size,
                self.region_size == old(self).region_size,
                self.num_regions == old(self).num_regions,
                start_region < self.num_regions,
                value@.len() + OBJECT_OVERHEAD <= self.region_size,
            decreases self.num_regions - i,
        {
            let remaining = self.num_regions - start_region;
            let region = if i < remaining {
                start_region + i
            } else {
                i - remaining
            };
            match self.controller.read_region(region, 0, &mut self.read_buf) {
                Ok(()) => {}
                Err(e) => {
                    return Err(e);
                }
            }
            match find_object(&self.read_buf, hash) {
                Some(_) => {
                    return Err(ErrorCode::KeyAlreadyExists);
                }
                None => {}
            }
            let end = region_end(&self.read_buf);
            if self.region_size - end >= value.len() + OBJECT_OVERHEAD {
                let object = build_object(hash, value);
                proof {
                    lemma_region_address(region as int, self.num_regions as int,
                        self.region_size as int, self.flash_size as int, end as int);
                }
                let address = region * self.region_size + end;
                match self.controller.write(address, object.as_slice()) {
                    Ok(()) => {
                        return Ok(());
                    }
                    Err(e) => {
                        return Err(e);
                    }
                }
            }
            i += 1;
        }
        Err(ErrorCode::FlashFull)
    }

    /// Retrieves the value stored under `key` into the front of `buf`.
    ///
    /// Regions are scanned from the key's home region onward. A region with
    /// room to spare ends the search -- the key would have been stored
    /// there -- with `KeyNotFound`. Fails with `BufferTooSmall` when the
    /// stored value does not fit `buf`, with `InvalidCheckSum` when the
    /// stored object fails its checksum, and with whatever error the flash
    /// controller reports. On success the front of `buf` holds exactly the
    /// stored value, whose object checksum was verified.
    pub fn get_key(&mut self, key: &[u8], buf: &mut Vec<u8>) -> (r: Result<(), ErrorCode>)
        requires
            old(self).wf(),
        ensures
            final(self).wf(),
            final(self).flash_size == old(self).flash_size,
            final(self).region_size == old(self).region_size,
            final(self).num_regions == old(self).num_regions,
            final(buf)@.len() == old(buf)@.len(),
            (r is Err ==> final(buf)@ == old(buf)@),
            (r is Ok ==> ({
                let region = final(self).read_buf@;
                let found = scan_from(region, 0, fnv1a(key@));
                &&& found is Some
                &&& ({
                    let off = found->0;
                    let total = object_total_len(region, off);
                    let value_len = total - OBJECT_OVERHEAD;
                    &&& value_len <= old(buf)@.len()
                    &&& final(buf)@ == region.subrange(off + HEADER_LENGTH, off + HEADER_LENGTH
                        + value_len) + old(buf)@.skip(value_len)
                    &&& le64_at(region, off + total - CHECK_SUM_LEN)
                        == fnv1a(region.subrange(off, off + total - CHECK_SUM_LEN))
                })
            })),
    {
        let hash = hash_key(key);
        self.get_hashed(hash, buf)
    }

    /// `get_key` for an already computed key hash.
    #[verifier::rlimit(60)]
    pub fn get_hashed(&mut self, hash: u64, buf: &mut Vec<u8>) -> (r: Result<(), ErrorCode>)
        requires
            old(self).wf(),
        ensures
            final(self).wf(),
            final(self).flash_size == old(self).flash_size,
            final(self).region_size == old(self).region_size,
            final(self).num_regions == old(self).num_regions,
            final(buf)@.len() == old(buf)@.len(),
            (r is Err ==> final(buf)@ == old(buf)@),
            (r is Ok ==> ({
                let region = final(self).read_buf@;
                let found = scan_from(region, 0, hash);
                &&& found is Some
                &&& ({
                    let off = found->0;
                    let total = object_total_len(region, off);
                    let value_len = total - OBJECT_OVERHEAD;
                    &&& value_len <= old(buf)@.len()
                    &&& final(buf)@ == region.subrange(off + HEADER_LENGTH, off + HEADER_LENGTH
                        + value_len) + old(buf)@.skip(value_len)
                    &&& le64_at(region, off + total - CHECK_SUM_LEN)
                        == fnv1a(region.subrange(off, off + total - CHECK_SUM_LEN))
                })
            })),
    {
        let start_region = (hash % (self.num_regions as u64)) as usize;

        let mut i: usize = 0;
        while i < self.num_regions
            invariant
                self.wf(),
                self.flash_size == old(self).flash_size,
                self.region_size == old(self).region_size,
                self.num_regions == old(self).num_regions,
                start_region < self.num_regions,
                buf@ == old(buf)@,
            decreases self.num_regions - i,
        {
            let remaining = self.num_regions - start_region;
            let region = if i < remaining {
                start_region + i
            } else {
                i - remaining
            };
            match self.controller.read_region(region, 0, &mut self.read_buf) {
                Ok(()) => {}
                Err(e) => {
                    return Err(e);
                }
            }
            match find_object(&self.read_buf, hash) {
                Some((off, total)) => {
                    let value_len = total - OBJECT_OVERHEAD;
                    if buf.len() < value_len {
                        return Err(ErrorCode::BufferTooSmall);
                    }
                    // Verify the object checksum before handing the value
                    // out.
                    let check_sum = hash_range(&self.read_buf, off, off + total - CHECK_SUM_LEN);
                    let stored = read_le64(&self.read_buf, off + total - CHECK_SUM_LEN);
                    if check_sum != stored {
                        return Err(ErrorCode::InvalidCheckSum);
                    }
                    let mut j: usize = 0;
                    while j < value_len
                        invariant
                            j <= value_len,
                            off + total <= self.read_buf@.len(),
                            self.read_buf@.len() <= MAX_OBJECT_LENGTH,
                            total - OBJECT_OVERHEAD == value_len,
                            OBJECT_OVERHEAD <= total,
                            value_len <= buf@.len(),
                            buf@.len() == old(buf)@.len(),
                            forall|k: int|
                                0 <= k < j ==> buf@[k] == self.read_buf@[off + HEADER_LENGTH + k],
                            forall|k: int| j <= k < buf@.len() ==> buf@[k] == old(buf)@[k],
                        decreases value_len - j,
                    {
                        let b = self.read_buf[off + HEADER_LENGTH + j];
                        buf.set(j, b);
                        j += 1;
                    }
                    proof {
                        assert(buf@ =~= self.read_buf@.subrange(off + HEADER_LENGTH, off
                            + HEADER_LENGTH + value_len) + old(buf)@.skip(value_len as int));
                    }
                    return Ok(());
                }
                None => {}
            }
            // If this region still has room for an object, the key would
            // have been stored here: stop searching.
            let end = region_end(&self.read_buf);
            if self.region_size - end >= OBJECT_OVERHEAD {
                return Err(ErrorCode::KeyNotFound);
            }
            i += 1;
        }
        Err(ErrorCode::KeyNotFound)
    }

    /// Marks the object stored under `key` as deleted by clearing the live
    /// flag in its header; the space is reclaimed later by
    /// `garbage_collect`. The search rule and errors are those of
    /// `get_key`.
    pub fn invalidate_key(&mut self, key: &[u8]) -> (r: Result<(), ErrorCode>)
        requires
            old(self).wf(),
        ensures
            final(self).wf(),
            final(self).flash_size == old(self).flash_size,
            final(self).region_size == old(self).region_size,
            final(self).num_regions == old(self).num_regions,
            (r is Ok ==> scan_from(final(self).read_buf@, 0, fnv1a(key@)) is Some),
    {
        let hash = hash_key(key);
        self.invalidate_hashed(hash)
    }

    /// `invalidate_key` for an already computed key hash.
    pub fn invalidate_hashed(&mut self, hash: u64) -> (r: Result<(), ErrorCode>)
        requires
            old(self).wf(),
        ensures
            final(self).wf(),
            final(self).flash_size == old(self).flash_size,
            final(self).region_size == old(self).region_size,
            final(self).num_regions == old(self).num_regions,
            (r is Ok ==> scan_from(final(self).read_buf@, 0, hash) is Some),
    {
        let start_region = (hash % (self.num_regions as u64)) as usize;

        let mut i: usize = 0;
        while i < self.num_regions
            invariant
                self.wf(),
                self.flash_size == old(self).flash_size,
                self.region_size == old(self).region_size,
                self.num_regions == old(self).num_regions,
                start_region < self.num_regions,
            decreases self.num_regions - i,
        {
            let remaining = self.num_regions - start_region;
            let region = if i < remaining {
                start_region + i
            } else {
                i - remaining
            };
            match self.controller.read_region(region, 0, &mut self.read_buf) {
                Ok(()) => {}
                Err(e) => {
                    return Err(e);
                }
            }
            match find_object(&self.read_buf, hash) {
                Some((off, _total)) => {
                    // Clear the live flag: the only header bit that may
                    // change after an object was written.
                    let flag_byte = self.read_buf[off + LEN_OFFSET];
                    let mut cleared: Vec<u8> = Vec::new();
                    cleared.push(flag_byte - 0x80);
                    proof {
                        lemma_region_address(region as int, self.num_regions as int,
                            self.region_size as int, self.flash_size as int, (off
                            + LEN_OFFSET) as int);
                    }
                    let address = region * self.region_size + off + LEN_OFFSET;
                    return self.controller.write(address, cleared.as_slice());
                }
                None => {}
            }
            let end = region_end(&self.read_buf);
            if self.region_size - end >= OBJECT_OVERHEAD {
                return Err(ErrorCode::KeyNotFound);
            }
            i += 1;
        }
        Err(ErrorCode::KeyNotFound)
    }

    /// Reclaims the space of deleted objects: every region that holds at
    /// least one object and no live one is erased. Returns how many flash
    /// bytes were freed.
    pub fn garbage_collect(&mut self) -> (r: Result<usize, ErrorCode>)
        requires
            old(self).wf(),
        ensures
            final(self).wf(),
            final(self).flash_size == old(self).flash_size,
            final(self).region_size == old(self).region_size,
            final(self).num_regions == old(self).num_regions,
            (r matches Ok(freed) ==> freed <= old(self).flash_size),
    {
        let mut freed: usize = 0;
        let mut region: usize = 0;
        while region < self.num_regions
            invariant
                self.wf(),
                self.flash_size == old(self).flash_size,
                self.region_size == old(self).region_size,
                self.num_regions == old(self).num_regions,
                region <= self.num_regions,
                freed <= region * self.region_size,
                region * self.region_size <= self.flash_size,
            decreases self.num_regions - region,
        {
            match self.controller.read_region(region, 0, &mut self.read_buf) {
                Ok(()) => {}
                Err(e) => {
                    return Err(e);
                }
            }
            let (has_object, any_live) = region_live_info(&self.read_buf);
            proof {
                lemma_region_address(region as int, self.num_regions as int,
                    self.region_size as int, self.flash_size as int, self.region_size as int);
            }
            proof {
                assert((region + 1) * self.region_size == region * self.region_size
                    + self.region_size) by (nonlinear_arith);
                assert((region + 1) * self.region_size <= self.num_regions * self.region_size)
                    by (nonlinear_arith)
                    requires
                        region + 1 <= self.num_regions,
                        self.region_size >= 0,
                ;
            }
            if has_object && !any_live {
                match self.controller.erase_region(region) {
                    Ok(()) => {}
                    Err(e) => {
                        return Err(e);
                    }
                }
                freed += self.region_size;
            }
            region += 1;
        }
        Ok(freed)
    }
}

} // verus!
