//! Finding room in application flash for a dynamically loaded process.
//!
//! Loaded applications sit one after another in a region of flash, each
//! under a binary header that records its total size. Loading a new
//! application means walking the headers to the first writable gap, and
//! checking that the new application's footprint does not run into a region
//! an earlier application already occupies.

use vstd::prelude::*;
use crate::crc32::{Crc32, crc_feed};

verus! {

/// The binary-header version the loader understands.
pub const TBF_VERSION: u16 = 2;

/// What the first eight header bytes at a flash position say.
#[derive(Copy, Clone, PartialEq, Eq, Structural, Debug)]
pub enum HeaderInfo {
    /// A well-formed header: version, header length, total application
    /// length.
    Valid(u16, u16, u32),
    /// A header of the wrong version; its recorded total length still tells
    /// how far to skip.
    InvalidHeader(u32),
    /// Blank flash: no application starts here.
    UnableToParse,
}

/// The 16-bit little-endian value at `off`.
pub open spec fn le16_at(s: Seq<u8>, off: int) -> u16 {
    ((s[off] as nat) + 256 * (s[off + 1] as nat)) as u16
}

/// The 32-bit little-endian value at `off`.
pub open spec fn le32_at(s: Seq<u8>, off: int) -> u32 {
    ((s[off] as nat) + 256 * ((s[off + 1] as nat) + 256 * ((s[off + 2] as nat) + 256 * (s[off + 3] as nat)))) as u32
}

/// Whether the eight bytes at `off` are blank flash.
pub open spec fn spec_blank(s: Seq<u8>, off: int) -> bool {
    forall|k: int| off <= k < off + 8 ==> s[k] == 0xffu8
}

/// Parses the first eight bytes of a binary header: the version, the length
/// of the header and the total length of the application. Blank flash
/// parses to `UnableToParse`; a version the loader does not understand
/// parses to `InvalidHeader` carrying the recorded total length.
pub fn parse_tbf_header_lengths(flash: &Vec<u8>, off: usize) -> (h: HeaderInfo)
    requires
        off + 8 <= flash@.len(),
    ensures
        (spec_blank(flash@, off as int) <==> h == HeaderInfo::UnableToParse),
        (!spec_blank(flash@, off as int) && le16_at(flash@, off as int) != TBF_VERSION
            ==> h == HeaderInfo::InvalidHeader(le32_at(flash@, off + 4))),
        (!spec_blank(flash@, off as int) && le16_at(flash@, off as int) == TBF_VERSION
            ==> h == HeaderInfo::Valid(TBF_VERSION, le16_at(flash@, off + 2),
                le32_at(flash@, off + 4))),
{
    let n = flash.len();
    let mut blank = true;
    let mut k: usize = 0;
    while k < 8
        invariant
            k <= 8,
            n == flash@.len(),
            off + 8 <= n,
            blank == (forall|m: int| off <= m < off + k ==> flash@[m] == 0xffu8),
        decreases 8 - k,
    {
        if flash[off + k] != 0xff {
            blank = false;
        }
        k += 1;
    }
    if blank {
        return HeaderInfo::UnableToParse;
    }
    let version = flash[off] as u16 + 256 * (flash[off + 1] as u16);
    let header_length = flash[off + 2] as u16 + 256 * (flash[off + 3] as u16);
    let b4 = flash[off + 4] as u32;
    let b5 = flash[off + 5] as u32;
    let b6 = flash[off + 6] as u32;
    let b7 = flash[off + 7] as u32;
    let entry_length = b4 + 256 * (b5 + 256 * (b6 + 256 * b7));
    if version != TBF_VERSION {
        HeaderInfo::InvalidHeader(entry_length)
    } else {
        HeaderInfo::Valid(version, header_length, entry_length)
    }
}

/// The loader: the geometry of application flash and what it has loaded so
/// far. Board bring-up creates one; the loading commands of the update
/// application drive it.
pub struct ProcessLoader {
    /// How many process slots the kernel supports.
    pub supported_process_num: usize,
    /// First address of application flash.
    pub start_app: usize,
    /// First address past application flash.
    pub end_app: usize,
    /// First address past application memory.
    pub end_appmem: usize,
    /// Start address of the flash region of each loaded application.
    pub process_region_start_address: Vec<usize>,
    /// Size of the flash region of each loaded application.
    pub process_region_size: Vec<usize>,
    /// How many applications have been loaded.
    pub index: usize,
    /// Where the next application will be written.
    pub dynamic_flash_start_addr: usize,
    /// Size the update application requested for the next application.
    pub appsize_requested: usize,
}

impl ProcessLoader {
    /// Recorded regions are consistent: one start and one size per loaded
    /// application, each non-empty with a representable end.
    pub open spec fn wf(self) -> bool {
        &&& self.process_region_start_address@.len() == self.supported_process_num
        &&& self.process_region_size@.len() == self.supported_process_num
        &&& self.index <= self.supported_process_num
        &&& forall|i: int|
            0 <= i < self.index ==> 1 <= #[trigger] self.process_region_size@[i]
                && self.process_region_start_address@[i] + self.process_region_size@[i]
                <= usize::MAX
    }

    /// A loader over the application flash `[start_app, end_app)` with room
    /// for `supported_process_num` processes, none loaded yet.
    pub fn init(
        supported_process_num: usize,
        start_app: usize,
        end_app: usize,
        end_appmem: usize,
    ) -> (p: ProcessLoader)
        ensures
            p.wf(),
            p.index == 0,
            p.supported_process_num == supported_process_num,
            p.start_app == start_app,
            p.end_app == end_app,
            p.end_appmem == end_appmem,
            p.dynamic_flash_start_addr == start_app,
            p.appsize_requested == 0,
    {
        ProcessLoader {
            supported_process_num,
            start_app,
            end_app,
            end_appmem,
            process_region_start_address: vec![0usize; supported_process_num],
            process_region_size: vec![0usize; supported_process_num],
            index: 0,
            dynamic_flash_start_addr: start_app,
            appsize_requested: 0,
        }
    }

    /// Checks that the candidate window `[dynamic_flash_start_addr,
    /// dynamic_flash_start_addr + appsize_requested)` runs into no region an
    /// earlier application occupies. When the candidate's start lies inside
    /// an occupied region, the start is moved just past that region and the
    /// scan restarts; when its end does, the candidate is hopeless and the
    /// occupying region's start is returned so that the caller can skip
    /// past it. On success the (possibly moved) candidate overlaps no
    /// recorded region.
    pub fn check_overlap_region(&mut self) -> (r: Result<(), usize>)
        requires
            old(self).wf(),
            old(self).appsize_requested >= 1,
            old(self).dynamic_flash_start_addr + old(self).appsize_requested <= usize::MAX,
        ensures
            final(self).wf(),
            *final(self) == (ProcessLoader {
                dynamic_flash_start_addr: final(self).dynamic_flash_start_addr,
                ..*old(self)
            }),
            final(self).dynamic_flash_start_addr >= old(self).dynamic_flash_start_addr,
            final(self).dynamic_flash_start_addr + final(self).appsize_requested <= usize::MAX,
            (r is Ok ==> forall|i: int|
                0 <= i < final(self).index
                    ==> #[trigger] final(self).process_region_start_address@[i]
                        + final(self).process_region_size@[i]
                        <= final(self).dynamic_flash_start_addr
                    || final(self).dynamic_flash_start_addr + final(self).appsize_requested
                        <= final(self).process_region_start_address@[i]),
    {
        let mut index: usize = 0;
        while index < self.index
            invariant
                self.wf(),
                *self == (ProcessLoader {
                    dynamic_flash_start_addr: self.dynamic_flash_start_addr,
                    ..*old(self)
                }),
                self.appsize_requested >= 1,
                index <= self.index,
                self.dynamic_flash_start_addr >= old(self).dynamic_flash_start_addr,
                self.dynamic_flash_start_addr + self.appsize_requested <= usize::MAX,
                forall|i: int|
                    0 <= i < index ==> #[trigger] self.process_region_start_address@[i]
                        + self.process_region_size@[i] <= self.dynamic_flash_start_addr
                        || self.dynamic_flash_start_addr + self.appsize_requested
                            <= self.process_region_start_address@[i],
            decreases usize::MAX - self.dynamic_flash_start_addr, self.index - index,
        {
            let new_start = self.dynamic_flash_start_addr;
            let new_end = new_start + self.appsize_requested - 1;
            let region_start = self.process_region_start_address[index];
            let region_end = region_start + self.process_region_size[index] - 1;

            if new_end < region_start || new_start > region_end {
                // Disjoint from this region.
                index += 1;
            } else if new_start >= region_start {
                // The candidate's start lies inside this region: move the
                // candidate just past it and check everything again.
                if region_end >= usize::MAX - self.appsize_requested {
                    return Err(region_start);
                }
                self.dynamic_flash_start_addr = region_end + 1;
                index = 0;
            } else {
                // The candidate runs into this region from below: discard
                // it; the caller continues searching from the occupying
                // region's start.
                return Err(region_start);
            }
        }
        Ok(())
    }

    /// Walks the application headers from `start_app` to find the first
    /// writable gap that fits `appsize_requested` bytes without running into
    /// a recorded region, and records it in `dynamic_flash_start_addr`.
    /// Fails when the process table is full or no gap exists. `flash` is
    /// the image of `[start_app, end_app)`.
    pub fn find_dynamic_start_address_of_writable_flash(&mut self, flash: &Vec<u8>) -> (r: Result<
        (),
        (),
    >)
        requires
            old(self).wf(),
            old(self).appsize_requested >= 1,
            old(self).start_app <= old(self).end_app,
            old(self).end_app - old(self).start_app <= flash@.len(),
            old(self).end_app + old(self).appsize_requested <= usize::MAX,
        ensures
            final(self).wf(),
            final(self).index == old(self).index,
            final(self).supported_process_num == old(self).supported_process_num,
            final(self).process_region_start_address@ == old(self).process_region_start_address@,
            final(self).process_region_size@ == old(self).process_region_size@,
    {
        // No room in the process table: nothing to search for.
        if self.index >= self.supported_process_num {
            return Err(());
        }

        let mut address = self.start_app;
        while address < self.end_app
            invariant
                self.wf(),
                self.index == old(self).index,
                self.index < self.supported_process_num,
                self.supported_process_num == old(self).supported_process_num,
                self.process_region_start_address@ == old(self).process_region_start_address@,
                self.process_region_size@ == old(self).process_region_size@,
                self.start_app == old(self).start_app,
                self.end_app == old(self).end_app,
                self.appsize_requested == old(self).appsize_requested,
                self.appsize_requested >= 1,
                self.start_app <= address,
                self.end_app - self.start_app <= flash@.len(),
                self.end_app + self.appsize_requested <= usize::MAX,
            decreases self.end_app - address,
        {
            if self.end_app - address < 8 {
                // Too little flash left even for a header.
                return Err(());
            }
            let header = parse_tbf_header_lengths(flash, address - self.start_app);
            let skip: usize = match header {
                HeaderInfo::UnableToParse => {
                    // Blank flash: a candidate gap. Verify it against the
                    // regions already handed out.
                    self.dynamic_flash_start_addr = address;
                    match self.check_overlap_region() {
                        Ok(()) => {
                            return Ok(());
                        }
                        Err(occupied_start) => {
                            // Skip past the occupying region.
                            if occupied_start <= address {
                                return Err(());
                            }
                            self.dynamic_flash_start_addr = occupied_start;
                            occupied_start - address
                        }
                    }
                }
                HeaderInfo::Valid(_version, _header_length, entry_length) => {
                    if entry_length as usize > self.appsize_requested {
                        entry_length as usize
                    } else {
                        self.appsize_requested
                    }
                }
                HeaderInfo::InvalidHeader(entry_length) => {
                    if entry_length as usize > self.appsize_requested {
                        entry_length as usize
                    } else {
                        self.appsize_requested
                    }
                }
            };
            if skip == 0 || skip > self.end_app - address {
                return Err(());
            }
            address += skip;
        }
        // The whole window is occupied.
        Err(())
    }

    /// The CRC-32 of the application image recorded at
    /// `dynamic_flash_start_addr`: the checksum runs over the total length
    /// its header records. Returns nothing when the header's length runs
    /// past the flash image.
    pub fn cal_crc32_posix(&self, flash: &Vec<u8>) -> (r: Option<u32>)
        requires
            self.start_app <= self.dynamic_flash_start_addr,
            self.start_app <= self.end_app,
            self.end_app - self.start_app <= flash@.len(),
        ensures
            (r matches Some(c) ==> ({
                let off = self.dynamic_flash_start_addr - self.start_app;
                let len = le32_at(flash@, off + 4) as int;
                c == !crc_feed(0u32, flash@.subrange(off as int, off + len))
            })),
    {
        let off = self.dynamic_flash_start_addr - self.start_app;
        if self.end_app < 8 || self.dynamic_flash_start_addr > self.end_app - 8 {
            return None;
        }
        let b4 = flash[off + 4] as u32;
        let b5 = flash[off + 5] as u32;
        let b6 = flash[off + 6] as u32;
        let b7 = flash[off + 7] as u32;
        let entry_length = b4 + 256 * (b5 + 256 * (b6 + 256 * b7));
        if entry_length as usize > flash.len() - off {
            return None;
        }
        let mut crc32_instance = Crc32::new();
        let image = vstd::slice::slice_subrange(flash.as_slice(), off, off + entry_length as usize);
        crc32_instance.update(image);
        Some(crc32_instance.finalise())
    }
}

} // verus!
