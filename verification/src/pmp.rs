//! Physical-memory-protection (PMP) region allocation and hardware
//! synchronisation.
//!
//! A logical protection region is an address range plus permissions. A
//! per-process `PMPConfig` holds a fixed bank of optional regions, keeps them
//! sorted by start address, rejects overlapping requests, and tracks a dirty
//! flag so that the hardware registers are rewritten only when the
//! configuration changed or a different process is being scheduled. Each
//! logical region occupies two physical top-of-range entries: one that closes
//! access up to the region start, one that grants access up to its end.

use vstd::prelude::*;

verus! {

/// Access rights a process is granted on a protection region.
#[derive(Copy, Clone, PartialEq, Eq, Structural, Debug)]
pub enum Permissions {
    ReadWriteExecute,
    ReadWriteOnly,
    ReadExecuteOnly,
    ReadOnly,
    ExecuteOnly,
}

/// Control-byte encoding of a permission set: read is bit 0, write bit 1,
/// execute bit 2, and bit 3 selects top-of-range address matching.
pub open spec fn spec_cfg_byte(p: Permissions) -> u8 {
    match p {
        Permissions::ReadWriteExecute => 0x0fu8,
        Permissions::ReadWriteOnly => 0x0bu8,
        Permissions::ReadExecuteOnly => 0x0du8,
        Permissions::ReadOnly => 0x09u8,
        Permissions::ExecuteOnly => 0x0cu8,
    }
}

/// One logical protection region: a half-open address range `[start,
/// start + size)` and the control byte that encodes its permissions.
#[derive(Copy, Clone, PartialEq, Eq, Structural, Debug)]
pub struct PMPRegion {
    pub start: usize,
    pub size: usize,
    pub cfg: u8,
}

/// A region is well formed when it is non-empty and its end address is
/// representable.
pub open spec fn region_wf(r: PMPRegion) -> bool {
    r.size > 0 && r.start + r.size <= usize::MAX
}

/// Half-open interval intersection of a region with `[other_start,
/// other_start + other_size)`.
pub open spec fn spec_overlaps(r: PMPRegion, other_start: usize, other_size: usize) -> bool {
    r.start < other_start + other_size && other_start < r.start + r.size
}

impl PMPRegion {
    /// Builds a region descriptor. The range is taken as given; rounding to
    /// the hardware's alignment happens in the allocation operations.
    pub fn new(start: usize, size: usize, permissions: Permissions) -> (r: PMPRegion)
        ensures
            r.start == start,
            r.size == size,
            r.cfg == spec_cfg_byte(permissions),
    {
        let cfg: u8 = match permissions {
            Permissions::ReadWriteExecute => 0x0f,
            Permissions::ReadWriteOnly => 0x0b,
            Permissions::ReadExecuteOnly => 0x0d,
            Permissions::ReadOnly => 0x09,
            Permissions::ExecuteOnly => 0x0c,
        };
        PMPRegion { start, size, cfg }
    }

    /// The region's address range.
    pub fn location(&self) -> (loc: (usize, usize))
        ensures
            loc.0 == self.start,
            loc.1 == self.size,
    {
        (self.start, self.size)
    }

    /// Half-open interval intersection test: true iff this region and
    /// `[other_start, other_start + other_size)` share an address.
    pub fn overlaps(&self, other_start: usize, other_size: usize) -> (b: bool)
        requires
            self.start + self.size <= usize::MAX,
            other_start + other_size <= usize::MAX,
        ensures
            b == spec_overlaps(*self, other_start, other_size),
    {
        let other_end = other_start + other_size;
        let region_end = self.start + self.size;
        self.start < other_end && other_start < region_end
    }
}

/// Identity of the process a configuration was last pushed to hardware for.
#[derive(Copy, Clone, PartialEq, Eq, Structural, Debug)]
pub struct AppId {
    pub id: usize,
}

/// Number of slots in the fixed region bank of a configuration.
pub const MAX_REGION_SLOTS: usize = 32;

/// Sort key of a slot: populated slots order by start address, empty slots
/// sort to the end.
pub open spec fn slot_key(o: Option<PMPRegion>) -> int {
    match o {
        Some(r) => r.start as int,
        None => usize::MAX as int,
    }
}

/// Every populated slot holds a well-formed region.
pub open spec fn all_slots_wf(s: Seq<Option<PMPRegion>>) -> bool {
    forall|i: int| 0 <= i < s.len() && (#[trigger] s[i]) is Some ==> region_wf(s[i]->0)
}

/// Slots are sorted: populated entries ascend by start address and empty
/// entries sit at the end.
pub open spec fn sorted_slots(s: Seq<Option<PMPRegion>>) -> bool {
    forall|i: int, j: int| 0 <= i < j < s.len() ==> slot_key(#[trigger] s[i]) <= slot_key(#[trigger] s[j])
}

/// Two well-formed regions cover disjoint address ranges.
pub open spec fn regions_disjoint(a: PMPRegion, b: PMPRegion) -> bool {
    a.start + a.size <= b.start || b.start + b.size <= a.start
}

/// No two populated slots overlap: the central allocation invariant.
pub open spec fn no_overlap(s: Seq<Option<PMPRegion>>) -> bool {
    forall|i: int, j: int|
        0 <= i < s.len() && 0 <= j < s.len() && i != j && s[i] is Some && s[j] is Some
            ==> regions_disjoint(#[trigger] s[i]->0, #[trigger] s[j]->0)
}

/// All populated slots carry pairwise distinct start addresses.
pub open spec fn distinct_starts(s: Seq<Option<PMPRegion>>) -> bool {
    forall|i: int, j: int|
        0 <= i < s.len() && 0 <= j < s.len() && i != j && s[i] is Some && s[j] is Some
            ==> (#[trigger] s[i])->0.start != (#[trigger] s[j])->0.start
}

/// Overlap-free well-formed regions have pairwise distinct starts.
pub proof fn lemma_no_overlap_distinct(s: Seq<Option<PMPRegion>>)
    requires
        all_slots_wf(s),
        no_overlap(s),
    ensures
        distinct_starts(s),
{
    assert forall|i: int, j: int|
        0 <= i < s.len() && 0 <= j < s.len() && i != j && s[i] is Some && s[j] is Some
            implies (#[trigger] s[i])->0.start != (#[trigger] s[j])->0.start by {
        assert(regions_disjoint(s[i]->0, s[j]->0));
        assert(region_wf(s[i]->0));
        assert(region_wf(s[j]->0));
    }
}

/// Under distinct starts, a populated slot whose start matches a contained
/// region holds exactly that region.
pub proof fn lemma_slot_by_start(s: Seq<Option<PMPRegion>>, i: int, g: PMPRegion)
    requires
        distinct_starts(s),
        s.contains(Some(g)),
        0 <= i < s.len(),
        s[i] is Some,
        s[i]->0.start == g.start,
    ensures
        s[i] == Some(g),
{
    let k = choose|k: int| 0 <= k < s.len() && s[k] == Some(g);
    if k != i {
        assert(s[i]->0.start != s[k]->0.start);
    }
}

/// Per-process snapshot of the intended protection layout.
pub struct PMPConfig {
    /// Fixed bank of optional logical regions.
    pub regions: Vec<Option<PMPRegion>>,
    /// How many logical regions the hardware can hold (half the number of
    /// physical top-of-range entries).
    pub total_regions: usize,
    /// Set on every structural mutation, cleared only after a confirmed
    /// hardware write.
    pub is_dirty: bool,
    /// The process the configuration was last written to hardware for.
    pub last_configured_for: Option<AppId>,
    /// Slot index of the growable application-memory region, if any.
    pub app_region: Option<usize>,
}

impl PMPConfig {
    /// Structural well-formedness: full bank, capacity within the bank,
    /// well-formed sorted entries, and a growable index that points at a
    /// populated slot.
    pub open spec fn wf(self) -> bool {
        &&& self.regions@.len() == MAX_REGION_SLOTS
        &&& self.total_regions <= MAX_REGION_SLOTS
        &&& all_slots_wf(self.regions@)
        &&& sorted_slots(self.regions@)
        &&& match self.app_region {
            Some(i) => i < MAX_REGION_SLOTS && self.regions@[i as int] is Some,
            None => true,
        }
    }

    /// Slot `n` can receive a fresh (non-growable) region.
    pub open spec fn free_slot(self, n: int) -> bool {
        &&& 0 <= n < self.total_regions
        &&& self.regions@[n] is None
        &&& self.app_region != Some(n as usize)
    }

    /// Builds an empty configuration for a hardware bank of `pmp_regions`
    /// physical entries. Top-of-range matching consumes two physical entries
    /// per logical region, so only half that many regions are usable. Counts
    /// outside the architecturally supported bounds are a platform-description
    /// bug, which this function rules out rather than handling at run time.
    pub fn new(pmp_regions: usize) -> (c: PMPConfig)
        requires
            4 <= pmp_regions <= 64,
        ensures
            c.wf(),
            no_overlap(c.regions@),
            c.total_regions == pmp_regions / 2,
            c.is_dirty,
            c.last_configured_for is None,
            c.app_region is None,
            forall|i: int| 0 <= i < MAX_REGION_SLOTS ==> c.regions@[i] is None,
    {
        let regions: Vec<Option<PMPRegion>> = vec![None; MAX_REGION_SLOTS];
        PMPConfig {
            regions,
            total_regions: pmp_regions / 2,
            is_dirty: true,
            last_configured_for: None,
            app_region: None,
        }
    }

    /// The number of logical regions this configuration can hold.
    pub fn number_total_regions(&self) -> (n: usize)
        ensures
            n == self.total_regions,
    {
        self.total_regions
    }

    /// Marks the configuration as diverged from the hardware state.
    pub fn mark_dirty(&mut self)
        ensures
            *final(self) == (PMPConfig { is_dirty: true, ..*old(self) }),
    {
        self.is_dirty = true;
    }

    /// First empty slot below the capacity, skipping the slot reserved for
    /// the growable region. `None` means the capacity is exhausted.
    pub fn unused_region_number(&self) -> (r: Option<usize>)
        requires
            self.wf(),
        ensures
            (r is Some ==> self.free_slot(r->0 as int)),
            (r is Some ==> forall|m: int| 0 <= m < r->0 ==> !self.free_slot(m)),
            (r is None ==> forall|n: int| !self.free_slot(n)),
    {
        let mut number: usize = 0;
        while number < self.total_regions
            invariant
                self.wf(),
                number <= self.total_regions,
                forall|m: int| 0 <= m < number ==> !self.free_slot(m),
            decreases self.total_regions - number,
        {
            let is_app = match self.app_region {
                Some(i) => i == number,
                None => false,
            };
            if !is_app && self.regions[number].is_none() {
                return Some(number);
            }
            number += 1;
        }
        None
    }
}

/// Executable sort key of a slot (empty slots order last).
fn slot_key_exec(o: &Option<PMPRegion>) -> (k: usize)
    requires
        (o is Some ==> region_wf(o->0)),
    ensures
        k as int == slot_key(*o),
{
    match o {
        Some(r) => r.start,
        None => usize::MAX,
    }
}

impl PMPConfig {
    /// Stable insertion sort of the region bank by ascending start address;
    /// empty slots move to the end. The growable-region index is re-located
    /// afterwards by its start address, because downstream hardware
    /// programming addresses regions by slot index.
    pub fn sort_regions(&mut self)
        requires
            old(self).regions@.len() == MAX_REGION_SLOTS,
            all_slots_wf(old(self).regions@),
            (old(self).app_region is Some ==> old(self).app_region->0 < MAX_REGION_SLOTS
                && old(self).regions@[old(self).app_region->0 as int] is Some),
        ensures
            final(self).regions@.to_multiset() == old(self).regions@.to_multiset(),
            final(self).regions@.len() == MAX_REGION_SLOTS,
            sorted_slots(final(self).regions@),
            all_slots_wf(final(self).regions@),
            final(self).total_regions == old(self).total_regions,
            final(self).is_dirty == old(self).is_dirty,
            final(self).last_configured_for == old(self).last_configured_for,
            (no_overlap(old(self).regions@) ==> no_overlap(final(self).regions@)),
            (distinct_starts(old(self).regions@) ==> distinct_starts(final(self).regions@)),
            (old(self).app_region is None ==> final(self).app_region is None),
            (old(self).app_region is Some ==> final(self).app_region is Some
                && final(self).app_region->0 < MAX_REGION_SLOTS
                && final(self).regions@[final(self).app_region->0 as int] is Some
                && final(self).regions@[final(self).app_region->0 as int]->0.start
                    == old(self).regions@[old(self).app_region->0 as int]->0.start),
    {
        broadcast use vstd::seq_lib::group_to_multiset_ensures;

        // Remember which region is the growable one before its slot moves.
        let ghost old_regions = self.regions@;
        let app_entry: Option<PMPRegion> = match self.app_region {
            Some(i) => self.regions[i],
            None => None,
        };

        let mut i: usize = 1;
        while i < MAX_REGION_SLOTS
            invariant
                1 <= i <= MAX_REGION_SLOTS,
                self.regions@.len() == MAX_REGION_SLOTS,
                old_regions == old(self).regions@,
                self.regions@.to_multiset() == old_regions.to_multiset(),
                all_slots_wf(self.regions@),
                (no_overlap(old_regions) ==> no_overlap(self.regions@)),
                (distinct_starts(old_regions) ==> distinct_starts(self.regions@)),
                forall|a: int, b: int|
                    0 <= a < b < i ==> slot_key(#[trigger] self.regions@[a]) <= slot_key(#[trigger] self.regions@[b]),
                self.total_regions == old(self).total_regions,
                self.is_dirty == old(self).is_dirty,
                self.last_configured_for == old(self).last_configured_for,
                self.app_region == old(self).app_region,
            decreases MAX_REGION_SLOTS - i,
        {
            let mut j: usize = i;
            while j > 0 && slot_key_exec(&self.regions[j - 1]) > slot_key_exec(&self.regions[j])
                invariant
                    0 <= j <= i < MAX_REGION_SLOTS,
                    self.regions@.len() == MAX_REGION_SLOTS,
                    old_regions == old(self).regions@,
                    self.regions@.to_multiset() == old_regions.to_multiset(),
                    all_slots_wf(self.regions@),
                    (no_overlap(old_regions) ==> no_overlap(self.regions@)),
                    (distinct_starts(old_regions) ==> distinct_starts(self.regions@)),
                    forall|a: int, b: int|
                        0 <= a < b <= i && b != j
                            ==> slot_key(#[trigger] self.regions@[a]) <= slot_key(#[trigger] self.regions@[b]),
                    self.total_regions == old(self).total_regions,
                    self.is_dirty == old(self).is_dirty,
                    self.last_configured_for == old(self).last_configured_for,
                    self.app_region == old(self).app_region,
                decreases j,
            {
                let ghost before = self.regions@;
                let lower = self.regions[j - 1];
                let upper = self.regions[j];
                self.regions.set(j - 1, upper);
                self.regions.set(j, lower);
                proof {
                    broadcast use vstd::multiset::group_multiset_axioms;

                    let s1 = before.update(j - 1, upper);
                    assert(self.regions@ == s1.update(j as int, lower));
                    vstd::seq_lib::to_multiset_update(before, j - 1, upper);
                    assert(s1.to_multiset() == before.to_multiset().insert(upper).remove(before[j - 1]));
                    assert(s1[j as int] == upper);
                    vstd::seq_lib::to_multiset_update(s1, j as int, lower);
                    assert(self.regions@.to_multiset() == s1.to_multiset().insert(lower).remove(upper));
                    assert(before.contains(lower));
                    before.to_multiset_ensures();
                    assert(before.to_multiset().count(lower) > 0);
                    assert(self.regions@.to_multiset() =~= before.to_multiset());
                    if no_overlap(before) {
                        let after = self.regions@;
                        assert forall|a: int, b: int|
                            0 <= a < after.len() && 0 <= b < after.len() && a != b
                                && after[a] is Some && after[b] is Some
                                implies regions_disjoint(#[trigger] after[a]->0, #[trigger] after[b]->0) by {
                            let a0: int = if a == j - 1 { j as int } else if a == j { j - 1 } else { a };
                            let b0: int = if b == j - 1 { j as int } else if b == j { j - 1 } else { b };
                            assert(after[a] == before[a0]);
                            assert(after[b] == before[b0]);
                        }
                        assert(no_overlap(after));
                    }
                    if distinct_starts(before) {
                        let after = self.regions@;
                        assert forall|a: int, b: int|
                            0 <= a < after.len() && 0 <= b < after.len() && a != b
                                && after[a] is Some && after[b] is Some
                                implies (#[trigger] after[a])->0.start != (#[trigger] after[b])->0.start by {
                            let a0: int = if a == j - 1 { j as int } else if a == j { j - 1 } else { a };
                            let b0: int = if b == j - 1 { j as int } else if b == j { j - 1 } else { b };
                            assert(after[a] == before[a0]);
                            assert(after[b] == before[b0]);
                        }
                        assert(distinct_starts(after));
                    }
                }
                j -= 1;
            }
            i += 1;
        }

        // Relocate the growable-region index to wherever its region moved.
        match app_entry {
            None => {}
            Some(app_region) => {
                proof {
                    assert(old_regions.contains(Some(app_region)));
                    assert(self.regions@.to_multiset().count(Some(app_region)) > 0);
                    assert(self.regions@.contains(Some(app_region)));
                }
                let mut k: usize = 0;
                while k < MAX_REGION_SLOTS
                    invariant
                        0 <= k <= MAX_REGION_SLOTS,
                        self.regions@.len() == MAX_REGION_SLOTS,
                        old_regions == old(self).regions@,
                        self.regions@.to_multiset() == old_regions.to_multiset(),
                        sorted_slots(self.regions@),
                        (no_overlap(old_regions) ==> no_overlap(self.regions@)),
                        (distinct_starts(old_regions) ==> distinct_starts(self.regions@)),
                        all_slots_wf(self.regions@),
                        self.regions@.contains(Some(app_region)),
                        self.total_regions == old(self).total_regions,
                        self.is_dirty == old(self).is_dirty,
                        self.last_configured_for == old(self).last_configured_for,
                        old(self).app_region is Some,
                        app_region == old(self).regions@[old(self).app_region->0 as int]->0,
                        forall|m: int|
                            0 <= m < k ==> !(#[trigger] self.regions@[m] is Some
                                && self.regions@[m]->0.start == app_region.start),
                    decreases MAX_REGION_SLOTS - k,
                {
                    match self.regions[k] {
                        Some(r) => {
                            if r.start == app_region.start {
                                self.app_region = Some(k);
                                return;
                            }
                        }
                        None => {}
                    }
                    k += 1;
                }
                // The growable region is in the bank, so the scan above
                // cannot run out.
                proof {
                    let idx = choose|idx: int|
                        0 <= idx < self.regions@.len() && self.regions@[idx] == Some(app_region);
                    assert(false);
                }
            }
        }
    }
}

impl Default for PMPConfig {
    /// An empty configuration sized for a bank of 16 physical entries.
    fn default() -> (c: PMPConfig)
        ensures
            c.wf(),
            no_overlap(c.regions@),
            c.total_regions == 8,
            c.is_dirty,
            c.last_configured_for is None,
            c.app_region is None,
    {
        PMPConfig::new(16)
    }
}


/// The address range actually granted by an allocation, after rounding.
#[derive(Copy, Clone, PartialEq, Eq, Structural, Debug)]
pub struct Region {
    pub start: usize,
    pub size: usize,
}

/// Error returned when the growable region cannot be resized.
#[derive(Copy, Clone, PartialEq, Eq, Structural, Debug)]
pub enum GrowRegionError {
    /// No growable region has been allocated in this configuration yet.
    NotYetAllocated,
    /// The requested application boundary lies above the reserved boundary.
    OutOfMemory,
}

/// `x` rounded up to the next multiple of 4.
pub open spec fn round_up4(x: int) -> int {
    if x % 4 == 0 {
        x
    } else {
        x + (4 - x % 4)
    }
}

/// The size a region request is enlarged to: converted from an inclusive to
/// an exclusive upper bound, aligned to 4 bytes, and at least 8 bytes.
pub open spec fn spec_granted_size(requested: int) -> int {
    if round_up4(requested + 1) < 8 {
        8
    } else {
        round_up4(requested + 1)
    }
}

/// No populated slot of `s` intersects `[start, start + size)`.
pub open spec fn range_free(s: Seq<Option<PMPRegion>>, start: usize, size: usize) -> bool {
    forall|i: int|
        0 <= i < s.len() && (#[trigger] s[i]) is Some ==> !spec_overlaps(s[i]->0, start, size)
}

impl PMPConfig {
    /// The region that `allocate_region` grants for a request over a window
    /// of `window_size` bytes at `start` with minimum size
    /// `min_region_size`: start rounded up to 4 bytes, size derived from the
    /// larger of the window and the minimum, adjusted by
    /// `spec_granted_size`.
    pub open spec fn spec_allocation(
        start: usize,
        window_size: usize,
        min_region_size: usize,
        permissions: Permissions,
    ) -> PMPRegion {
        PMPRegion {
            start: round_up4(start as int) as usize,
            size: spec_granted_size(spec_max(window_size as int, min_region_size as int)) as usize,
            cfg: spec_cfg_byte(permissions),
        }
    }

    /// Rounds a request up to the hardware granularity: 4-byte aligned
    /// start, inclusive-to-exclusive size adjustment, 4-byte aligned size of
    /// at least 8 bytes.
    fn round_request(start: usize, min_region_size: usize) -> (g: (usize, usize))
        requires
            start + min_region_size + 11 <= usize::MAX,
        ensures
            g.0 == round_up4(start as int),
            g.1 == spec_granted_size(min_region_size as int),
            g.0 + g.1 <= start + min_region_size + 11,
            g.1 > 0,
    {
        let mut aligned_start = start;
        if aligned_start % 4 != 0 {
            aligned_start += 4 - (aligned_start % 4);
        }
        let mut size = min_region_size + 1;
        if size % 4 != 0 {
            size += 4 - (size % 4);
        }
        if size < 8 {
            size = 8;
        }
        (aligned_start, size)
    }

    /// Allocates a fresh logical region.
    ///
    /// The region is sized from the larger of the requested window and the
    /// minimum size, then rounded to the hardware granularity; the call
    /// fails, leaving the configuration untouched, iff the requested window
    /// or the rounded range intersects a populated slot, or no slot below
    /// the capacity is free. On success the granted (possibly enlarged)
    /// range is returned -- callers must use it rather than their request --
    /// the region is inserted, the bank is re-sorted and the configuration
    /// is marked dirty. Successful allocations keep all populated slots
    /// pairwise disjoint.
    pub fn allocate_region(
        &mut self,
        unallocated_memory_start: usize,
        unallocated_memory_size: usize,
        min_region_size: usize,
        permissions: Permissions,
    ) -> (r: Option<Region>)
        requires
            old(self).wf(),
            unallocated_memory_start + unallocated_memory_size + 11 <= usize::MAX,
            unallocated_memory_start + min_region_size + 11 <= usize::MAX,
        ensures
            final(self).wf(),
            (no_overlap(old(self).regions@) ==> no_overlap(final(self).regions@)),
            ({
                let g = Self::spec_allocation(unallocated_memory_start, unallocated_memory_size,
                    min_region_size, permissions);
                &&& (r is Some <==> range_free(old(self).regions@, unallocated_memory_start, unallocated_memory_size)
                        && range_free(old(self).regions@, g.start, g.size)
                        && (exists|n: int| old(self).free_slot(n)))
                &&& (r is Some ==> r->0 == (Region { start: g.start, size: g.size }))
                &&& (r is Some ==> final(self).regions@.to_multiset()
                        == old(self).regions@.to_multiset().insert(Some(g)).remove(None))
                &&& (r is Some ==> final(self).is_dirty)
            }),
            (r is None ==> *final(self) == *old(self)),
            final(self).total_regions == old(self).total_regions,
            final(self).last_configured_for == old(self).last_configured_for,
            (final(self).app_region is Some <==> old(self).app_region is Some),
    {
        // The request covers the larger of the window and the minimum size.
        let size_request = if unallocated_memory_size > min_region_size {
            unallocated_memory_size
        } else {
            min_region_size
        };
        let (granted_start, granted_size) = Self::round_request(unallocated_memory_start,
            size_request);

        let mut idx: usize = 0;
        while idx < MAX_REGION_SLOTS
            invariant
                self == old(self),
                self.wf(),
                idx <= MAX_REGION_SLOTS,
                granted_start == round_up4(unallocated_memory_start as int),
                granted_size == spec_granted_size(spec_max(unallocated_memory_size as int,
                    min_region_size as int)),
                unallocated_memory_start + unallocated_memory_size <= usize::MAX,
                granted_start + granted_size <= usize::MAX,
                forall|i: int|
                    0 <= i < idx && (#[trigger] self.regions@[i]) is Some
                        ==> !spec_overlaps(self.regions@[i]->0, unallocated_memory_start, unallocated_memory_size)
                            && !spec_overlaps(self.regions@[i]->0, granted_start, granted_size),
            decreases MAX_REGION_SLOTS - idx,
        {
            match self.regions[idx] {
                Some(region) => {
                    if region.overlaps(unallocated_memory_start, unallocated_memory_size) {
                        return None;
                    }
                    if region.overlaps(granted_start, granted_size) {
                        return None;
                    }
                }
                None => {}
            }
            idx += 1;
        }

        let region_num = match self.unused_region_number() {
            Some(n) => n,
            None => {
                return None;
            }
        };

        let region = PMPRegion::new(granted_start, granted_size, permissions);

        let ghost before_insert = self.regions@;
        self.regions.set(region_num, Some(region));
        proof {
            broadcast use vstd::seq_lib::group_to_multiset_ensures;

            assert(before_insert[region_num as int] is None);
            assert(self.regions@.to_multiset()
                == before_insert.to_multiset().insert(Some(region)).remove(None));
            if no_overlap(before_insert) {
                assert forall|i: int, j: int|
                    0 <= i < self.regions@.len() && 0 <= j < self.regions@.len() && i != j
                        && self.regions@[i] is Some && self.regions@[j] is Some
                        implies regions_disjoint(#[trigger] self.regions@[i]->0, #[trigger] self.regions@[j]->0) by {
                    if i != region_num && j != region_num {
                        assert(self.regions@[i] == before_insert[i]);
                        assert(self.regions@[j] == before_insert[j]);
                    }
                }
                assert(no_overlap(self.regions@));
            }
        }
        self.mark_dirty();
        self.sort_regions();

        Some(Region { start: granted_start, size: granted_size })
    }
}


/// The larger of two sizes.
pub open spec fn spec_max(a: int, b: int) -> int {
    if a > b {
        a
    } else {
        b
    }
}

impl PMPConfig {
    /// The region that `allocate_app_memory_region` grants: it begins at the
    /// start of the unallocated window and is sized to cover the larger of
    /// the minimum memory size and the initial application plus kernel
    /// shares, adjusted to the hardware granularity.
    pub open spec fn spec_app_allocation(
        start: usize,
        min_memory_size: usize,
        initial_app_memory_size: usize,
        initial_kernel_memory_size: usize,
        permissions: Permissions,
    ) -> PMPRegion {
        PMPRegion {
            start: start,
            size: spec_granted_size(
                spec_max(min_memory_size as int, initial_app_memory_size + initial_kernel_memory_size),
            ) as usize,
            cfg: spec_cfg_byte(permissions),
        }
    }

    /// Allocates (or re-allocates) the one growable application-memory
    /// region of this configuration.
    ///
    /// The call fails, leaving the configuration untouched, iff the sized
    /// memory would exceed the unallocated window, the window or the granted
    /// range intersects a populated slot, or -- when no growable region
    /// exists yet -- no slot below the capacity is free. On success the
    /// granted range -- possibly extending past the window by the rounding
    /// slack, so callers must use it rather than their request -- is
    /// returned, the slot is recorded as the growable region, the bank is
    /// re-sorted and the configuration is marked dirty.
    pub fn allocate_app_memory_region(
        &mut self,
        unallocated_memory_start: usize,
        unallocated_memory_size: usize,
        min_memory_size: usize,
        initial_app_memory_size: usize,
        initial_kernel_memory_size: usize,
        permissions: Permissions,
    ) -> (r: Option<(usize, usize)>)
        requires
            old(self).wf(),
            unallocated_memory_start + unallocated_memory_size + 8 <= usize::MAX,
            initial_app_memory_size + initial_kernel_memory_size <= usize::MAX,
        ensures
            final(self).wf(),
            (no_overlap(old(self).regions@) ==> no_overlap(final(self).regions@)),
            ({
                let g = Self::spec_app_allocation(unallocated_memory_start, min_memory_size,
                    initial_app_memory_size, initial_kernel_memory_size, permissions);
                let fits = spec_max(min_memory_size as int,
                    initial_app_memory_size + initial_kernel_memory_size)
                    <= unallocated_memory_size;
                &&& (r is Some <==> fits
                        && range_free(old(self).regions@, unallocated_memory_start, unallocated_memory_size)
                        && range_free(old(self).regions@, g.start, g.size)
                        && (old(self).app_region is Some || exists|n: int| old(self).free_slot(n)))
                &&& (r is Some ==> r->0 == (g.start, g.size))
                &&& (r is Some ==> final(self).is_dirty && final(self).app_region is Some)
                &&& (r is Some && old(self).app_region is None
                        ==> final(self).regions@.to_multiset()
                            == old(self).regions@.to_multiset().insert(Some(g)).remove(None))
                &&& (r is Some && old(self).app_region is Some
                        ==> final(self).regions@.to_multiset()
                            == old(self).regions@.to_multiset().insert(Some(g)).remove(
                                old(self).regions@[old(self).app_region->0 as int]))
                &&& (r is Some && no_overlap(old(self).regions@)
                        ==> final(self).regions@[final(self).app_region->0 as int] == Some(g))
            }),
            (r is None ==> *final(self) == *old(self)),
            final(self).total_regions == old(self).total_regions,
            final(self).last_configured_for == old(self).last_configured_for,
    {
        let combined = initial_app_memory_size + initial_kernel_memory_size;
        let memory_size = if min_memory_size > combined {
            min_memory_size
        } else {
            combined
        };

        // Make sure there is enough unallocated memory for the application
        // and kernel shares. The bound is on the sized memory itself; the
        // granularity adjustment below may extend the granted range past the
        // window by the rounding slack, which the returned range reports.
        if memory_size > unallocated_memory_size {
            return None;
        }

        let mut region_size = memory_size + 1;
        if region_size % 4 != 0 {
            region_size += 4 - (region_size % 4);
        }
        if region_size < 8 {
            region_size = 8;
        }
        let region_start = unallocated_memory_start;

        // Check that no previously allocated region overlaps the unallocated
        // window or the range about to be granted.
        let mut idx: usize = 0;
        while idx < MAX_REGION_SLOTS
            invariant
                self == old(self),
                self.wf(),
                idx <= MAX_REGION_SLOTS,
                unallocated_memory_start + unallocated_memory_size <= usize::MAX,
                region_start + region_size <= usize::MAX,
                region_start == unallocated_memory_start,
                region_size == spec_granted_size(spec_max(min_memory_size as int,
                    initial_app_memory_size + initial_kernel_memory_size)),
                forall|i: int|
                    0 <= i < idx && (#[trigger] self.regions@[i]) is Some
                        ==> !spec_overlaps(self.regions@[i]->0, unallocated_memory_start, unallocated_memory_size)
                            && !spec_overlaps(self.regions@[i]->0, region_start, region_size),
            decreases MAX_REGION_SLOTS - idx,
        {
            match self.regions[idx] {
                Some(region) => {
                    if region.overlaps(unallocated_memory_start, unallocated_memory_size) {
                        return None;
                    }
                    if region.overlaps(region_start, region_size) {
                        return None;
                    }
                }
                None => {}
            }
            idx += 1;
        }

        // Reuse the growable slot if one is already assigned, otherwise take
        // a fresh slot.
        let region_num = match self.app_region {
            Some(n) => n,
            None => {
                match self.unused_region_number() {
                    Some(n) => n,
                    None => {
                        return None;
                    }
                }
            }
        };

        let region = PMPRegion::new(region_start, region_size, permissions);

        let ghost before_insert = self.regions@;
        self.regions.set(region_num, Some(region));
        self.mark_dirty();
        self.app_region = Some(region_num);
        proof {
            broadcast use vstd::seq_lib::group_to_multiset_ensures;

            assert(self.regions@.to_multiset()
                == before_insert.to_multiset().insert(Some(region)).remove(before_insert[region_num as int]));
            if no_overlap(before_insert) {
                assert forall|i: int, j: int|
                    0 <= i < self.regions@.len() && 0 <= j < self.regions@.len() && i != j
                        && self.regions@[i] is Some && self.regions@[j] is Some
                        implies regions_disjoint(#[trigger] self.regions@[i]->0, #[trigger] self.regions@[j]->0) by {
                    if i != region_num && j != region_num {
                        assert(self.regions@[i] == before_insert[i]);
                        assert(self.regions@[j] == before_insert[j]);
                    }
                }
                assert(no_overlap(self.regions@));
                lemma_no_overlap_distinct(self.regions@);
            }
        }
        let ghost after_insert = self.regions@;
        self.sort_regions();
        proof {
            if no_overlap(before_insert) {
                broadcast use vstd::seq_lib::group_to_multiset_ensures;

                assert(after_insert[region_num as int] == Some(region));
                assert(after_insert.contains(Some(region)));
                assert(self.regions@.to_multiset().count(Some(region)) > 0);
                assert(self.regions@.contains(Some(region)));
                lemma_slot_by_start(self.regions@, self.app_region->0 as int, region);
            }
        }

        Some((region_start, region_size))
    }

    /// Resizes the growable application-memory region after a memory-break
    /// change. `app_memory_break` and `kernel_memory_break` are the new
    /// boundaries of the application-owned and reserved parts, as offsets
    /// from the region's start address.
    ///
    /// Fails with `NotYetAllocated` iff no growable region exists, and with
    /// `OutOfMemory` iff the application boundary exceeds the reserved
    /// boundary; either failure leaves the configuration untouched. On
    /// success the slot keeps its start address, its size is recomputed from
    /// the reserved boundary, and the configuration is marked dirty.
    pub fn update_app_memory_region(
        &mut self,
        app_memory_break: usize,
        kernel_memory_break: usize,
        permissions: Permissions,
    ) -> (r: Result<(), GrowRegionError>)
        requires
            old(self).wf(),
            (old(self).app_region is Some
                ==> old(self).regions@[old(self).app_region->0 as int]->0.start
                    + kernel_memory_break + 11 <= usize::MAX),
        ensures
            final(self).wf(),
            (r == Err::<(), GrowRegionError>(GrowRegionError::NotYetAllocated)
                <==> old(self).app_region is None),
            (r == Err::<(), GrowRegionError>(GrowRegionError::OutOfMemory)
                <==> old(self).app_region is Some && app_memory_break > kernel_memory_break),
            (r is Err ==> *final(self) == *old(self)),
            ({
                let old_app = old(self).regions@[old(self).app_region->0 as int]->0;
                let g = PMPRegion {
                    start: old_app.start,
                    size: spec_granted_size(kernel_memory_break as int) as usize,
                    cfg: spec_cfg_byte(permissions),
                };
                &&& (r is Ok ==> final(self).regions@.to_multiset()
                        == old(self).regions@.to_multiset().insert(Some(g)).remove(Some(old_app)))
                &&& (r is Ok ==> final(self).is_dirty && final(self).app_region is Some)
                &&& (r is Ok && no_overlap(old(self).regions@)
                        ==> final(self).regions@[final(self).app_region->0 as int] == Some(g))
            }),
            final(self).total_regions == old(self).total_regions,
            final(self).last_configured_for == old(self).last_configured_for,
    {
        let region_num = match self.app_region {
            Some(n) => n,
            None => {
                // A process asked to move its memory break before a growable
                // region was ever created.
                return Err(GrowRegionError::NotYetAllocated);
            }
        };

        let old_app = match self.regions[region_num] {
            Some(region) => region,
            None => {
                return Err(GrowRegionError::NotYetAllocated);
            }
        };

        // The application boundary may never pass the reserved boundary.
        if app_memory_break > kernel_memory_break {
            return Err(GrowRegionError::OutOfMemory);
        }

        let mut new_size = kernel_memory_break + 1;
        if new_size % 4 != 0 {
            new_size += 4 - (new_size % 4);
        }
        if new_size < 8 {
            new_size = 8;
        }

        let region = PMPRegion::new(old_app.start, new_size, permissions);

        let ghost before_insert = self.regions@;
        self.regions.set(region_num, Some(region));
        self.mark_dirty();
        proof {
            broadcast use vstd::seq_lib::group_to_multiset_ensures;

            assert(self.regions@.to_multiset()
                == before_insert.to_multiset().insert(Some(region)).remove(Some(old_app)));
            if no_overlap(before_insert) {
                lemma_no_overlap_distinct(before_insert);
                assert forall|i: int, j: int|
                    0 <= i < self.regions@.len() && 0 <= j < self.regions@.len() && i != j
                        && self.regions@[i] is Some && self.regions@[j] is Some
                        implies (#[trigger] self.regions@[i])->0.start
                            != (#[trigger] self.regions@[j])->0.start by {
                    if i != region_num && j != region_num {
                        assert(self.regions@[i] == before_insert[i]);
                        assert(self.regions@[j] == before_insert[j]);
                    } else if i == region_num {
                        assert(self.regions@[j] == before_insert[j]);
                        assert(before_insert[i]->0.start == region.start);
                    } else {
                        assert(self.regions@[i] == before_insert[i]);
                        assert(before_insert[j]->0.start == region.start);
                    }
                }
                assert(distinct_starts(self.regions@));
            }
        }
        let ghost after_insert = self.regions@;
        self.sort_regions();
        proof {
            if no_overlap(before_insert) {
                broadcast use vstd::seq_lib::group_to_multiset_ensures;

                assert(after_insert[region_num as int] == Some(region));
                assert(after_insert.contains(Some(region)));
                assert(self.regions@.to_multiset().count(Some(region)) > 0);
                assert(self.regions@.contains(Some(region)));
                lemma_slot_by_start(self.regions@, self.app_region->0 as int, region);
            }
        }

        Ok(())
    }
}


/// Model of the physical protection register bank: one control byte and one
/// address register per physical entry. Board code maps these values onto
/// the memory-mapped control and address registers; this module is their
/// sole writer through `configure_mpu` and `disable_mpu`.
pub struct PmpRegisters {
    /// Control bytes: read/write/execute bits and the address-matching mode.
    pub cfg: Vec<u8>,
    /// Top-of-range address registers, holding addresses shifted right by
    /// the platform granularity of 4 bytes.
    pub addr: Vec<usize>,
}

/// Control byte of an entry that closes access up to its address
/// (top-of-range matching with no permissions).
pub const PMP_CFG_BARRIER: u8 = 0x08;

/// Control byte of the maximally permissive entry written by `disable_mpu`.
pub const PMP_CFG_ALL_ACCESS: u8 = 0x0f;

impl PmpRegisters {
    /// A register bank of `entries` physical entries, all zeroed.
    pub fn new(entries: usize) -> (hw: PmpRegisters)
        ensures
            hw.cfg@.len() == entries,
            hw.addr@.len() == entries,
            forall|i: int| 0 <= i < entries ==> hw.cfg@[i] == 0u8,
            forall|i: int| 0 <= i < entries ==> hw.addr@[i] == 0usize,
    {
        PmpRegisters { cfg: vec![0u8; entries], addr: vec![0usize; entries] }
    }
}

impl PMPConfig {
    /// The registers of logical slot `x` hold the encoding of region `r`:
    /// entry `2x` closes access up to the region start, entry `2x + 1`
    /// grants the region's permissions up to its end.
    pub open spec fn slot_programmed(hw: PmpRegisters, x: int, r: PMPRegion) -> bool {
        &&& hw.cfg@[2 * x] == PMP_CFG_BARRIER
        &&& hw.addr@[2 * x] == r.start >> 2usize
        &&& hw.cfg@[2 * x + 1] == r.cfg
        &&& hw.addr@[2 * x + 1] == ((r.start + r.size) as usize) >> 2usize
    }

    /// Writes this configuration into the protection registers for process
    /// `app_id`, skipping the hardware entirely -- the memoised fast path --
    /// when the registers already hold this configuration for this process:
    /// the same process was configured last and nothing changed since.
    ///
    /// Returns whether any hardware write was performed. After a performed
    /// write every populated slot is programmed, empty slots and entries
    /// beyond the capacity keep their previous register values, the dirty
    /// flag is clear and the process is recorded as last configured.
    pub fn configure_mpu(&mut self, app_id: AppId, hw: &mut PmpRegisters) -> (wrote: bool)
        requires
            old(self).wf(),
            old(hw).cfg@.len() >= 2 * old(self).total_regions,
            old(hw).addr@.len() >= 2 * old(self).total_regions,
        ensures
            final(self).wf(),
            wrote == !(old(self).last_configured_for == Some(app_id) && !old(self).is_dirty),
            (!wrote ==> *final(hw) == *old(hw) && *final(self) == *old(self)),
            (wrote ==> *final(self) == (PMPConfig {
                is_dirty: false,
                last_configured_for: Some(app_id),
                ..*old(self)
            })),
            final(hw).cfg@.len() == old(hw).cfg@.len(),
            final(hw).addr@.len() == old(hw).addr@.len(),
            (wrote ==> forall|x: int|
                0 <= x < old(self).total_regions && (#[trigger] old(self).regions@[x]) is Some
                    ==> Self::slot_programmed(*final(hw), x, old(self).regions@[x]->0)),
            (wrote ==> forall|x: int|
                0 <= x < old(self).total_regions && (#[trigger] old(self).regions@[x]) is None
                    ==> final(hw).cfg@[2 * x] == old(hw).cfg@[2 * x]
                        && final(hw).addr@[2 * x] == old(hw).addr@[2 * x]
                        && final(hw).cfg@[2 * x + 1] == old(hw).cfg@[2 * x + 1]
                        && final(hw).addr@[2 * x + 1] == old(hw).addr@[2 * x + 1]),
            (forall|j: int|
                2 * old(self).total_regions <= j < old(hw).cfg@.len()
                    ==> final(hw).cfg@[j] == #[trigger] old(hw).cfg@[j]),
            (forall|j: int|
                2 * old(self).total_regions <= j < old(hw).addr@.len()
                    ==> final(hw).addr@[j] == #[trigger] old(hw).addr@[j]),
    {
        // Is the hardware already configured for this process, with no
        // change since? Then skip the register writes.
        let already_configured = match self.last_configured_for {
            Some(last) => last == app_id,
            None => false,
        };
        if already_configured && !self.is_dirty {
            return false;
        }

        let mut x: usize = 0;
        while x < self.total_regions
            invariant
                self == old(self),
                self.wf(),
                x <= self.total_regions,
                hw.cfg@.len() == old(hw).cfg@.len(),
                hw.addr@.len() == old(hw).addr@.len(),
                hw.cfg@.len() >= 2 * self.total_regions,
                hw.addr@.len() >= 2 * self.total_regions,
                forall|i: int|
                    0 <= i < x && (#[trigger] self.regions@[i]) is Some
                        ==> Self::slot_programmed(*hw, i, self.regions@[i]->0),
                forall|i: int|
                    0 <= i < x && (#[trigger] self.regions@[i]) is None
                        ==> hw.cfg@[2 * i] == old(hw).cfg@[2 * i]
                            && hw.addr@[2 * i] == old(hw).addr@[2 * i]
                            && hw.cfg@[2 * i + 1] == old(hw).cfg@[2 * i + 1]
                            && hw.addr@[2 * i + 1] == old(hw).addr@[2 * i + 1],
                forall|j: int|
                    2 * x <= j < hw.cfg@.len() ==> hw.cfg@[j] == #[trigger] old(hw).cfg@[j],
                forall|j: int|
                    2 * x <= j < hw.addr@.len() ==> hw.addr@[j] == #[trigger] old(hw).addr@[j],
            decreases self.total_regions - x,
        {
            match self.regions[x] {
                Some(r) => {
                    // Close access up to the start address, then grant the
                    // region's permissions up to its end address.
                    hw.cfg.set(2 * x, PMP_CFG_BARRIER);
                    hw.addr.set(2 * x, r.start >> 2);
                    hw.cfg.set(2 * x + 1, r.cfg);
                    hw.addr.set(2 * x + 1, (r.start + r.size) >> 2);
                }
                None => {}
            }
            x += 1;
        }

        self.is_dirty = false;
        self.last_configured_for = Some(app_id);
        true
    }

    /// Resets the protection registers to a single maximally permissive
    /// entry spanning the whole address space, and forgets which process was
    /// last configured, so that the next `configure_mpu` call is forced to
    /// reprogram the hardware.
    pub fn disable_mpu(&mut self, hw: &mut PmpRegisters)
        requires
            old(self).wf(),
            old(self).total_regions >= 1,
            old(hw).cfg@.len() >= 2 * old(self).total_regions,
            old(hw).addr@.len() >= 2 * old(self).total_regions,
        ensures
            final(self).wf(),
            *final(self) == (PMPConfig { last_configured_for: None, ..*old(self) }),
            final(hw).cfg@.len() == old(hw).cfg@.len(),
            final(hw).addr@.len() == old(hw).addr@.len(),
            final(hw).cfg@[0] == PMP_CFG_ALL_ACCESS,
            final(hw).addr@[0] == usize::MAX,
            (forall|x: int|
                1 <= x < 2 * old(self).total_regions
                    ==> final(hw).cfg@[x] == 0u8 && final(hw).addr@[x] == 0usize),
            (forall|j: int|
                2 * old(self).total_regions <= j < old(hw).cfg@.len()
                    ==> final(hw).cfg@[j] == #[trigger] old(hw).cfg@[j]),
            (forall|j: int|
                2 * old(self).total_regions <= j < old(hw).addr@.len()
                    ==> final(hw).addr@[j] == #[trigger] old(hw).addr@[j]),
    {
        let mut x: usize = 0;
        while x < 2 * self.total_regions
            invariant
                self == old(self),
                self.wf(),
                x <= 2 * self.total_regions,
                hw.cfg@.len() == old(hw).cfg@.len(),
                hw.addr@.len() == old(hw).addr@.len(),
                hw.cfg@.len() >= 2 * self.total_regions,
                hw.addr@.len() >= 2 * self.total_regions,
                forall|i: int| 0 <= i < x ==> hw.cfg@[i] == 0u8 && hw.addr@[i] == 0usize,
                forall|j: int|
                    x <= j < hw.cfg@.len() ==> hw.cfg@[j] == #[trigger] old(hw).cfg@[j],
                forall|j: int|
                    x <= j < hw.addr@.len() ==> hw.addr@[j] == #[trigger] old(hw).addr@[j],
            decreases 2 * self.total_regions - x,
        {
            hw.cfg.set(x, 0);
            hw.addr.set(x, 0);
            x += 1;
        }

        // One entry with all permissions covering the entire address space.
        hw.addr.set(0, usize::MAX);
        hw.cfg.set(0, PMP_CFG_ALL_ACCESS);

        // The hardware is no longer configured for any particular process.
        self.last_configured_for = None;
    }

    /// Enabling needs no register work in this model: a written
    /// configuration is in force as soon as `configure_mpu` stores it.
    pub fn enable_mpu(&self) {
    }
}

/// No-overlap invariant: every pair of populated slots of an overlap-free
/// configuration covers disjoint half-open address ranges. The allocation
/// operations establish `no_overlap` on an empty configuration and preserve
/// it on every successful call, so the property holds along any sequence of
/// allocations.
pub proof fn lemma_no_overlap_pairwise(c: PMPConfig, i: int, j: int)
    requires
        no_overlap(c.regions@),
        0 <= i < c.regions@.len(),
        0 <= j < c.regions@.len(),
        i != j,
        c.regions@[i] is Some,
        c.regions@[j] is Some,
    ensures
        c.regions@[i]->0.start + c.regions@[i]->0.size <= c.regions@[j]->0.start
            || c.regions@[j]->0.start + c.regions@[j]->0.size <= c.regions@[i]->0.start,
{
    assert(regions_disjoint(c.regions@[i]->0, c.regions@[j]->0));
}

/// Capacity bound: an allocation can find a slot exactly as long as some
/// slot below `total_regions` is still empty, and -- because populated
/// slots sort to the front of the bank -- that is the case exactly as long
/// as the last slot below the capacity is empty. Together with the exact
/// success condition of `allocate_region` this pins down when the region
/// capacity is exhausted: each successful allocation fills one slot, so
/// requests past the capacity are refused.
pub proof fn lemma_capacity_bound(c: PMPConfig)
    requires
        c.wf(),
        c.total_regions >= 1,
    ensures
        (exists|n: int| c.free_slot(n))
            <==> (exists|n: int| 0 <= n < c.total_regions && c.regions@[n] is None),
        (exists|n: int| c.free_slot(n)) <==> c.regions@[c.total_regions - 1] is None,
{
    if exists|n: int| 0 <= n < c.total_regions && c.regions@[n] is None {
        let n = choose|n: int| 0 <= n < c.total_regions && c.regions@[n] is None;
        match c.app_region {
            Some(a) => {
                assert(c.regions@[a as int] is Some);
                assert(c.free_slot(n));
            }
            None => {
                assert(c.free_slot(n));
            }
        }
        // Empty slots sort behind populated ones, so the last slot below
        // the capacity is empty as well.
        if n < c.total_regions - 1 {
            assert(slot_key(c.regions@[n]) <= slot_key(c.regions@[c.total_regions - 1]));
            if c.regions@[c.total_regions - 1] is Some {
                // A populated slot keys below an empty one.
                assert(region_wf(c.regions@[c.total_regions - 1]->0));
                assert(false);
            }
        }
    }
}

} // verus!
