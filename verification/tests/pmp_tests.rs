//! The protection-region allocator: overlap rejection, capacity, rounding,
//! growable-region resizing and the memoised hardware writes.

use tock_core::pmp::{
    AppId, GrowRegionError, PMPConfig, PMPRegion, Permissions, PmpRegisters, Region,
};

fn populated(config: &PMPConfig) -> Vec<PMPRegion> {
    let mut out = Vec::new();
    for slot in config.regions.iter() {
        if let Some(region) = slot {
            out.push(*region);
        }
    }
    out
}

/// Every pair of populated slots stays disjoint over a whole sequence of
/// successful allocations.
#[test]
fn no_overlap_over_allocation_sequence() {
    let mut config = PMPConfig::new(16);
    assert!(config
        .allocate_region(0x1000, 0x200, 0x100, Permissions::ReadOnly)
        .is_some());
    assert!(config
        .allocate_app_memory_region(0x4000, 0x400, 0x100, 0x50, 0x20, Permissions::ReadWriteOnly)
        .is_some());
    assert!(config
        .allocate_region(0x2000, 0x200, 0x100, Permissions::ReadWriteExecute)
        .is_some());
    assert!(config
        .allocate_region(0x8000, 0x200, 0x180, Permissions::ExecuteOnly)
        .is_some());

    let regions = populated(&config);
    assert_eq!(regions.len(), 4);
    for i in 0..regions.len() {
        for j in 0..regions.len() {
            if i != j {
                let a = regions[i];
                let b = regions[j];
                assert!(a.start + a.size <= b.start || b.start + b.size <= a.start);
            }
        }
    }
    // The bank stays sorted by start address.
    for w in regions.windows(2) {
        assert!(w[0].start < w[1].start);
    }
}

/// A configuration of `region_capacity` slots takes exactly that many
/// non-overlapping regions; one more is refused with a capacity failure.
#[test]
fn capacity_bound() {
    // 8 physical entries make 4 logical regions.
    let mut config = PMPConfig::new(8);
    assert_eq!(config.number_total_regions(), 4);
    for i in 0..4 {
        let r = config.allocate_region(0x1000 * (i + 1), 0x200, 0x100, Permissions::ReadOnly);
        assert!(r.is_some());
    }
    assert_eq!(
        config.allocate_region(0x20000, 0x200, 0x100, Permissions::ReadOnly),
        None
    );
}

/// Requests are sized from the larger of the window and the minimum, then
/// rounded: start up to 4 bytes, the inclusive end converted to an exclusive
/// one, sizes aligned to 4 and at least 8 bytes.
#[test]
fn allocation_rounding() {
    let mut config = PMPConfig::new(16);
    let granted = config
        .allocate_region(0x1001, 0x100, 0x41, Permissions::ReadOnly)
        .unwrap();
    assert_eq!(
        granted,
        Region {
            start: 0x1004,
            size: 0x104
        }
    );
    let tiny = config
        .allocate_region(0x3000, 0x4, 0x2, Permissions::ReadOnly)
        .unwrap();
    assert_eq!(tiny, Region { start: 0x3000, size: 8 });
}

/// Region A of 0x400 bytes granted at 0x2000 (0x404 after the
/// inclusive-to-exclusive adjustment), region B inside A's range rejected:
/// B's range [0x2200, 0x2300) lies inside A's [0x2000, 0x2400).
#[test]
fn overlap_rejection_example() {
    let mut config = PMPConfig::new(16);
    let a = config
        .allocate_region(0x2000, 0x400, 0x100, Permissions::ReadWriteOnly)
        .unwrap();
    assert_eq!(a.start, 0x2000);
    assert_eq!(a.size, 0x404);
    let b = config.allocate_region(0x2200, 0x100, 0x100, Permissions::ReadOnly);
    assert_eq!(b, None);
}

/// The growable region resizes to the new reserved boundary; a request with
/// the application boundary past the reserved one fails with out-of-memory
/// and leaves the descriptor untouched.
#[test]
fn growable_region_resize() {
    let mut config = PMPConfig::new(16);
    let granted = config
        .allocate_app_memory_region(0x1000, 0x100, 0x100, 0x50, 0x20, Permissions::ReadWriteOnly)
        .unwrap();
    assert_eq!(granted, (0x1000, 0x104));

    assert_eq!(
        config.update_app_memory_region(0x200, 0x220, Permissions::ReadWriteOnly),
        Ok(())
    );
    let slot = config.app_region.unwrap();
    let region = config.regions[slot].unwrap();
    assert_eq!(region.start, 0x1000);
    assert_eq!(region.size, 0x224);

    assert_eq!(
        config.update_app_memory_region(0x300, 0x200, Permissions::ReadWriteOnly),
        Err(GrowRegionError::OutOfMemory)
    );
    let slot = config.app_region.unwrap();
    let region = config.regions[slot].unwrap();
    assert_eq!(region.start, 0x1000);
    assert_eq!(region.size, 0x224);
}

/// A default configuration is empty, dirty and sized for the reference
/// chip's eight logical regions.
#[test]
fn default_configuration() {
    let config = PMPConfig::default();
    assert_eq!(config.number_total_regions(), 8);
    assert!(config.is_dirty);
    assert_eq!(config.last_configured_for, None);
    assert_eq!(config.app_region, None);
    assert!(populated(&config).is_empty());
}

/// Applying an empty configuration records the process and clears the dirty
/// flag without programming any slot.
#[test]
fn apply_empty_configuration() {
    let mut config = PMPConfig::new(16);
    let mut hw = PmpRegisters::new(16);
    let wrote = config.configure_mpu(AppId { id: 1 }, &mut hw);
    assert!(wrote);
    assert!(hw.cfg.iter().all(|b| *b == 0));
    assert!(hw.addr.iter().all(|a| *a == 0));
    assert!(!config.is_dirty);
    assert_eq!(config.last_configured_for, Some(AppId { id: 1 }));
    // The growable region can still not be resized: none exists.
    assert_eq!(
        config.update_app_memory_region(0, 0x10, Permissions::ReadWriteOnly),
        Err(GrowRegionError::NotYetAllocated)
    );
}

/// A growable region whose required memory exceeds the candidate window is
/// refused; one sized exactly to the window is granted, the returned range
/// carrying the granularity slack.
#[test]
fn growable_region_must_fit_window() {
    let mut config = PMPConfig::new(16);
    // 0x101 bytes are required, the window offers 0x100.
    assert_eq!(
        config.allocate_app_memory_region(0x1000, 0x100, 0x101, 0x50, 0x20,
            Permissions::ReadWriteOnly),
        None
    );
    // Sized exactly to the window: granted, enlarged by the adjustment.
    assert_eq!(
        config.allocate_app_memory_region(0x1000, 0x100, 0x100, 0x50, 0x20,
            Permissions::ReadWriteOnly),
        Some((0x1000, 0x104))
    );
}

/// Growing before any growable region exists is refused.
#[test]
fn grow_before_allocate() {
    let mut config = PMPConfig::new(16);
    assert_eq!(
        config.update_app_memory_region(0x10, 0x20, Permissions::ReadWriteOnly),
        Err(GrowRegionError::NotYetAllocated)
    );
}

/// The second apply for the same process writes no hardware register; any
/// mutation in between forces a full rewrite.
#[test]
fn idempotent_apply_and_dirty_rewrite() {
    let mut config = PMPConfig::new(16);
    let mut hw = PmpRegisters::new(16);
    let process = AppId { id: 7 };

    config
        .allocate_region(0x1000, 0x200, 0x100, Permissions::ReadOnly)
        .unwrap();

    // First apply writes the registers.
    let wrote = config.configure_mpu(process, &mut hw);
    assert!(wrote);
    let cfg_snapshot = hw.cfg.clone();
    let addr_snapshot = hw.addr.clone();
    // Region [0x1000, 0x1204): entry 0 closes access up to the start,
    // entry 1 grants read up to the end.
    assert_eq!(hw.cfg[0], 0x08);
    assert_eq!(hw.addr[0], 0x1000 >> 2);
    assert_eq!(hw.cfg[1], 0x09);
    assert_eq!(hw.addr[1], (0x1000 + 0x204) >> 2);

    // Second apply for the same process: zero hardware writes.
    let wrote = config.configure_mpu(process, &mut hw);
    assert!(!wrote);
    assert_eq!(hw.cfg, cfg_snapshot);
    assert_eq!(hw.addr, addr_snapshot);

    // A mutation forces a rewrite even for the same process.
    config
        .allocate_region(0x2000, 0x200, 0x100, Permissions::ReadWriteOnly)
        .unwrap();
    let wrote = config.configure_mpu(process, &mut hw);
    assert!(wrote);

    // A different process forces a rewrite as well.
    let wrote = config.configure_mpu(AppId { id: 8 }, &mut hw);
    assert!(wrote);
}

/// Disabling resets the registers to one all-access entry over the whole
/// address space and forgets the configured process, so the next apply
/// reprograms the hardware.
#[test]
fn disable_resets_registers() {
    let mut config = PMPConfig::new(16);
    let mut hw = PmpRegisters::new(16);
    let process = AppId { id: 3 };

    config
        .allocate_region(0x1000, 0x200, 0x100, Permissions::ReadOnly)
        .unwrap();
    assert!(config.configure_mpu(process, &mut hw));

    config.disable_mpu(&mut hw);
    assert_eq!(hw.cfg[0], 0x0f);
    assert_eq!(hw.addr[0], usize::MAX);
    for x in 1..16 {
        assert_eq!(hw.cfg[x], 0);
        assert_eq!(hw.addr[x], 0);
    }
    assert_eq!(config.last_configured_for, None);

    // The next apply must write again.
    assert!(config.configure_mpu(process, &mut hw));
}
