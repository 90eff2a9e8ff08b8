//! Error paths and on-flash format details of the key-value store.

use std::cell::RefCell;
use tock_core::error_codes::ErrorCode;
use tock_core::flash_controller::FlashController;
use tock_core::tickfs::{
    build_object, find_object, hash_key, region_end, TickFS, HASH_OFFSET, LEN_OFFSET,
    OBJECT_OVERHEAD, VERSION, VERSION_OFFSET,
};

/// An in-memory flash of 4 regions of 256 bytes whose operations can be
/// forced to fail.
struct FlashCtrl {
    buf: RefCell<Vec<Vec<u8>>>,
    fail_reads: RefCell<bool>,
    fail_writes: RefCell<bool>,
    fail_erases: RefCell<bool>,
}

impl FlashCtrl {
    fn new() -> Self {
        Self {
            buf: RefCell::new(vec![vec![0xFF; 256]; 4]),
            fail_reads: RefCell::new(false),
            fail_writes: RefCell::new(false),
            fail_erases: RefCell::new(false),
        }
    }
}

impl FlashController for FlashCtrl {
    fn read_region(
        &self,
        region_number: usize,
        offset: usize,
        buf: &mut Vec<u8>,
    ) -> Result<(), ErrorCode> {
        if *self.fail_reads.borrow() {
            return Err(ErrorCode::ReadFail);
        }
        for (i, b) in buf.iter_mut().enumerate() {
            *b = self.buf.borrow()[region_number][offset + i];
        }
        Ok(())
    }

    fn write(&self, address: usize, buf: &[u8]) -> Result<(), ErrorCode> {
        if *self.fail_writes.borrow() {
            return Err(ErrorCode::WriteFail);
        }
        for (i, d) in buf.iter().enumerate() {
            self.buf.borrow_mut()[address / 256][(address % 256) + i] = *d;
        }
        Ok(())
    }

    fn erase_region(&self, region_number: usize) -> Result<(), ErrorCode> {
        if *self.fail_erases.borrow() {
            return Err(ErrorCode::EraseFail);
        }
        for d in self.buf.borrow_mut()[region_number].iter_mut() {
            *d = 0xFF;
        }
        Ok(())
    }
}

#[test]
fn geometry_is_checked() {
    // A region too small for one object.
    assert!(matches!(
        TickFS::<FlashCtrl>::new(FlashCtrl::new(), vec![0; 8], 0x400, 8),
        Err(ErrorCode::CorruptData)
    ));
    // A region longer than the length field can record.
    assert!(matches!(
        TickFS::<FlashCtrl>::new(FlashCtrl::new(), vec![0; 0x10000], 0x20000, 0x10000),
        Err(ErrorCode::CorruptData)
    ));
    // A scratch buffer of the wrong size.
    assert!(matches!(
        TickFS::<FlashCtrl>::new(FlashCtrl::new(), vec![0; 128], 0x400, 0x100),
        Err(ErrorCode::BufferTooSmall)
    ));
    // Flash smaller than one region.
    assert!(matches!(
        TickFS::<FlashCtrl>::new(FlashCtrl::new(), vec![0; 0x100], 0x80, 0x100),
        Err(ErrorCode::CorruptData)
    ));
}

#[test]
fn controller_errors_propagate() {
    let ctrl = FlashCtrl::new();
    *ctrl.fail_reads.borrow_mut() = true;
    assert_eq!(
        TickFS::<FlashCtrl>::new(ctrl, vec![0; 256], 0x400, 0x100).err(),
        Some(ErrorCode::ReadFail)
    );

    let ctrl = FlashCtrl::new();
    *ctrl.fail_erases.borrow_mut() = true;
    assert_eq!(
        TickFS::<FlashCtrl>::new(ctrl, vec![0; 256], 0x400, 0x100).err(),
        Some(ErrorCode::EraseFail)
    );

    let mut tickfs =
        TickFS::<FlashCtrl>::new(FlashCtrl::new(), vec![0; 256], 0x400, 0x100).unwrap();
    *tickfs.controller.fail_writes.borrow_mut() = true;
    assert_eq!(
        tickfs.append_key(b"ONE", &[1, 2, 3]),
        Err(ErrorCode::WriteFail)
    );
}

#[test]
fn object_too_large_and_buffer_too_small() {
    let mut tickfs =
        TickFS::<FlashCtrl>::new(FlashCtrl::new(), vec![0; 256], 0x400, 0x100).unwrap();
    // 256 - 19 bytes of value fit; one more does not.
    let too_big = vec![0x11; 256 - OBJECT_OVERHEAD + 1];
    assert_eq!(
        tickfs.append_key(b"BIG", &too_big),
        Err(ErrorCode::ObjectTooLarge)
    );

    tickfs.append_key(b"ONE", &[1, 2, 3, 4]).unwrap();
    let mut small: Vec<u8> = vec![0; 3];
    assert_eq!(
        tickfs.get_key(b"ONE", &mut small),
        Err(ErrorCode::BufferTooSmall)
    );
    // A roomier buffer takes the value in its front.
    let mut roomy: Vec<u8> = vec![0xaa; 6];
    tickfs.get_key(b"ONE", &mut roomy).unwrap();
    assert_eq!(roomy, vec![1, 2, 3, 4, 0xaa, 0xaa]);
}

#[test]
fn corrupted_value_fails_its_checksum() {
    let mut tickfs =
        TickFS::<FlashCtrl>::new(FlashCtrl::new(), vec![0; 256], 0x400, 0x100).unwrap();
    tickfs.append_key(b"ONE", &[9, 9, 9, 9]).unwrap();

    // Flip one value byte behind the store's back, inside ONE's region.
    let region = (hash_key(b"ONE") % 4) as usize;
    {
        let mut flash = tickfs.controller.buf.borrow_mut();
        let row = &mut flash[region];
        // The region holds exactly one object; its value starts after the
        // 11 header bytes.
        row[11] ^= 0xff;
    }

    let mut buf: Vec<u8> = vec![0; 4];
    assert_eq!(
        tickfs.get_key(b"ONE", &mut buf),
        Err(ErrorCode::InvalidCheckSum)
    );
}

#[test]
fn object_format_round_trip() {
    let hash = hash_key(b"KEY");
    let value = [5u8, 6, 7];
    let object = build_object(hash, &value);
    assert_eq!(object.len(), OBJECT_OVERHEAD + 3);
    assert_eq!(object[VERSION_OFFSET], VERSION);
    // Live flag set, 15-bit length 22.
    assert_eq!(object[LEN_OFFSET], 0x80);
    assert_eq!(object[LEN_OFFSET + 1], 22);
    // The key hash sits after the length, little endian.
    assert_eq!(object[HASH_OFFSET], (hash % 256) as u8);

    // Walking a region image that holds this object finds it.
    let mut region = object.clone();
    region.resize(128, 0xff);
    assert_eq!(find_object(&region, hash), Some((0, 22)));
    assert_eq!(find_object(&region, hash ^ 1), None);
    assert_eq!(region_end(&region), 22);

    // A cleared live flag hides the object from the scan.
    region[LEN_OFFSET] = 0x00;
    assert_eq!(find_object(&region, hash), None);
    assert_eq!(region_end(&region), 22);
}
