//! Initialisation of the key-value store over stub flash controllers.

use std::cell::Cell;
use tock_core::error_codes::ErrorCode;
use tock_core::flash_controller::FlashController;
use tock_core::tickfs::{TickFS, LEN_OFFSET, VERSION, VERSION_OFFSET};

/// The store marker written on fresh flash: version byte, live flag set,
/// total length of a value-less object. The key-hash and checksum bytes
/// depend on the store's hash function and are pinned by `build_object`'s
/// contract instead.
fn check_region_main(buf: &[u8]) {
    // Check the version
    assert_eq!(buf[VERSION_OFFSET], VERSION);

    // Check the length
    assert_eq!(buf[LEN_OFFSET], 0x80);
    assert_eq!(buf[LEN_OFFSET + 1], 19);
}

/// A flash controller that always reads blank flash and accepts every write.
struct FlashCtrl {}

impl FlashCtrl {
    fn new() -> Self {
        Self {}
    }
}

impl FlashController for FlashCtrl {
    fn read_region(
        &self,
        _region_number: usize,
        _offset: usize,
        buf: &mut Vec<u8>,
    ) -> Result<(), ErrorCode> {
        for b in buf.iter_mut() {
            *b = 0xFF;
        }
        Ok(())
    }

    fn write(&self, _address: usize, buf: &[u8]) -> Result<(), ErrorCode> {
        check_region_main(buf);
        Ok(())
    }

    fn erase_region(&self, _region_number: usize) -> Result<(), ErrorCode> {
        Ok(())
    }
}

#[test]
fn test_init() {
    let read_buf: Vec<u8> = vec![0; 2048];
    TickFS::<FlashCtrl>::new(FlashCtrl::new(), read_buf, 0x20000, 0x800).unwrap();
}

/// A flash controller that checks no region is erased a second time.
struct SingleEraseFlashCtrl {
    run: Cell<u8>,
}

impl SingleEraseFlashCtrl {
    fn new() -> Self {
        Self { run: Cell::new(0) }
    }
}

impl FlashController for SingleEraseFlashCtrl {
    fn read_region(
        &self,
        _region_number: usize,
        _offset: usize,
        buf: &mut Vec<u8>,
    ) -> Result<(), ErrorCode> {
        for b in buf.iter_mut() {
            *b = 0xFF;
        }
        Ok(())
    }

    fn write(&self, _address: usize, buf: &[u8]) -> Result<(), ErrorCode> {
        check_region_main(buf);
        Ok(())
    }

    fn erase_region(&self, _region_number: usize) -> Result<(), ErrorCode> {
        // There are 64 regions, ensure this doesn't erase any a second time
        assert_ne!(self.run.get(), 64);
        self.run.set(self.run.get() + 1);
        Ok(())
    }
}

#[test]
fn test_double_init() {
    let read_buf1: Vec<u8> = vec![0; 2048];
    TickFS::<SingleEraseFlashCtrl>::new(SingleEraseFlashCtrl::new(), read_buf1, 0x20000, 0x800)
        .unwrap();

    let read_buf2: Vec<u8> = vec![0; 2048];
    TickFS::<SingleEraseFlashCtrl>::new(SingleEraseFlashCtrl::new(), read_buf2, 0x20000, 0x800)
        .unwrap();
}
