//! Key-value store operations over a flash controller that stores data.

use std::cell::{Cell, RefCell};
use tock_core::error_codes::ErrorCode;
use tock_core::flash_controller::FlashController;
use tock_core::tickfs::{TickFS, HASH_OFFSET, LEN_OFFSET, VERSION, VERSION_OFFSET};

/// The store marker: version byte, live flag set, total length of a
/// value-less object. The key-hash and checksum bytes depend on the store's
/// hash function and are pinned by `build_object`'s contract instead.
fn check_region_main(buf: &[u8]) {
    // Check the version
    assert_eq!(buf[VERSION_OFFSET], VERSION);

    // Check the length
    assert_eq!(buf[LEN_OFFSET], 0x80);
    assert_eq!(buf[LEN_OFFSET + 1], 19);
}

/// An object carrying a 32-byte value of 0x23 bytes: version, flagged
/// length, and value bytes at the start, middle and end of the value.
fn check_region_value_object(buf: &[u8]) {
    // Check the version
    assert_eq!(buf[VERSION_OFFSET], VERSION);

    // Check the length
    assert_eq!(buf[LEN_OFFSET], 0x80);
    assert_eq!(buf[LEN_OFFSET + 1], 51);

    // Check the value
    assert_eq!(buf[HASH_OFFSET + 8], 0x23);
    assert_eq!(buf[28], 0x23);
    assert_eq!(buf[42], 0x23);
}

/// An in-memory flash of 64 regions of 1024 bytes, checking the layout of
/// the first objects written.
struct FlashCtrl {
    buf: RefCell<Vec<Vec<u8>>>,
    run: Cell<u8>,
}

impl FlashCtrl {
    fn new() -> Self {
        Self {
            buf: RefCell::new(vec![vec![0xFF; 1024]; 64]),
            run: Cell::new(0),
        }
    }
}

impl FlashController for FlashCtrl {
    fn read_region(
        &self,
        region_number: usize,
        offset: usize,
        buf: &mut Vec<u8>,
    ) -> Result<(), ErrorCode> {
        println!("Read from region: {}", region_number);
        for (i, b) in buf.iter_mut().enumerate() {
            *b = self.buf.borrow()[region_number][offset + i];
        }
        Ok(())
    }

    fn write(&self, address: usize, buf: &[u8]) -> Result<(), ErrorCode> {
        println!(
            "Write to address: {:#x}, region: {}",
            address,
            address / 1024
        );
        for (i, d) in buf.iter().enumerate() {
            self.buf.borrow_mut()[address / 1024][(address % 1024) + i] = *d;
        }

        // Check to see if we are adding a key
        if buf.len() > 1 {
            if self.run.get() == 0 {
                println!("Writing main key: {:#x?}", buf);
                check_region_main(buf);
            } else if self.run.get() == 1 {
                println!("Writing key ONE: {:#x?}", buf);
                check_region_value_object(buf);
            } else if self.run.get() == 2 {
                println!("Writing key TWO: {:#x?}", buf);
                check_region_value_object(buf);
            }
        }

        self.run.set(self.run.get() + 1);

        Ok(())
    }

    fn erase_region(&self, region_number: usize) -> Result<(), ErrorCode> {
        println!("Erase region: {}", region_number);
        for d in self.buf.borrow_mut()[region_number].iter_mut() {
            *d = 0xFF;
        }
        Ok(())
    }
}

#[test]
fn tests_test_simple_append() {
    let read_buf: Vec<u8> = vec![0; 1024];
    let mut tickfs =
        TickFS::<FlashCtrl>::new(FlashCtrl::new(), read_buf, 0x10000, 0x400).unwrap();

    let value: [u8; 32] = [0x23; 32];

    tickfs.append_key(b"ONE", &value).unwrap();
    tickfs.append_key(b"TWO", &value).unwrap();
}

#[test]
fn tests_test_double_append() {
    let read_buf: Vec<u8> = vec![0; 1024];
    let mut tickfs =
        TickFS::<FlashCtrl>::new(FlashCtrl::new(), read_buf, 0x10000, 0x400).unwrap();

    let value: [u8; 32] = [0x23; 32];
    let mut buf: Vec<u8> = vec![0; 32];

    println!("Add key ONE");
    tickfs.append_key(b"ONE", &value).unwrap();

    println!("Get key ONE");
    tickfs.get_key(b"ONE", &mut buf).unwrap();

    println!("Get non-existant key TWO");
    assert_eq!(
        tickfs.get_key(b"TWO", &mut buf),
        Err(ErrorCode::KeyNotFound)
    );

    println!("Add key ONE again");
    assert_eq!(
        tickfs.append_key(b"ONE", &value),
        Err(ErrorCode::KeyAlreadyExists)
    );

    println!("Add key TWO");
    tickfs.append_key(b"TWO", &value).unwrap();
    println!("Get key ONE");
    tickfs.get_key(b"ONE", &mut buf).unwrap();
    println!("Get key TWO");
    tickfs.get_key(b"TWO", &mut buf).unwrap();

    println!("Get non-existant key THREE");
    assert_eq!(
        tickfs.get_key(b"THREE", &mut buf),
        Err(ErrorCode::KeyNotFound)
    );
}

#[test]
fn test_append_and_delete() {
    let read_buf: Vec<u8> = vec![0; 1024];
    let mut tickfs =
        TickFS::<FlashCtrl>::new(FlashCtrl::new(), read_buf, 0x10000, 0x400).unwrap();

    let value: [u8; 32] = [0x23; 32];
    let mut buf: Vec<u8> = vec![0; 32];

    println!("Add Key ONE");
    tickfs.append_key(b"ONE", &value).unwrap();

    println!("Get key ONE");
    tickfs.get_key(b"ONE", &mut buf).unwrap();

    println!("Delete Key ONE");
    tickfs.invalidate_key(b"ONE").unwrap();

    println!("Get non-existant key ONE");
    assert_eq!(
        tickfs.get_key(b"ONE", &mut buf),
        Err(ErrorCode::KeyNotFound)
    );

    println!("Try to delete Key ONE Again");
    assert_eq!(tickfs.invalidate_key(b"ONE"), Err(ErrorCode::KeyNotFound));
}

#[test]
fn test_garbage_collect() {
    let read_buf: Vec<u8> = vec![0; 1024];
    let mut tickfs =
        TickFS::<FlashCtrl>::new(FlashCtrl::new(), read_buf, 0x10000, 0x400).unwrap();

    let value: [u8; 32] = [0x23; 32];
    let mut buf: Vec<u8> = vec![0; 32];

    println!("Garbage collect empty flash");
    assert_eq!(tickfs.garbage_collect(), Ok(0));

    println!("Add Key ONE");
    tickfs.append_key(b"ONE", &value).unwrap();

    println!("Garbage collect flash with valid key");
    assert_eq!(tickfs.garbage_collect(), Ok(0));

    println!("Delete Key ONE");
    tickfs.invalidate_key(b"ONE").unwrap();

    println!("Garbage collect flash with deleted key");
    assert_eq!(tickfs.garbage_collect(), Ok(1024));

    println!("Get non-existant key ONE");
    assert_eq!(
        tickfs.get_key(b"ONE", &mut buf),
        Err(ErrorCode::KeyNotFound)
    );

    println!("Add Key ONE");
    tickfs.append_key(b"ONE", &value).unwrap();
}
