//! The key-value store over an asynchronous flash controller: every first
//! access to a region reports not-ready, and the operation is continued once
//! the flash caught up.

use std::cell::{Cell, RefCell};
use tock_core::async_ops::AsyncTickFS;
use tock_core::error_codes::ErrorCode;
use tock_core::flash_controller::FlashController;

/// An in-memory flash of 64 regions of 1024 bytes whose reads and erases
/// report not-ready the first time a new region is touched.
struct FlashCtrl {
    buf: RefCell<Vec<Vec<u8>>>,
    async_read_region: Cell<usize>,
    async_erase_region: Cell<usize>,
}

impl FlashCtrl {
    fn new() -> Self {
        Self {
            buf: RefCell::new(vec![vec![0xFF; 1024]; 64]),
            async_read_region: Cell::new(100),
            async_erase_region: Cell::new(100),
        }
    }
}

impl FlashController for FlashCtrl {
    fn read_region(
        &self,
        region_number: usize,
        offset: usize,
        buf: &mut Vec<u8>,
    ) -> Result<(), ErrorCode> {
        println!("Read from region: {}", region_number);
        if self.async_read_region.get() != region_number {
            // Pretend that we aren't ready
            self.async_read_region.set(region_number);
            println!("  Not ready");
            return Err(ErrorCode::ReadNotReady(region_number));
        }
        for (i, b) in buf.iter_mut().enumerate() {
            *b = self.buf.borrow()[region_number][offset + i];
        }
        Ok(())
    }

    fn write(&self, address: usize, buf: &[u8]) -> Result<(), ErrorCode> {
        println!(
            "Write to address: {:#x}, region: {}",
            address,
            address / 1024
        );
        for (i, d) in buf.iter().enumerate() {
            self.buf.borrow_mut()[address / 1024][(address % 1024) + i] = *d;
        }
        Ok(())
    }

    fn erase_region(&self, region_number: usize) -> Result<(), ErrorCode> {
        println!("Erase region: {}", region_number);
        if self.async_erase_region.get() != region_number {
            // Pretend that we aren't ready
            self.async_erase_region.set(region_number);
            return Err(ErrorCode::EraseNotReady(region_number));
        }
        for d in self.buf.borrow_mut()[region_number].iter_mut() {
            *d = 0xFF;
        }
        Ok(())
    }
}

#[test]
fn async_ops_test_simple_append() {
    let read_buf: Vec<u8> = vec![0; 1024];
    let mut tickfs =
        AsyncTickFS::<FlashCtrl>::new(FlashCtrl::new(), read_buf, 0x1000, 0x400).unwrap();

    let mut ret = tickfs.initalise();
    while ret.is_err() {
        // There is no actual delay in the test, just continue now
        ret = tickfs.continue_initalise();
    }

    let value: [u8; 32] = [0x23; 32];

    let ret = tickfs.append_key(b"ONE", &value);
    match ret {
        Err(ErrorCode::ReadNotReady(_reg)) => {
            // There is no actual delay in the test, just continue now
            tickfs
                .continue_operation(Some(b"ONE"), Some(&value), None)
                .unwrap();
        }
        Ok(()) => {}
        _ => unreachable!(),
    }

    let ret = tickfs.append_key(b"TWO", &value);
    match ret {
        Err(ErrorCode::ReadNotReady(_reg)) => {
            // There is no actual delay in the test, just continue now
            tickfs
                .continue_operation(Some(b"TWO"), Some(&value), None)
                .unwrap();
        }
        Ok(()) => {}
        _ => unreachable!(),
    }
}

#[test]
fn async_ops_test_double_append() {
    let read_buf: Vec<u8> = vec![0; 1024];
    let mut tickfs =
        AsyncTickFS::<FlashCtrl>::new(FlashCtrl::new(), read_buf, 0x10000, 0x400).unwrap();

    let mut ret = tickfs.initalise();
    while ret.is_err() {
        // There is no actual delay in the test, just continue now
        ret = tickfs.continue_initalise();
    }

    let value: [u8; 32] = [0x23; 32];
    let mut buf: Vec<u8> = vec![0; 32];

    println!("Add key ONE");
    let ret = tickfs.append_key(b"ONE", &value);
    match ret {
        Err(ErrorCode::ReadNotReady(_reg)) => {
            // There is no actual delay in the test, just continue now
            tickfs
                .continue_operation(Some(b"ONE"), Some(&value), None)
                .unwrap();
        }
        Ok(()) => {}
        _ => unreachable!(),
    }

    println!("Get key ONE");
    tickfs.get_key(b"ONE", &mut buf).unwrap();

    println!("Get non-existant key TWO");
    let ret = tickfs.get_key(b"TWO", &mut buf);
    match ret {
        Err(ErrorCode::ReadNotReady(_reg)) => {
            // There is no actual delay in the test, just continue now
            assert_eq!(
                tickfs.continue_operation(Some(b"ONE"), None, Some(&mut buf)),
                Err(ErrorCode::KeyNotFound)
            );
        }
        Err(ErrorCode::KeyNotFound) => {}
        _ => unreachable!(),
    }

    println!("Add key ONE again");
    let ret = tickfs.append_key(b"ONE", &value);
    match ret {
        Err(ErrorCode::ReadNotReady(_reg)) => {
            // There is no actual delay in the test, just continue now
            assert_eq!(
                tickfs.continue_operation(Some(b"ONE"), Some(&value), None),
                Err(ErrorCode::KeyAlreadyExists)
            );
        }
        Err(ErrorCode::KeyAlreadyExists) => {}
        _ => unreachable!(),
    }
}
