//! Filling the key-value store until the flash runs out.

use std::cell::RefCell;
use tock_core::error_codes::ErrorCode;
use tock_core::flash_controller::FlashController;
use tock_core::tickfs::TickFS;

/// An in-memory flash of 2 regions of 256 bytes.
struct FlashCtrl {
    buf: RefCell<Vec<Vec<u8>>>,
}

impl FlashCtrl {
    fn new() -> Self {
        Self {
            buf: RefCell::new(vec![vec![0xFF; 256]; 2]),
        }
    }
}

impl FlashController for FlashCtrl {
    fn read_region(
        &self,
        region_number: usize,
        offset: usize,
        buf: &mut Vec<u8>,
    ) -> Result<(), ErrorCode> {
        println!("Read from region: {}", region_number);
        for (i, b) in buf.iter_mut().enumerate() {
            *b = self.buf.borrow()[region_number][offset + i];
        }
        Ok(())
    }

    fn write(&self, address: usize, buf: &[u8]) -> Result<(), ErrorCode> {
        println!(
            "Write to address: {:#x}, region: {}",
            address,
            address / 256
        );
        for (i, d) in buf.iter().enumerate() {
            self.buf.borrow_mut()[address / 256][(address % 256) + i] = *d;
        }
        Ok(())
    }

    fn erase_region(&self, region_number: usize) -> Result<(), ErrorCode> {
        println!("Erase region: {}", region_number);
        for d in self.buf.borrow_mut()[region_number].iter_mut() {
            *d = 0xFF;
        }
        Ok(())
    }
}

#[test]
fn test_region_full() {
    let read_buf: Vec<u8> = vec![0; 256];
    let mut tickfs = TickFS::<FlashCtrl>::new(FlashCtrl::new(), read_buf, 0x200, 0x100).unwrap();

    let value: [u8; 64] = [0x23; 64];
    let mut buf: Vec<u8> = vec![0; 64];

    println!("Add Key ONE");
    tickfs.append_key(b"ONE", &value).unwrap();

    println!("Add Key TWO");
    tickfs.append_key(b"TWO", &value).unwrap();

    println!("Add Key THREE");
    tickfs.append_key(b"THREE", &value).unwrap();

    println!("Add Key FOUR");
    tickfs.append_key(b"FOUR", &value).unwrap();

    println!("Add Key FIVE");
    tickfs.append_key(b"FIVE", &value).unwrap();

    println!("Add Key SIX");
    assert_eq!(
        tickfs.append_key(b"SIX", &value),
        Err(ErrorCode::FlashFull)
    );

    println!("Get key ONE");
    tickfs.get_key(b"ONE", &mut buf).unwrap();

    println!("Get key TWO");
    tickfs.get_key(b"TWO", &mut buf).unwrap();

    println!("Get key THREE");
    tickfs.get_key(b"THREE", &mut buf).unwrap();

    println!("Get key FOUR");
    tickfs.get_key(b"FOUR", &mut buf).unwrap();

    println!("Get key FIVE");
    tickfs.get_key(b"FIVE", &mut buf).unwrap();

    println!("Get key SIX");
    assert_eq!(
        tickfs.get_key(b"SIX", &mut buf),
        Err(ErrorCode::KeyNotFound)
    );

    println!("Delete Key ONE");
    tickfs.invalidate_key(b"ONE").unwrap();

    println!("Delete Key TWO");
    tickfs.invalidate_key(b"TWO").unwrap();

    println!("Delete Key THREE");
    tickfs.invalidate_key(b"THREE").unwrap();

    println!("Delete Key FOUR");
    tickfs.invalidate_key(b"FOUR").unwrap();

    println!("Delete Key FIVE");
    tickfs.invalidate_key(b"FIVE").unwrap();

    println!("Delete Key SIX");
    assert_eq!(tickfs.invalidate_key(b"SIX"), Err(ErrorCode::KeyNotFound));
}
