//! Protection and scheduling core of a small embedded kernel.
//!
//! The crate collects the pieces of the kernel that carry real invariants:
//! the physical-memory-protection (PMP) region allocator and its
//! hardware-synchronisation logic, the cooperative process scheduling step,
//! the virtualised log multiplexer, and the key-value flash store, together
//! with the small data types the surrounding board code exposes.

pub mod async_ops;
pub mod board;
pub mod bus;
pub mod chip_specific;
pub mod clock;
pub mod components;
pub mod crc32;
pub mod error_codes;
pub mod flash_controller;
pub mod gpio;
pub mod interrupt_service;
pub mod mem;
pub mod nmea_i2c;
pub mod pmp;
pub mod process_load;
pub mod sched;
pub mod tickfs;
pub mod virtual_log;
