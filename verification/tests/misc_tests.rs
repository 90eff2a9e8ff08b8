//! Checksums, bus address encodings, flash latency and application-memory
//! slices.

use tock_core::bus::{Bus8080Bus, Bus8080Width, BusAddr16BE, BusAddr16LE, BusAddr32BE, BusAddr64LE, BusAddr8, DataWidth, ErrorCode, SpiMasterBus};
use tock_core::chip_specific::FlashLatency;
use tock_core::chip_specific::SpecificFlashTrait;
use tock_core::crc32::Crc32;
use tock_core::gpio::{GPIOPin, Pin};
use tock_core::mem::{AppSlice, Shared};
use tock_core::pmp::AppId;
use tock_core::process_load::{parse_tbf_header_lengths, HeaderInfo, ProcessLoader};
use tock_core::tickfs::hash_key;

#[test]
fn crc32_posix_check_value() {
    let mut crc = Crc32::new();
    crc.update(b"123456789");
    assert_eq!(crc.finalise(), 0x765e7680);
}

#[test]
fn crc32_update_in_pieces() {
    let mut one = Crc32::new();
    one.update(b"1234");
    one.update(b"56789");
    let mut whole = Crc32::new();
    whole.update(b"123456789");
    assert_eq!(one.finalise(), whole.finalise());
}

#[test]
fn fnv1a_hash_values() {
    // The offset basis hashes the empty key.
    assert_eq!(hash_key(b""), 0xcbf29ce484222325);
    assert_eq!(hash_key(b"MAIN"), 0x5f8363af6d647bc8);
    assert_eq!(hash_key(b"ONE"), 0x2fa4ea19bf26cd8f);
}

#[test]
fn bus_addr_encodings() {
    assert_eq!(BusAddr8::new(0x7f).0, vec![0x7f]);
    assert_eq!(BusAddr16LE::new(0x1234).0, vec![0x34, 0x12]);
    assert_eq!(BusAddr16BE::new(0x1234).0, vec![0x12, 0x34]);
    assert_eq!(BusAddr32BE::new(0x01020304).0, vec![0x01, 0x02, 0x03, 0x04]);
    assert_eq!(
        BusAddr64LE::new(0x0102030405060708).0,
        vec![0x08, 0x07, 0x06, 0x05, 0x04, 0x03, 0x02, 0x01]
    );
}

#[test]
fn data_width_in_bytes() {
    assert_eq!(DataWidth::Bits8.width_in_bytes(), 1);
    assert_eq!(DataWidth::Bits16LE.width_in_bytes(), 2);
    assert_eq!(DataWidth::Bits32BE.width_in_bytes(), 4);
    assert_eq!(DataWidth::Bits64LE.width_in_bytes(), 8);
}

#[test]
fn bus8080_width_conversion() {
    assert_eq!(
        Bus8080Bus::<DummyParallel>::to_bus8080_width(DataWidth::Bits16BE),
        Some(Bus8080Width::Bits16BE)
    );
    assert_eq!(
        Bus8080Bus::<DummyParallel>::to_bus8080_width(DataWidth::Bits32LE),
        None
    );
}

struct DummyParallel;

impl tock_core::bus::Bus8080 for DummyParallel {
    fn set_addr(&self, _addr: Vec<u8>) -> Result<(), tock_core::bus::ErrorCode> {
        Ok(())
    }
    fn write(
        &self,
        _width: Bus8080Width,
        _buffer: Vec<u8>,
        _len: usize,
    ) -> Result<(), (tock_core::bus::ErrorCode, Vec<u8>)> {
        Ok(())
    }
    fn read(
        &self,
        _width: Bus8080Width,
        _buffer: Vec<u8>,
        _len: usize,
    ) -> Result<(), (tock_core::bus::ErrorCode, Vec<u8>)> {
        Ok(())
    }
}

struct HostFlash {
    latency: u32,
}

impl SpecificFlashTrait for HostFlash {
    fn read_latency_from_register(&self) -> u32 {
        self.latency
    }
}

#[test]
fn flash_latency_mapping() {
    let flash = HostFlash { latency: 3 };
    assert_eq!(
        flash.get_number_wait_cycles_based_on_frequency(30),
        FlashLatency::Latency0
    );
    assert_eq!(
        flash.get_number_wait_cycles_based_on_frequency(31),
        FlashLatency::Latency1
    );
    assert_eq!(
        flash.get_number_wait_cycles_based_on_frequency(168),
        FlashLatency::Latency5
    );
    assert_eq!(flash.get_latency(), FlashLatency::Latency3);
    let odd = HostFlash { latency: 99 };
    assert_eq!(odd.get_latency(), FlashLatency::Latency15);
}

#[test]
fn app_slice_views() {
    let owner = AppId { id: 1 };
    let slice: AppSlice<Shared, u8> = AppSlice::new(0x2000, vec![1, 2, 3, 4, 5], owner);
    assert_eq!(slice.len(), 5);
    assert_eq!(slice.ptr(), 0x2000);
    assert_eq!(slice.iter(), vec![1, 2, 3, 4, 5]);
    let chunks = slice.chunks(2);
    assert_eq!(chunks, vec![vec![1, 2], vec![3, 4], vec![5]]);
}

#[test]
fn app_slice_mutation() {
    let owner = AppId { id: 1 };
    let mut slice: AppSlice<Shared, u8> = AppSlice::new(0x2000, vec![1, 2, 3], owner);
    slice.iter_mut()[0] = 9;
    assert_eq!(slice.iter(), vec![9, 2, 3]);
    let chunks = slice.chunks_mut(4);
    assert_eq!(chunks, vec![vec![9, 2, 3]]);
}

#[test]
fn tbf_header_parsing() {
    // Blank flash means no application starts here.
    let blank = vec![0xff; 16];
    assert_eq!(parse_tbf_header_lengths(&blank, 0), HeaderInfo::UnableToParse);

    // Version 2, header length 0x40, total length 0x1000.
    let mut header = vec![0u8; 16];
    header[0] = 2;
    header[2] = 0x40;
    header[6] = 0x10;
    assert_eq!(
        parse_tbf_header_lengths(&header, 0),
        HeaderInfo::Valid(2, 0x40, 0x100000)
    );

    // An unknown version still reports how far to skip.
    header[0] = 1;
    assert_eq!(
        parse_tbf_header_lengths(&header, 0),
        HeaderInfo::InvalidHeader(0x100000)
    );
}

#[test]
fn find_writable_flash_gap() {
    // Application flash [0x1000, 0x2000): one loaded application of 0x100
    // bytes at the start, blank flash after it.
    let mut loader = ProcessLoader::init(4, 0x1000, 0x2000, 0x20000000);
    let mut flash = vec![0xff_u8; 0x1000];
    for b in flash.iter_mut().take(8) {
        *b = 0;
    }
    flash[0] = 2;
    flash[2] = 0x40;
    flash[5] = 0x1; // total length 0x100
    loader.appsize_requested = 0x100;
    loader.process_region_start_address[0] = 0x1000;
    loader.process_region_size[0] = 0x100;
    loader.index = 1;

    assert_eq!(loader.find_dynamic_start_address_of_writable_flash(&flash), Ok(()));
    assert_eq!(loader.dynamic_flash_start_addr, 0x1100);
}

#[test]
fn gpio_pin_identity() {
    let pin = GPIOPin::new(Pin::PB07);
    assert_eq!(pin.pin, Pin::PB07);
}

struct RecordingSpi {
    calls: std::cell::RefCell<Vec<usize>>,
}

impl tock_core::bus::SpiMasterDevice for RecordingSpi {
    fn configure(
        &self,
        _cpol: tock_core::bus::ClockPolarity,
        _cpal: tock_core::bus::ClockPhase,
        _rate: u32,
    ) -> Result<(), tock_core::bus::ErrorCode> {
        Ok(())
    }
    fn read_write_bytes(
        &self,
        _write_buffer: Vec<u8>,
        _read_buffer: Option<Vec<u8>>,
        len: usize,
    ) -> Result<(), (tock_core::bus::ErrorCode, Vec<u8>, Option<Vec<u8>>)> {
        self.calls.borrow_mut().push(len);
        Ok(())
    }
}

#[test]
fn spi_bus_write_and_completion() {
    let spi = RecordingSpi {
        calls: std::cell::RefCell::new(Vec::new()),
    };
    let mut bus = SpiMasterBus::new(spi, vec![0; 4]);

    // The serialised address lands in the address buffer.
    bus.set_addr(BusAddr16BE::new(0x0102)).unwrap();
    let (delivered, moved, status) = bus.read_write_done(vec![0x01, 0x02, 0, 0], None, 2, Ok(()));
    assert!(delivered.is_none());
    assert_eq!(moved, 0);
    assert_eq!(status, Ok(()));

    // A write of 3 items of 2 bytes each asks the transport for 6 bytes.
    bus.write(DataWidth::Bits16LE, vec![0; 8], 3).unwrap();
    assert_eq!(*bus.spi.calls.borrow(), vec![6]);
    let (delivered, moved, status) = bus.read_write_done(vec![0; 8], None, 6, Ok(()));
    assert_eq!(delivered.unwrap().len(), 8);
    assert_eq!(moved, 3);
    assert_eq!(status, Ok(()));

    // A request the buffer cannot hold comes straight back.
    match bus.write(DataWidth::Bits64LE, vec![0; 8], 2) {
        Err((ErrorCode::NOMEM, buffer)) => assert_eq!(buffer.len(), 8),
        _ => panic!("expected the oversized write to be refused"),
    }
}
