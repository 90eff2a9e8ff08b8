//! Abstraction interface for several byte-oriented busses, useful for
//! devices that speak multiple protocols.
//!
//! A `Bus` carries addressed reads and writes over an underlying SPI, I2C or
//! 8080-style transport. Addresses are typed by width and endianness; the
//! bus serialises them into a held address buffer. Data operations are
//! split-phase: the bus hands the transfer to the underlying transport,
//! which reports completion to the registered client; here the transports
//! are traits the platform implements, and each bus is the state machine
//! in front of one of them.

use vstd::prelude::*;

verus! {

/// Status codes of bus operations.
#[derive(Copy, Clone, PartialEq, Eq, Structural, Debug)]
#[allow(non_camel_case_types)]
pub enum ErrorCode {
    /// No buffer is available, or the buffer cannot hold the request.
    NOMEM,
    /// The value does not fit the target.
    SIZE,
    /// The request is not expressible on this bus.
    INVAL,
    /// The underlying transport failed.
    FAIL,
}

/// Width and endianness of the data items moved over a bus.
#[derive(Copy, Clone, PartialEq, Eq, Structural, Debug)]
pub enum DataWidth {
    Bits8,
    Bits16LE,
    Bits16BE,
    Bits32LE,
    Bits32BE,
    Bits64LE,
    Bits64BE,
}

/// Bytes a data item of width `w` occupies.
pub open spec fn spec_width_in_bytes(w: DataWidth) -> int {
    match w {
        DataWidth::Bits8 => 1,
        DataWidth::Bits16BE | DataWidth::Bits16LE => 2,
        DataWidth::Bits32BE | DataWidth::Bits32LE => 4,
        DataWidth::Bits64BE | DataWidth::Bits64LE => 8,
    }
}

impl DataWidth {
    /// The number of bytes one data item of this width occupies.
    pub fn width_in_bytes(&self) -> (n: usize)
        ensures
            n == spec_width_in_bytes(*self),
            1 <= n <= 8,
    {
        match self {
            DataWidth::Bits8 => 1,
            DataWidth::Bits16BE | DataWidth::Bits16LE => 2,
            DataWidth::Bits32BE | DataWidth::Bits32LE => 4,
            DataWidth::Bits64BE | DataWidth::Bits64LE => 8,
        }
    }
}

/// The `n` little-endian bytes of `v`, lowest byte first.
pub open spec fn le_bytes_of(v: int, n: int) -> Seq<u8>
    decreases n,
{
    if n <= 0 {
        Seq::empty()
    } else {
        seq![(v % 256) as u8] + le_bytes_of(v / 256, n - 1)
    }
}

/// The `n` big-endian bytes of `v`: the little-endian bytes reversed.
pub open spec fn be_bytes_of(v: int, n: int) -> Seq<u8> {
    le_bytes_of(v, n).reverse()
}

/// A one-byte bus address.
pub struct BusAddr8(pub Vec<u8>);

/// A two-byte big-endian bus address.
pub struct BusAddr16BE(pub Vec<u8>);

/// A two-byte little-endian bus address.
pub struct BusAddr16LE(pub Vec<u8>);

/// A four-byte big-endian bus address.
pub struct BusAddr32BE(pub Vec<u8>);

/// A four-byte little-endian bus address.
pub struct BusAddr32LE(pub Vec<u8>);

/// An eight-byte big-endian bus address.
pub struct BusAddr64BE(pub Vec<u8>);

/// An eight-byte little-endian bus address.
pub struct BusAddr64LE(pub Vec<u8>);

/// A typed bus address: its width and its serialised bytes.
pub trait BusAddr {
    /// The width of this address kind.
    fn data_width(&self) -> DataWidth;

    /// The address bytes, in the order they go onto the bus.
    fn bytes(&self) -> &Vec<u8>;
}

impl BusAddr8 {
    /// The address `value`, serialised as its one byte.
    pub fn new(value: u8) -> (a: BusAddr8)
        ensures
            a.0@ == le_bytes_of(value as int, 1),
    {
        let mut bytes: Vec<u8> = Vec::new();
        bytes.push(value);
        proof {
            reveal_with_fuel(le_bytes_of, 10);
            assert(bytes@ =~= le_bytes_of(value as int, 1));
        }
        BusAddr8(bytes)
    }
}

impl BusAddr for BusAddr8 {
    fn data_width(&self) -> (w: DataWidth)
        ensures
            w == DataWidth::Bits8,
    {
        DataWidth::Bits8
    }

    fn bytes(&self) -> (b: &Vec<u8>)
        ensures
            b@ == self.0@,
    {
        &self.0
    }
}

impl BusAddr16LE {
    /// The address `value`, serialised lowest byte first.
    pub fn new(value: u16) -> (a: BusAddr16LE)
        ensures
            a.0@ == le_bytes_of(value as int, 2),
    {
        let mut bytes: Vec<u8> = Vec::new();
        bytes.push((value % 256) as u8);
        bytes.push((value / 256) as u8);
        proof {
            reveal_with_fuel(le_bytes_of, 10);
            assert(bytes@ =~= le_bytes_of(value as int, 2));
        }
        BusAddr16LE(bytes)
    }
}

impl BusAddr for BusAddr16LE {
    fn data_width(&self) -> (w: DataWidth)
        ensures
            w == DataWidth::Bits16LE,
    {
        DataWidth::Bits16LE
    }

    fn bytes(&self) -> (b: &Vec<u8>)
        ensures
            b@ == self.0@,
    {
        &self.0
    }
}

impl BusAddr16BE {
    /// The address `value`, serialised highest byte first.
    pub fn new(value: u16) -> (a: BusAddr16BE)
        ensures
            a.0@ == be_bytes_of(value as int, 2),
    {
        let mut bytes: Vec<u8> = Vec::new();
        bytes.push((value / 256) as u8);
        bytes.push((value % 256) as u8);
        proof {
            reveal_with_fuel(le_bytes_of, 10);
            assert(bytes@ =~= le_bytes_of(value as int, 2).reverse());
        }
        BusAddr16BE(bytes)
    }
}

impl BusAddr for BusAddr16BE {
    fn data_width(&self) -> (w: DataWidth)
        ensures
            w == DataWidth::Bits16BE,
    {
        DataWidth::Bits16BE
    }

    fn bytes(&self) -> (b: &Vec<u8>)
        ensures
            b@ == self.0@,
    {
        &self.0
    }
}

impl BusAddr32LE {
    /// The address `value`, serialised lowest byte first.
    pub fn new(value: u32) -> (a: BusAddr32LE)
        ensures
            a.0@ == le_bytes_of(value as int, 4),
    {
        let mut bytes: Vec<u8> = Vec::new();
        bytes.push((value % 256) as u8);
        bytes.push(((value / 256) % 256) as u8);
        bytes.push(((value / 0x10000) % 256) as u8);
        bytes.push((value / 0x1000000) as u8);
        proof {
            reveal_with_fuel(le_bytes_of, 10);
            assert(bytes@ =~= le_bytes_of(value as int, 4));
        }
        BusAddr32LE(bytes)
    }
}

impl BusAddr for BusAddr32LE {
    fn data_width(&self) -> (w: DataWidth)
        ensures
            w == DataWidth::Bits32LE,
    {
        DataWidth::Bits32LE
    }

    fn bytes(&self) -> (b: &Vec<u8>)
        ensures
            b@ == self.0@,
    {
        &self.0
    }
}

impl BusAddr32BE {
    /// The address `value`, serialised highest byte first.
    pub fn new(value: u32) -> (a: BusAddr32BE)
        ensures
            a.0@ == be_bytes_of(value as int, 4),
    {
        let mut bytes: Vec<u8> = Vec::new();
        bytes.push((value / 0x1000000) as u8);
        bytes.push(((value / 0x10000) % 256) as u8);
        bytes.push(((value / 256) % 256) as u8);
        bytes.push((value % 256) as u8);
        proof {
            reveal_with_fuel(le_bytes_of, 10);
            assert(bytes@ =~= le_bytes_of(value as int, 4).reverse());
        }
        BusAddr32BE(bytes)
    }
}

impl BusAddr for BusAddr32BE {
    fn data_width(&self) -> (w: DataWidth)
        ensures
            w == DataWidth::Bits32BE,
    {
        DataWidth::Bits32BE
    }

    fn bytes(&self) -> (b: &Vec<u8>)
        ensures
            b@ == self.0@,
    {
        &self.0
    }
}

impl BusAddr64LE {
    /// The address `value`, serialised lowest byte first.
    pub fn new(value: u64) -> (a: BusAddr64LE)
        ensures
            a.0@ == le_bytes_of(value as int, 8),
    {
        let mut bytes: Vec<u8> = Vec::new();
        bytes.push((value % 256) as u8);
        bytes.push(((value / 256) % 256) as u8);
        bytes.push(((value / 0x10000) % 256) as u8);
        bytes.push(((value / 0x1000000) % 256) as u8);
        bytes.push(((value / 0x100000000) % 256) as u8);
        bytes.push(((value / 0x10000000000) % 256) as u8);
        bytes.push(((value / 0x1000000000000) % 256) as u8);
        bytes.push((value / 0x100000000000000) as u8);
        proof {
            reveal_with_fuel(le_bytes_of, 10);
            assert(bytes@ =~= le_bytes_of(value as int, 8));
        }
        BusAddr64LE(bytes)
    }
}

impl BusAddr for BusAddr64LE {
    fn data_width(&self) -> (w: DataWidth)
        ensures
            w == DataWidth::Bits64LE,
    {
        DataWidth::Bits64LE
    }

    fn bytes(&self) -> (b: &Vec<u8>)
        ensures
            b@ == self.0@,
    {
        &self.0
    }
}

impl BusAddr64BE {
    /// The address `value`, serialised highest byte first.
    pub fn new(value: u64) -> (a: BusAddr64BE)
        ensures
            a.0@ == be_bytes_of(value as int, 8),
    {
        let mut bytes: Vec<u8> = Vec::new();
        bytes.push((value / 0x100000000000000) as u8);
        bytes.push(((value / 0x1000000000000) % 256) as u8);
        bytes.push(((value / 0x10000000000) % 256) as u8);
        bytes.push(((value / 0x100000000) % 256) as u8);
        bytes.push(((value / 0x1000000) % 256) as u8);
        bytes.push(((value / 0x10000) % 256) as u8);
        bytes.push(((value / 256) % 256) as u8);
        bytes.push((value % 256) as u8);
        proof {
            reveal_with_fuel(le_bytes_of, 10);
            assert(bytes@ =~= le_bytes_of(value as int, 8).reverse());
        }
        BusAddr64BE(bytes)
    }
}

impl BusAddr for BusAddr64BE {
    fn data_width(&self) -> (w: DataWidth)
        ensures
            w == DataWidth::Bits64BE,
    {
        DataWidth::Bits64BE
    }

    fn bytes(&self) -> (b: &Vec<u8>)
        ensures
            b@ == self.0@,
    {
        &self.0
    }
}

/// Clock polarity of an SPI transport.
#[derive(Copy, Clone, PartialEq, Eq, Structural, Debug)]
pub enum ClockPolarity {
    IdleLow,
    IdleHigh,
}

/// Clock phase of an SPI transport.
#[derive(Copy, Clone, PartialEq, Eq, Structural, Debug)]
pub enum ClockPhase {
    SampleLeading,
    SampleTrailing,
}

/// An SPI device the platform provides; transfers are split-phase and
/// complete through the bus's `read_write_done`.
pub trait SpiMasterDevice {
    /// Configures polarity, phase and clock rate.
    fn configure(&self, cpol: ClockPolarity, cpal: ClockPhase, rate: u32) -> (r: Result<
        (),
        ErrorCode,
    >);

    /// Starts writing `len` bytes from `write_buffer`, reading the exchanged
    /// bytes into `read_buffer` when one is given. On refusal both buffers
    /// come back with the error.
    fn read_write_bytes(&self, write_buffer: Vec<u8>, read_buffer: Option<Vec<u8>>, len: usize)
        -> (r: Result<(), (ErrorCode, Vec<u8>, Option<Vec<u8>>)>);
}

/// An I2C device the platform provides; transfers are split-phase and
/// complete through the bus's `command_complete`.
pub trait I2CDevice {
    /// Starts writing `len` bytes from `buffer` to the device.
    fn write(&self, buffer: Vec<u8>, len: usize) -> (r: Result<(), (ErrorCode, Vec<u8>)>);

    /// Starts reading `len` bytes from the device into `buffer`.
    fn read(&self, buffer: Vec<u8>, len: usize) -> (r: Result<(), (ErrorCode, Vec<u8>)>);
}

/// Widths an 8080-style parallel transport can move.
#[derive(Copy, Clone, PartialEq, Eq, Structural, Debug)]
pub enum Bus8080Width {
    Bits8,
    Bits16LE,
    Bits16BE,
}

/// An 8080-style parallel transport the platform provides.
pub trait Bus8080 {
    /// Latches the address bytes.
    fn set_addr(&self, addr: Vec<u8>) -> (r: Result<(), ErrorCode>);

    /// Starts writing `len` items of width `width` from `buffer`.
    fn write(&self, width: Bus8080Width, buffer: Vec<u8>, len: usize) -> (r: Result<
        (),
        (ErrorCode, Vec<u8>),
    >);

    /// Starts reading `len` items of width `width` into `buffer`.
    fn read(&self, width: Bus8080Width, buffer: Vec<u8>, len: usize) -> (r: Result<
        (),
        (ErrorCode, Vec<u8>),
    >);
}

/// Completion interface of a bus: called when a set_addr, write or read
/// finishes. `set_addr` returns no buffer; write and read return theirs,
/// with `len` the number of data items moved.
pub trait Client {
    fn command_complete(&mut self, buffer: Option<Vec<u8>>, len: usize, status: Result<
        (),
        ErrorCode,
    >);
}

/// What a bus is currently doing.
#[derive(Copy, Clone, PartialEq, Eq, Structural, Debug)]
pub enum BusStatus {
    Idle,
    SetAddress,
    Write,
    Read,
}

/// Scaling a length by a positive item width crosses `cap` exactly when
/// the length crosses `cap / bytes`.
proof fn lemma_scale_bound(len: int, bytes: int, cap: int)
    requires
        bytes >= 1,
        cap >= 0,
        len >= 0,
    ensures
        (len <= cap / bytes ==> len * bytes <= cap),
        (len > cap / bytes ==> len * bytes > cap),
{
    vstd::arithmetic::div_mod::lemma_fundamental_div_mod(cap, bytes);
    vstd::arithmetic::div_mod::lemma_mod_bound(cap, bytes);
    let q = cap / bytes;
    if len <= q {
        vstd::arithmetic::mul::lemma_mul_inequality(len, q, bytes);
        assert(q * bytes == bytes * q) by (nonlinear_arith);
    } else {
        vstd::arithmetic::mul::lemma_mul_inequality(q + 1, len, bytes);
        assert((q + 1) * bytes == q * bytes + bytes) by (nonlinear_arith);
        assert(q * bytes == bytes * q) by (nonlinear_arith);
    }
}

/// `len * bytes` when that stays within `cap`; `None` otherwise.
fn scaled_len(len: usize, bytes: usize, cap: usize) -> (r: Option<usize>)
    requires
        1 <= bytes,
    ensures
        (r is Some <==> len * bytes <= cap),
        (r is Some ==> r->0 == len * bytes),
{
    proof {
        lemma_scale_bound(len as int, bytes as int, cap as int);
    }
    if len > cap / bytes {
        None
    } else {
        Some(len * bytes)
    }
}

/// The bus in front of an SPI transport.
pub struct SpiMasterBus<S: SpiMasterDevice> {
    /// The underlying SPI device.
    pub spi: S,
    /// Scratch buffer for reads: written bytes come from here.
    pub read_write_buffer: Option<Vec<u8>>,
    /// Width of the items of the transfer in flight.
    pub bus_width: usize,
    /// Buffer the serialised address is sent from.
    pub addr_buffer: Option<Vec<u8>>,
    /// What the bus is currently doing.
    pub status: BusStatus,
}

impl<S: SpiMasterDevice> SpiMasterBus<S> {
    /// A bus over `spi` that serialises addresses into `addr_buffer`.
    pub fn new(spi: S, addr_buffer: Vec<u8>) -> (bus: SpiMasterBus<S>)
        ensures
            bus.spi == spi,
            bus.read_write_buffer is None,
            bus.bus_width == 1,
            bus.addr_buffer matches Some(b) && b@ == addr_buffer@,
            bus.status == BusStatus::Idle,
    {
        SpiMasterBus {
            spi,
            read_write_buffer: None,
            bus_width: 1,
            addr_buffer: Some(addr_buffer),
            status: BusStatus::Idle,
        }
    }

    /// Hands the bus the buffer that reads exchange bytes from, replacing
    /// any buffer held before; nothing else changes and no transfer starts.
    pub fn set_read_write_buffer(&mut self, buffer: Vec<u8>)
        ensures
            *final(self) == (SpiMasterBus { read_write_buffer: Some(buffer), ..*old(self) }),
    {
        self.read_write_buffer = Some(buffer);
    }

    /// Configures the underlying SPI device.
    pub fn configure(&self, cpol: ClockPolarity, cpal: ClockPhase, rate: u32) -> (r: Result<
        (),
        ErrorCode,
    >) {
        self.spi.configure(cpol, cpal, rate)
    }

    /// Serialises `addr` into the address buffer, to be sent ahead of the
    /// next transfer. Fails with `NOMEM` when no address buffer is held and
    /// with `SIZE` when the address does not fit it.
    pub fn set_addr<A: BusAddr>(&mut self, addr: A) -> (r: Result<(), ErrorCode>)
        ensures
            (old(self).addr_buffer is None ==> r == Err::<(), ErrorCode>(ErrorCode::NOMEM)),
            (r is Ok ==> final(self).status == BusStatus::SetAddress),
    {
        let buffer = match self.addr_buffer.take() {
            Some(b) => b,
            None => {
                return Err(ErrorCode::NOMEM);
            }
        };
        let bytes = addr.bytes();
        if buffer.len() >= bytes.len() {
            let mut buffer = buffer;
            let mut i: usize = 0;
            while i < bytes.len()
                invariant
                    i <= bytes@.len() <= buffer@.len(),
                decreases bytes@.len() - i,
            {
                let b = bytes[i];
                buffer.set(i, b);
                i += 1;
            }
            self.status = BusStatus::SetAddress;
            self.addr_buffer = Some(buffer);
            Ok(())
        } else {
            self.addr_buffer = Some(buffer);
            Err(ErrorCode::SIZE)
        }
    }

    /// Starts writing `len` items of width `data_width` from `buffer`;
    /// endianness does not matter, the buffer is sent as is. The item width
    /// is recorded for the completion. The buffer comes back with `NOMEM`,
    /// everything else untouched, when it cannot hold the request; a
    /// transfer the transport refuses leaves the bus idle.
    pub fn write(&mut self, data_width: DataWidth, buffer: Vec<u8>, len: usize) -> (r: Result<
        (),
        (ErrorCode, Vec<u8>),
    >)
        ensures
            final(self).bus_width == spec_width_in_bytes(data_width),
            final(self).spi == old(self).spi,
            final(self).addr_buffer == old(self).addr_buffer,
            final(self).read_write_buffer == old(self).read_write_buffer,
            (len * spec_width_in_bytes(data_width) > buffer@.len() ==> (r matches Err(e)
                && e.0 == ErrorCode::NOMEM && e.1@ == buffer@) && *final(self) == (SpiMasterBus {
                bus_width: spec_width_in_bytes(data_width) as usize,
                ..*old(self)
            })),
            (len * spec_width_in_bytes(data_width) <= buffer@.len() ==> (r is Ok ==> final(self).status == BusStatus::Write) && (r is Err ==> final(self).status == BusStatus::Idle)),
    {
        let bytes = data_width.width_in_bytes();
        self.bus_width = bytes;
        match scaled_len(len, bytes, buffer.len()) {
            Some(total) => {
                self.status = BusStatus::Write;
                match self.spi.read_write_bytes(buffer, None, total) {
                    Ok(()) => Ok(()),
                    Err((error, write_buffer, _)) => {
                        self.status = BusStatus::Idle;
                        Err((error, write_buffer))
                    }
                }
            }
            None => Err((ErrorCode::NOMEM, buffer)),
        }
    }

    /// Starts reading `len` items of width `data_width` into `buffer`,
    /// exchanging bytes from the held scratch buffer. The item width is
    /// recorded for the completion. The buffer comes back with `NOMEM`, the
    /// scratch buffer and status untouched, when no scratch buffer is held
    /// or either buffer cannot hold the request; an issued transfer gives
    /// the scratch buffer to the transport, and a transfer the transport
    /// refuses leaves the bus idle with a scratch buffer held again.
    pub fn read(&mut self, data_width: DataWidth, buffer: Vec<u8>, len: usize) -> (r: Result<
        (),
        (ErrorCode, Vec<u8>),
    >)
        ensures
            final(self).bus_width == spec_width_in_bytes(data_width),
            final(self).spi == old(self).spi,
            final(self).addr_buffer == old(self).addr_buffer,
            (old(self).read_write_buffer is None ==> (r matches Err(e) && e.0 == ErrorCode::NOMEM
                && e.1@ == buffer@) && final(self).read_write_buffer is None
                && final(self).status == old(self).status),
            ({
                let w = spec_width_in_bytes(data_width);
                let issued = old(self).read_write_buffer matches Some(b) && len * w <= b@.len()
                    && len * w <= buffer@.len() && b@.len() > 0;
                &&& (old(self).read_write_buffer is Some && !issued ==> (r matches Err(e)
                        && e.0 == ErrorCode::NOMEM && e.1@ == buffer@)
                        && (final(self).read_write_buffer matches Some(b2)
                            && b2@ == old(self).read_write_buffer->0@)
                        && final(self).status == old(self).status)
                &&& (issued ==> (r is Ok ==> final(self).status == BusStatus::Read
                        && final(self).read_write_buffer is None) && (r is Err ==> final(self).status == BusStatus::Idle && final(self).read_write_buffer is Some))
            }),
    {
        let bytes = data_width.width_in_bytes();
        self.bus_width = bytes;
        let write_buffer = match self.read_write_buffer.take() {
            Some(b) => b,
            None => {
                return Err((ErrorCode::NOMEM, buffer));
            }
        };
        let fits_write = match scaled_len(len, bytes, write_buffer.len()) {
            Some(_) => true,
            None => false,
        };
        let fits_read = match scaled_len(len, bytes, buffer.len()) {
            Some(_) => true,
            None => false,
        };
        if fits_write && fits_read && write_buffer.len() > 0 {
            let total = match scaled_len(len, bytes, write_buffer.len()) {
                Some(t) => t,
                None => 0,
            };
            self.status = BusStatus::Read;
            match self.spi.read_write_bytes(write_buffer, Some(buffer), total) {
                Ok(()) => Ok(()),
                Err((error, write_buffer, read_buffer)) => {
                    self.status = BusStatus::Idle;
                    self.read_write_buffer = Some(write_buffer);
                    match read_buffer {
                        Some(b) => Err((error, b)),
                        None => Err((error, Vec::new())),
                    }
                }
            }
        } else {
            self.read_write_buffer = Some(write_buffer);
            Err((ErrorCode::NOMEM, buffer))
        }
    }
}

impl<S: SpiMasterDevice> SpiMasterBus<S> {
    /// Completion of an SPI transfer: routes the buffers back and returns
    /// the completion to deliver to the bus's client -- the finished
    /// buffer, the number of data items moved, and the status. After an
    /// address transfer the address buffer is kept and no buffer is
    /// delivered. The transport reports completions only while an
    /// operation is outstanding.
    pub fn read_write_done(
        &mut self,
        write_buffer: Vec<u8>,
        read_buffer: Option<Vec<u8>>,
        len: usize,
        status: Result<(), ErrorCode>,
    ) -> (r: (Option<Vec<u8>>, usize, Result<(), ErrorCode>))
        requires
            old(self).status != BusStatus::Idle,
            old(self).bus_width >= 1,
        ensures
            final(self).status == BusStatus::Idle,
            final(self).bus_width == old(self).bus_width,
            r.2 == status,
            (old(self).status == BusStatus::SetAddress ==> r.0 is None && r.1 == 0
                && (final(self).addr_buffer matches Some(b) && b@ == write_buffer@)),
            (old(self).status != BusStatus::SetAddress ==> r.0 is Some
                && r.1 == len / old(self).bus_width),
            (old(self).status != BusStatus::SetAddress && read_buffer is Some
                ==> (r.0 matches Some(b) && b@ == read_buffer->0@)
                    && (final(self).read_write_buffer matches Some(b) && b@ == write_buffer@)),
            (old(self).status != BusStatus::SetAddress && read_buffer is None
                ==> (r.0 matches Some(b) && b@ == write_buffer@)),
    {
        let previous = self.status;
        self.status = BusStatus::Idle;
        match previous {
            BusStatus::SetAddress => {
                self.addr_buffer = Some(write_buffer);
                (None, 0, status)
            }
            _ => {
                match read_buffer {
                    Some(read_buffer) => {
                        self.read_write_buffer = Some(write_buffer);
                        (Some(read_buffer), len / self.bus_width, status)
                    }
                    None => (Some(write_buffer), len / self.bus_width, status),
                }
            }
        }
    }
}

/// The bus in front of an I2C transport.
pub struct I2CMasterBus<I: I2CDevice> {
    /// The underlying I2C device.
    pub i2c: I,
    /// Number of data items of the transfer in flight.
    pub len: usize,
    /// Buffer the serialised address is sent from.
    pub addr_buffer: Option<Vec<u8>>,
    /// What the bus is currently doing.
    pub status: BusStatus,
}

impl<I: I2CDevice> I2CMasterBus<I> {
    /// A bus over `i2c` that serialises addresses into `addr_buffer`.
    pub fn new(i2c: I, addr_buffer: Vec<u8>) -> (bus: I2CMasterBus<I>)
        ensures
            bus.i2c == i2c,
            bus.len == 0,
            bus.addr_buffer matches Some(b) && b@ == addr_buffer@,
            bus.status == BusStatus::Idle,
    {
        I2CMasterBus { i2c, len: 0, addr_buffer: Some(addr_buffer), status: BusStatus::Idle }
    }

    /// Serialises `addr` into the address buffer; as the SPI bus's
    /// `set_addr`.
    pub fn set_addr<A: BusAddr>(&mut self, addr: A) -> (r: Result<(), ErrorCode>)
        ensures
            (old(self).addr_buffer is None ==> r == Err::<(), ErrorCode>(ErrorCode::NOMEM)),
            (r is Ok ==> final(self).status == BusStatus::SetAddress),
    {
        let buffer = match self.addr_buffer.take() {
            Some(b) => b,
            None => {
                return Err(ErrorCode::NOMEM);
            }
        };
        let bytes = addr.bytes();
        if buffer.len() >= bytes.len() {
            let mut buffer = buffer;
            let mut i: usize = 0;
            while i < bytes.len()
                invariant
                    i <= bytes@.len() <= buffer@.len(),
                decreases bytes@.len() - i,
            {
                let b = bytes[i];
                buffer.set(i, b);
                i += 1;
            }
            self.status = BusStatus::SetAddress;
            self.addr_buffer = Some(buffer);
            Ok(())
        } else {
            self.addr_buffer = Some(buffer);
            Err(ErrorCode::SIZE)
        }
    }

    /// Starts writing `len` items of width `data_width` from `buffer`. An
    /// I2C transfer moves at most 254 bytes; longer requests and buffers too
    /// short come back with `NOMEM` and the bus untouched. An issued write
    /// records the item count for the completion.
    pub fn write(&mut self, data_width: DataWidth, buffer: Vec<u8>, len: usize) -> (r: Result<
        (),
        (ErrorCode, Vec<u8>),
    >)
        ensures
            ({
                let total = len * spec_width_in_bytes(data_width);
                &&& (total > buffer@.len() || total >= 255 ==> (r matches Err(e)
                        && e.0 == ErrorCode::NOMEM && e.1@ == buffer@) && *final(self) == *old(self))
                &&& (total <= buffer@.len() && total < 255 ==> *final(self) == (I2CMasterBus {
                    len: len,
                    status: BusStatus::Write,
                    ..*old(self)
                }))
            }),
    {
        let bytes = data_width.width_in_bytes();
        match scaled_len(len, bytes, buffer.len()) {
            Some(total) => {
                if total < 255 {
                    self.len = len;
                    self.status = BusStatus::Write;
                    match self.i2c.write(buffer, total) {
                        Ok(()) => Ok(()),
                        Err((error, buffer)) => Err((error, buffer)),
                    }
                } else {
                    Err((ErrorCode::NOMEM, buffer))
                }
            }
            None => Err((ErrorCode::NOMEM, buffer)),
        }
    }

    /// Starts reading `len` items of width `data_width` into `buffer`; the
    /// limits and effects of `write` apply, with the read status recorded.
    pub fn read(&mut self, data_width: DataWidth, buffer: Vec<u8>, len: usize) -> (r: Result<
        (),
        (ErrorCode, Vec<u8>),
    >)
        ensures
            ({
                let total = len * spec_width_in_bytes(data_width);
                &&& (total > buffer@.len() || total >= 255 ==> (r matches Err(e)
                        && e.0 == ErrorCode::NOMEM && e.1@ == buffer@) && *final(self) == *old(self))
                &&& (total <= buffer@.len() && total < 255 ==> *final(self) == (I2CMasterBus {
                    len: len,
                    status: BusStatus::Read,
                    ..*old(self)
                }))
            }),
    {
        let bytes = data_width.width_in_bytes();
        match scaled_len(len, bytes, buffer.len()) {
            Some(total) => {
                if total < 255 {
                    self.len = len;
                    self.status = BusStatus::Read;
                    match self.i2c.read(buffer, total) {
                        Ok(()) => Ok(()),
                        Err((error, buffer)) => Err((error, buffer)),
                    }
                } else {
                    Err((ErrorCode::NOMEM, buffer))
                }
            }
            None => Err((ErrorCode::NOMEM, buffer)),
        }
    }
}

impl<I: I2CDevice> I2CMasterBus<I> {
    /// Completion of an I2C transfer: returns the completion to deliver to
    /// the bus's client. A failed transfer moved no data items; after an
    /// address transfer the address buffer is kept and no buffer is
    /// delivered.
    pub fn command_complete(&mut self, buffer: Vec<u8>, status: Result<(), ErrorCode>) -> (r: (
        Option<Vec<u8>>,
        usize,
        Result<(), ErrorCode>,
    ))
        requires
            old(self).status != BusStatus::Idle,
        ensures
            final(self).status == BusStatus::Idle,
            r.2 == status,
            (old(self).status == BusStatus::SetAddress ==> r.0 is None && r.1 == 0
                && (final(self).addr_buffer matches Some(b) && b@ == buffer@)),
            (old(self).status != BusStatus::SetAddress ==> (r.0 matches Some(b) && b@ == buffer@)
                && r.1 == (if status is Ok { old(self).len } else { 0 })),
    {
        let moved = match status {
            Ok(()) => self.len,
            Err(_) => 0,
        };
        let previous = self.status;
        self.status = BusStatus::Idle;
        match previous {
            BusStatus::SetAddress => {
                self.addr_buffer = Some(buffer);
                (None, 0, status)
            }
            _ => (Some(buffer), moved, status),
        }
    }
}

/// The bus in front of an 8080-style parallel transport.
pub struct Bus8080Bus<B: Bus8080> {
    /// The underlying parallel transport.
    pub bus: B,
    /// What the bus is currently doing.
    pub status: BusStatus,
}

impl<B: Bus8080> Bus8080Bus<B> {
    /// A bus over the parallel transport `bus`.
    pub fn new(bus: B) -> (b: Bus8080Bus<B>)
        ensures
            b.bus == bus,
            b.status == BusStatus::Idle,
    {
        Bus8080Bus { bus, status: BusStatus::Idle }
    }

    /// The widths of this bus that the parallel transport can express.
    pub fn to_bus8080_width(bus_width: DataWidth) -> (w: Option<Bus8080Width>)
        ensures
            (w is Some <==> spec_width_in_bytes(bus_width) <= 2),
    {
        match bus_width {
            DataWidth::Bits8 => Some(Bus8080Width::Bits8),
            DataWidth::Bits16LE => Some(Bus8080Width::Bits16LE),
            DataWidth::Bits16BE => Some(Bus8080Width::Bits16BE),
            _ => None,
        }
    }

    /// Latches `addr` on the transport.
    pub fn set_addr<A: BusAddr>(&mut self, addr: A) -> (r: Result<(), ErrorCode>) {
        let mut bytes: Vec<u8> = Vec::new();
        let source = addr.bytes();
        let mut i: usize = 0;
        while i < source.len()
            decreases source@.len() - i,
        {
            let b = source[i];
            bytes.push(b);
            i += 1;
        }
        let _ = self.bus.set_addr(bytes);
        Ok(())
    }

    /// Starts writing `len` items of width `data_width` from `buffer`; a
    /// width the transport cannot express comes back with `INVAL`.
    pub fn write(&mut self, data_width: DataWidth, buffer: Vec<u8>, len: usize) -> (r: Result<
        (),
        (ErrorCode, Vec<u8>),
    >)
        ensures
            (spec_width_in_bytes(data_width) > 2 ==> (r matches Err(e) && e.0 == ErrorCode::INVAL
                && e.1@ == buffer@)),
    {
        match Self::to_bus8080_width(data_width) {
            Some(width) => self.bus.write(width, buffer, len),
            None => Err((ErrorCode::INVAL, buffer)),
        }
    }

    /// Starts reading `len` items of width `data_width` into `buffer`; a
    /// width the transport cannot express comes back with `INVAL`.
    pub fn read(&mut self, data_width: DataWidth, buffer: Vec<u8>, len: usize) -> (r: Result<
        (),
        (ErrorCode, Vec<u8>),
    >)
        ensures
            (spec_width_in_bytes(data_width) > 2 ==> (r matches Err(e) && e.0 == ErrorCode::INVAL
                && e.1@ == buffer@)),
    {
        match Self::to_bus8080_width(data_width) {
            Some(width) => self.bus.read(width, buffer, len),
            None => Err((ErrorCode::INVAL, buffer)),
        }
    }
}

impl<B: Bus8080> Bus8080Bus<B> {
    /// Completion of a parallel transfer: the bus goes idle and the buffer,
    /// item count and status pass through to the client.
    pub fn command_complete(&mut self, buffer: Option<Vec<u8>>, len: usize, status: Result<
        (),
        ErrorCode,
    >) -> (r: (Option<Vec<u8>>, usize, Result<(), ErrorCode>))
        ensures
            final(self).status == BusStatus::Idle,
            r.1 == len,
            r.2 == status,
            (buffer is Some <==> r.0 is Some),
            (buffer matches Some(b) ==> (r.0 matches Some(out) && out@ == b@)),
    {
        self.status = BusStatus::Idle;
        (buffer, len, status)
    }
}

/// Addressed transfers over an underlying transport; implemented by the
/// three bus front-ends above for the platform's transports.
pub trait Bus<A: BusAddr> {
    /// Sets the address the next transfer applies to.
    fn set_addr(&mut self, addr: A) -> (r: Result<(), ErrorCode>);

    /// Starts writing `len` items of width `data_width` from `buffer`.
    fn write(&mut self, data_width: DataWidth, buffer: Vec<u8>, len: usize) -> (r: Result<
        (),
        (ErrorCode, Vec<u8>),
    >);

    /// Starts reading `len` items of width `data_width` into `buffer`.
    fn read(&mut self, data_width: DataWidth, buffer: Vec<u8>, len: usize) -> (r: Result<
        (),
        (ErrorCode, Vec<u8>),
    >);
}

impl<A: BusAddr, S: SpiMasterDevice> Bus<A> for SpiMasterBus<S> {
    fn set_addr(&mut self, addr: A) -> (r: Result<(), ErrorCode>) {
        SpiMasterBus::<S>::set_addr(self, addr)
    }

    fn write(&mut self, data_width: DataWidth, buffer: Vec<u8>, len: usize) -> (r: Result<
        (),
        (ErrorCode, Vec<u8>),
    >) {
        SpiMasterBus::<S>::write(self, data_width, buffer, len)
    }

    fn read(&mut self, data_width: DataWidth, buffer: Vec<u8>, len: usize) -> (r: Result<
        (),
        (ErrorCode, Vec<u8>),
    >) {
        SpiMasterBus::<S>::read(self, data_width, buffer, len)
    }
}

impl<A: BusAddr, I: I2CDevice> Bus<A> for I2CMasterBus<I> {
    fn set_addr(&mut self, addr: A) -> (r: Result<(), ErrorCode>) {
        I2CMasterBus::<I>::set_addr(self, addr)
    }

    fn write(&mut self, data_width: DataWidth, buffer: Vec<u8>, len: usize) -> (r: Result<
        (),
        (ErrorCode, Vec<u8>),
    >) {
        I2CMasterBus::<I>::write(self, data_width, buffer, len)
    }

    fn read(&mut self, data_width: DataWidth, buffer: Vec<u8>, len: usize) -> (r: Result<
        (),
        (ErrorCode, Vec<u8>),
    >) {
        I2CMasterBus::<I>::read(self, data_width, buffer, len)
    }
}

impl<A: BusAddr, B: Bus8080> Bus<A> for Bus8080Bus<B> {
    fn set_addr(&mut self, addr: A) -> (r: Result<(), ErrorCode>) {
        Bus8080Bus::<B>::set_addr(self, addr)
    }

    fn write(&mut self, data_width: DataWidth, buffer: Vec<u8>, len: usize) -> (r: Result<
        (),
        (ErrorCode, Vec<u8>),
    >) {
        Bus8080Bus::<B>::write(self, data_width, buffer, len)
    }

    fn read(&mut self, data_width: DataWidth, buffer: Vec<u8>, len: usize) -> (r: Result<
        (),
        (ErrorCode, Vec<u8>),
    >) {
        Bus8080Bus::<B>::read(self, data_width, buffer, len)
    }
}

} // verus!
