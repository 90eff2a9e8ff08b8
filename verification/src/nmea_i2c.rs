//! Reading NMEA sentences from a GPS/GNSS device connected over I2C.

use vstd::prelude::*;
use crate::bus::{ErrorCode, I2CDevice};

verus! {

/// Reading more than this many bytes at a time crashes the GNSS device and
/// leaves it holding the I2C clock low.
pub const I2C_BUFFER_LEN: usize = 24;

/// Longest NMEA sentence the driver assembles.
pub const NMEA_BUFFER_LEN: usize = 128;

/// Assembles NMEA sentences from small I2C reads against the device `I`.
pub struct I2cNmea<I: I2CDevice> {
    /// The sentence being assembled for the client.
    pub sentence_buffer: Option<Vec<u8>>,
    /// The buffer the small I2C reads go through.
    pub i2c_buffer: Option<Vec<u8>>,
    /// How much of the sentence has been assembled.
    pub nmea_offset: usize,
    /// The underlying I2C device.
    pub i2c: I,
}

impl<I: I2CDevice> I2cNmea<I> {
    /// A reader over `i2c` using `i2c_buffer` for the partial reads.
    pub fn new(i2c: I, i2c_buffer: Vec<u8>) -> (r: I2cNmea<I>)
        ensures
            r.sentence_buffer is None,
            r.i2c_buffer matches Some(b) && b@ == i2c_buffer@,
            r.nmea_offset == 0,
    {
        I2cNmea { sentence_buffer: None, i2c_buffer: Some(i2c_buffer), nmea_offset: 0, i2c }
    }

    /// Starts reading a sentence into `sentence`; the device fills the I2C
    /// buffer first, and assembly continues at each completion. The
    /// sentence buffer comes back with `NOMEM` when a read is already under
    /// way, or with the transport's error when the transport refuses.
    pub fn read_sentence(&mut self, sentence: Vec<u8>) -> (r: Result<(), (ErrorCode, Vec<u8>)>)
        ensures
            (old(self).i2c_buffer is None ==> (r matches Err(e) && e.0 == ErrorCode::NOMEM
                && e.1@ == sentence@)),
            (r is Ok ==> final(self).sentence_buffer is Some && final(self).nmea_offset == 0),
    {
        let buffer = match self.i2c_buffer.take() {
            Some(b) => b,
            None => {
                return Err((ErrorCode::NOMEM, sentence));
            }
        };
        let len = buffer.len();
        match self.i2c.read(buffer, len) {
            Ok(()) => {
                self.nmea_offset = 0;
                self.sentence_buffer = Some(sentence);
                Ok(())
            }
            Err((error, buffer)) => {
                self.i2c_buffer = Some(buffer);
                Err((error, sentence))
            }
        }
    }
}

} // verus!
