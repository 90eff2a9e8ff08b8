//! CRC-32 (POSIX variant) over byte streams, used to check flashed
//! application images.

use vstd::prelude::*;

verus! {

/// The CRC-32 generator polynomial, most significant bit first.
pub const CRC32_POLY: u32 = 0x04c11db7;

/// One polynomial-division step: shift the register left by one bit and
/// fold the polynomial in when a one bit falls out.
pub open spec fn crc_poly_step(s: u32) -> u32 {
    if s & 0x80000000u32 != 0 {
        (s << 1u32) ^ CRC32_POLY
    } else {
        s << 1u32
    }
}

/// `n` polynomial-division steps.
pub open spec fn crc_steps(s: u32, n: nat) -> u32
    decreases n,
{
    if n == 0 {
        s
    } else {
        crc_steps(crc_poly_step(s), (n - 1) as nat)
    }
}

/// Folds one byte into the register: the byte enters at the top, then eight
/// division steps run.
pub open spec fn crc_feed_byte(s: u32, b: u8) -> u32 {
    crc_steps(s ^ ((b as u32) << 24u32), 8)
}

/// Folds a byte sequence into the register, front to back.
pub open spec fn crc_feed(s: u32, bytes: Seq<u8>) -> u32
    decreases bytes.len(),
{
    if bytes.len() == 0 {
        s
    } else {
        crc_feed(crc_feed_byte(s, bytes[0]), bytes.drop_first())
    }
}

/// Running the division steps commutes with prepending one step.
proof fn lemma_crc_steps_shift(s: u32, n: nat)
    ensures
        crc_steps(crc_poly_step(s), n) == crc_poly_step(crc_steps(s, n)),
    decreases n,
{
    if n > 0 {
        lemma_crc_steps_shift(crc_poly_step(s), (n - 1) as nat);
    }
}

/// A running CRC-32 computation.
pub struct Crc32 {
    /// The division register.
    pub state: u32,
}

impl Crc32 {
    /// A fresh computation over the empty stream.
    pub fn new() -> (c: Crc32)
        ensures
            c.state == 0u32,
    {
        Crc32 { state: 0 }
    }

    /// Folds `data` into the running computation.
    pub fn update(&mut self, data: &[u8])
        ensures
            final(self).state == crc_feed(old(self).state, data@),
    {
        let n = data.len();
        proof {
            assert(data@.skip(0) =~= data@);
        }
        let mut i: usize = 0;
        while i < n
            invariant
                n == data@.len(),
                i <= n,
                crc_feed(old(self).state, data@) == crc_feed(self.state, data@.skip(i as int)),
            decreases n - i,
        {
            let b = data[i];
            let ghost base = self.state ^ ((data@[i as int] as u32) << 24u32);
            let mut s = self.state ^ ((b as u32) << 24);
            let mut k: usize = 0;
            while k < 8
                invariant
                    k <= 8,
                    base == self.state ^ ((data@[i as int] as u32) << 24u32),
                    s == crc_steps(base, k as nat),
                    i < n == data@.len(),
                decreases 8 - k,
            {
                proof {
                    lemma_crc_steps_shift(base, k as nat);
                    assert(crc_steps(base, (k + 1) as nat) == crc_poly_step(crc_steps(base, k as nat)));
                }
                s = if s & 0x80000000 != 0 {
                    (s << 1u32) ^ CRC32_POLY
                } else {
                    s << 1u32
                };
                k += 1;
            }
            proof {
                let rest = data@.skip(i as int);
                assert(rest[0] == data@[i as int]);
                assert(rest.drop_first() == data@.skip(i + 1));
                assert(crc_feed(self.state, rest)
                    == crc_feed(crc_feed_byte(self.state, data@[i as int]), data@.skip(i + 1)));
            }
            self.state = s;
            i += 1;
        }
        proof {
            assert(data@.skip(n as int).len() == 0);
        }
    }

    /// The CRC-32 of everything folded in: the complemented register.
    pub fn finalise(&self) -> (r: u32)
        ensures
            r == !self.state,
    {
        !self.state
    }
}

} // verus!
