//! Compatibility scores. The scoring engine replies with a binary32 number;
//! the library keeps it as its IEEE-754 encoding, an unsigned 32-bit word, so
//! that the business rules on it — the acceptance window and the scaling for
//! the ledger — are exact integer statements.

use vstd::prelude::*;

verus! {

/// The binary32 encoding of 1.0, the lowest acceptable score.
pub const SCORE_MIN_BITS: u32 = 0x3F80_0000;

/// The binary32 encoding of 10.0, the highest acceptable score.
pub const SCORE_MAX_BITS: u32 = 0x4120_0000;

/// Whether an encoding lies in the acceptance window [1.0, 10.0]. For
/// non-negative binary32 values, numeric order coincides with unsigned order
/// of their encodings, so the window is one interval of encodings; negative
/// values, infinities and NaNs all have encodings outside it.
pub open spec fn score_bits_in_range(bits: u32) -> bool {
    SCORE_MIN_BITS <= bits <= SCORE_MAX_BITS
}

/// The score scaled to hundredths, truncated toward zero: for an encoding of
/// the value v in [1.0, 10.0], exactly v * 100 rounded toward zero. Within
/// the acceptance window the exponent field e = bits / 2^23 lies in
/// 127..=130, the value is m * 2^(e - 150) with mantissa m = 2^23 +
/// (bits % 2^23), and v * 100 truncates to (m * 100) / 2^(150 - e).
pub open spec fn scaled_hundredths_of(bits: u32) -> int
    recommends
        score_bits_in_range(bits),
{
    let m = (bits % 0x0080_0000) as int + 0x0080_0000;
    if bits < 0x4000_0000 {
        (m * 100) / 0x0080_0000  // exponent 127: values in [1.0, 2.0)
    } else if bits < 0x4080_0000 {
        (m * 100) / 0x0040_0000  // exponent 128: values in [2.0, 4.0)
    } else if bits < 0x4100_0000 {
        (m * 100) / 0x0020_0000  // exponent 129: values in [4.0, 8.0)
    } else {
        (m * 100) / 0x0010_0000  // exponent 130: values in [8.0, 10.0]
    }
}

/// A validated compatibility score: the encoding of a binary32 value in the
/// closed range [1.0, 10.0]. Ephemeral — produced per match, never stored.
#[derive(Debug)]
pub struct Score {
    bits: u32,
}

impl View for Score {
    type V = u32;

    closed spec fn view(&self) -> u32 {
        self.bits
    }
}

impl Score {
    #[verifier::type_invariant]
    spec fn in_acceptance_window(self) -> bool {
        score_bits_in_range(self.bits)
    }

    /// Wrap an encoding that already passed the range check.
    pub fn new(bits: u32) -> (r: Self)
        requires
            score_bits_in_range(bits),
        ensures
            r@ == bits,
    {
        Score { bits }
    }

    /// The underlying encoding, always inside the acceptance window.
    pub fn bits(&self) -> (r: u32)
        ensures
            r == self@,
            score_bits_in_range(self@),
    {
        proof {
            use_type_invariant(&*self);
        }
        self.bits
    }

    /// The score scaled to hundredths and truncated toward zero, as the
    /// ledger records it. A score in [1.0, 10.0] always scales into
    /// [100, 1000].
    pub fn scaled_hundredths(&self) -> (r: u64)
        ensures
            r == scaled_hundredths_of(self@),
            100 <= r <= 1000,
    {
        proof {
            use_type_invariant(&*self);
        }
        let m: u64 = (self.bits % 0x0080_0000) as u64 + 0x0080_0000;
        if self.bits < 0x4000_0000 {
            (m * 100) / 0x0080_0000
        } else if self.bits < 0x4080_0000 {
            (m * 100) / 0x0040_0000
        } else if self.bits < 0x4100_0000 {
            (m * 100) / 0x0020_0000
        } else {
            (m * 100) / 0x0010_0000
        }
    }
}

} // verus!
