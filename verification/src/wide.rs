//! Whole numbers of up to 256 bits, for the sums and products that 128 bits
//! cannot hold.

use vstd::prelude::*;

verus! {

/// Two to the power of 64.
pub const TWO_64: u128 = 0x1_0000_0000_0000_0000;

/// A number without sign, `high * 2^128 + low`.
#[derive(Debug, Clone, Copy)]
pub struct Wide {
    pub high: u128,
    pub low: u128,
}

impl Wide {
    /// The number that the two halves stand for.
    pub open spec fn value(&self) -> int {
        self.high * 0x1_0000_0000_0000_0000_0000_0000_0000_0000 + self.low
    }

    /// A number of 128 bits, widened.
    pub fn from_u128(low: u128) -> (wide: Self)
        ensures
            wide.value() == low,
            wide.high == 0,
    {
        Wide { high: 0, low }
    }

    /// The product of `a` and `b`, exact.
    pub fn product(a: u128, b: u64) -> (wide: Self)
        ensures
            wide.value() == a * b,
            wide.high <= u64::MAX,
    {
        let upper: u128 = a / TWO_64;
        let lower: u128 = a % TWO_64;
        proof {
            assert(0 <= lower * b <= (TWO_64 - 1) * u64::MAX) by (nonlinear_arith)
                requires
                    0 <= lower <= TWO_64 - 1,
                    0 <= b <= u64::MAX,
            ;
            assert(0 <= upper * b <= (TWO_64 - 1) * u64::MAX) by (nonlinear_arith)
                requires
                    0 <= upper <= TWO_64 - 1,
                    0 <= b <= u64::MAX,
            ;
            assert(a * b == (upper * b) * TWO_64 + lower * b) by (nonlinear_arith)
                requires
                    a == upper * TWO_64 + lower,
            ;
        }
        let first: u128 = lower * b as u128;
        let second: u128 = upper * b as u128;
        let carried: u128 = second / TWO_64;
        let shifted: u128 = (second % TWO_64) * TWO_64;
        if shifted > u128::MAX - first {
            Wide { high: carried + 1, low: shifted - (u128::MAX - first) - 1 }
        } else {
            Wide { high: carried, low: shifted + first }
        }
    }

    /// The sum of two numbers whose high halves leave room for it.
    pub fn sum(self, other: Self) -> (wide: Self)
        requires
            self.high + other.high < u128::MAX,
        ensures
            wide.value() == self.value() + other.value(),
            wide.high <= self.high + other.high + 1,
    {
        if self.low > u128::MAX - other.low {
            Wide {
                high: self.high + other.high + 1,
                low: self.low - (u128::MAX - other.low) - 1,
            }
        } else {
            Wide { high: self.high + other.high, low: self.low + other.low }
        }
    }

    /// Whether this number is greater than `other`.
    pub fn exceeds(&self, other: &Self) -> (greater: bool)
        ensures
            greater == (self.value() > other.value()),
    {
        self.high > other.high || (self.high == other.high && self.low > other.low)
    }
}

} // verus!
