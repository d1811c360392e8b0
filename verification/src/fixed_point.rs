//! Signed fixed-point numbers with 80 integer bits and 48 fractional bits.
//!
//! A number is held by its bits, a 128-bit integer `b` that stands for the
//! value `b / 2^48`. Contracts speak of the bits as mathematical integers, so
//! that every rounding step is stated exactly.
use crate::error::Error;
use vstd::prelude::*;

verus! {

/// The number of fractional bits.
pub const FRACTION_BITS: u32 = 48;

/// The bits of the number one, `2^48`.
pub const ONE_BITS: i128 = 0x1_0000_0000_0000;

/// The largest power of ten that `exp10` gives.
pub const MAX_EXP_10: usize = 20;

/// The largest power of ten that `exp10_fixed` gives.
pub const MAX_EXP_10_FIXED: usize = 23;

/// The bits of 2.12, the factor by which a reported confidence is widened.
pub const CONF_INTERVAL_MULTIPLE_BITS: i128 = 596726950626591;

/// The bits of one whole unit, `2^48`.
pub open spec fn scale() -> int {
    0x1_0000_0000_0000
}

/// Whether `v` can be the bits of a number.
pub open spec fn fits(v: int) -> bool {
    i128::MIN <= v <= i128::MAX
}

/// `10^n`.
pub open spec fn pow10(n: nat) -> int
    decreases n,
{
    if n == 0 {
        1
    } else {
        10 * pow10((n - 1) as nat)
    }
}

/// The bits of the product of the numbers with bits `a` and `b`: the exact
/// product, rounded toward negative infinity.
pub open spec fn mul_floor(a: int, b: int) -> int {
    (a * b) / scale()
}

/// The quotient of `n` by `d`, rounded toward zero.
pub open spec fn quotient_toward_zero(n: int, d: int) -> int {
    if n >= 0 {
        if d > 0 {
            n / d
        } else {
            -(n / (-d))
        }
    } else {
        if d > 0 {
            -((-n) / d)
        } else {
            (-n) / (-d)
        }
    }
}

/// The bits of the quotient of the numbers with bits `a` and `b`: the exact
/// quotient, rounded toward zero.
pub open spec fn div_toward_zero(a: int, b: int) -> int {
    quotient_toward_zero(a * scale(), b)
}

/// `v` where it fits, nothing where it does not.
pub open spec fn checked(v: int) -> Option<int> {
    if fits(v) {
        Some(v)
    } else {
        None
    }
}

/// The checked sum of two numbers, by their bits.
pub open spec fn add_checked(a: int, b: int) -> Option<int> {
    checked(a + b)
}

/// The checked difference of two numbers, by their bits.
pub open spec fn sub_checked(a: int, b: int) -> Option<int> {
    checked(a - b)
}

/// The checked product of two numbers, by their bits.
pub open spec fn mul_checked(a: int, b: int) -> Option<int> {
    checked(mul_floor(a, b))
}

/// The checked quotient of two numbers, by their bits: nothing where the
/// divisor is zero or the quotient does not fit.
pub open spec fn div_checked(a: int, b: int) -> Option<int> {
    if b == 0 {
        None
    } else {
        checked(div_toward_zero(a, b))
    }
}

/// The whole part of the number with bits `v`, rounded toward negative
/// infinity, where it is not negative and below `2^64`.
pub open spec fn whole_part(v: int) -> Option<u64> {
    if 0 <= v / scale() <= u64::MAX {
        Some((v / scale()) as u64)
    } else {
        None
    }
}

/// The first twenty-four powers of ten.
pub proof fn lemma_pow10_values()
    ensures
        pow10(0) == 1,
        pow10(1) == 10,
        pow10(2) == 100,
        pow10(3) == 1_000,
        pow10(4) == 10_000,
        pow10(5) == 100_000,
        pow10(6) == 1_000_000,
        pow10(7) == 10_000_000,
        pow10(8) == 100_000_000,
        pow10(9) == 1_000_000_000,
        pow10(10) == 10_000_000_000,
        pow10(11) == 100_000_000_000,
        pow10(12) == 1_000_000_000_000,
        pow10(13) == 10_000_000_000_000,
        pow10(14) == 100_000_000_000_000,
        pow10(15) == 1_000_000_000_000_000,
        pow10(16) == 10_000_000_000_000_000,
        pow10(17) == 100_000_000_000_000_000,
        pow10(18) == 1_000_000_000_000_000_000,
        pow10(19) == 10_000_000_000_000_000_000,
        pow10(20) == 100_000_000_000_000_000_000,
        pow10(21) == 1_000_000_000_000_000_000_000,
        pow10(22) == 10_000_000_000_000_000_000_000,
        pow10(23) == 100_000_000_000_000_000_000_000,
{
    reveal_with_fuel(pow10, 25);
}

/// Powers of ten are positive and grow with the exponent.
pub proof fn lemma_pow10_increases(a: nat, b: nat)
    requires
        a <= b,
    ensures
        1 <= pow10(a) <= pow10(b),
    decreases b,
{
    if b == 0 {
    } else if a == b {
        lemma_pow10_increases(0, (b - 1) as nat);
    } else {
        lemma_pow10_increases(a, (b - 1) as nat);
    }
}

/// `10^n` as an integer, for `n` up to `MAX_EXP_10_FIXED`.
pub fn exp10(n: usize) -> (r: i128)
    requires
        n <= MAX_EXP_10_FIXED,
    ensures
        r == pow10(n as nat),
        1 <= r <= 100_000_000_000_000_000_000_000,
{
    let mut r: i128 = 1;
    let mut i: usize = 0;
    proof {
        lemma_pow10_values();
    }
    while i < n
        invariant
            i <= n <= MAX_EXP_10_FIXED,
            r == pow10(i as nat),
            1 <= r <= pow10(23),
            pow10(23) == 100_000_000_000_000_000_000_000,
        decreases n - i,
    {
        proof {
            lemma_pow10_increases((i + 1) as nat, 23);
        }
        r = r * 10;
        i = i + 1;
    }
    r
}

/// A signed number with 48 fractional bits, held by its bits.
#[derive(Clone, Copy, Debug, PartialEq, Eq, Structural)]
pub struct FixedPoint {
    pub bits: i128,
}

impl View for FixedPoint {
    type V = int;

    open spec fn view(&self) -> int {
        self.bits as int
    }
}

/// Multiplies two numbers, given by their bits, with
/// `fixed::types::I80F48::checked_mul`. That function forms the exact 256-bit
/// product, shifts it right by 48 bits, which rounds toward negative
/// infinity, and gives nothing when the result does not fit in 128 bits.
#[verifier::external_body]
fn i80f48_checked_mul(a: i128, b: i128) -> (r: Option<i128>)
    ensures
        match r {
            Some(v) => mul_checked(a as int, b as int) == Some(v as int),
            None => mul_checked(a as int, b as int) is None,
        },
{
    let rhs = fixed::types::I80F48::from_bits(b);
    match fixed::types::I80F48::from_bits(a).checked_mul(rhs) {
        Some(p) => Some(p.to_bits()),
        None => None,
    }
}

/// Divides one number by another, both given by their bits, with
/// `fixed::types::I80F48::checked_div`. That function gives nothing for a
/// zero divisor; otherwise it shifts the dividend left by 48 bits into 256
/// bits, divides with rounding toward zero, and gives nothing when the
/// quotient does not fit in 128 bits.
#[verifier::external_body]
fn i80f48_checked_div(a: i128, b: i128) -> (r: Option<i128>)
    ensures
        match r {
            Some(v) => div_checked(a as int, b as int) == Some(v as int),
            None => div_checked(a as int, b as int) is None,
        },
{
    let rhs = fixed::types::I80F48::from_bits(b);
    match fixed::types::I80F48::from_bits(a).checked_div(rhs) {
        Some(q) => Some(q.to_bits()),
        None => None,
    }
}

impl FixedPoint {
    /// The number with the given bits.
    pub fn from_bits(bits: i128) -> (r: FixedPoint)
        ensures
            r@ == bits,
    {
        FixedPoint { bits }
    }

    /// The bits of the number.
    pub fn to_bits(&self) -> (r: i128)
        ensures
            r == self@,
    {
        self.bits
    }

    /// Zero.
    pub fn zero() -> (r: FixedPoint)
        ensures
            r@ == 0,
    {
        FixedPoint { bits: 0 }
    }

    /// One.
    pub fn one() -> (r: FixedPoint)
        ensures
            r@ == scale(),
    {
        FixedPoint { bits: ONE_BITS }
    }

    /// The largest number.
    pub fn max_value() -> (r: FixedPoint)
        ensures
            r@ == i128::MAX,
    {
        FixedPoint { bits: i128::MAX }
    }

    /// The factor by which a reported confidence is widened, 2.12 rounded to
    /// the nearest representable number.
    pub fn conf_interval_multiple() -> (r: FixedPoint)
        ensures
            r@ == CONF_INTERVAL_MULTIPLE_BITS,
    {
        FixedPoint { bits: CONF_INTERVAL_MULTIPLE_BITS }
    }

    /// The whole number `n`.
    pub fn from_u64(n: u64) -> (r: FixedPoint)
        ensures
            r@ == n * scale(),
    {
        let wide: i128 = n as i128;
        FixedPoint { bits: wide * ONE_BITS }
    }

    /// The whole number `n`.
    pub fn from_i64(n: i64) -> (r: FixedPoint)
        ensures
            r@ == n * scale(),
    {
        let wide: i128 = n as i128;
        FixedPoint { bits: wide * ONE_BITS }
    }

    /// The whole number `n`, where it has at most 80 bits.
    pub fn checked_from_i128(n: i128) -> (r: Option<FixedPoint>)
        ensures
            r == (if fits(n * scale()) {
                Some(FixedPoint { bits: (n * scale()) as i128 })
            } else {
                None
            }),
    {
        if n < -0x8000_0000_0000_0000_0000 || n >= 0x8000_0000_0000_0000_0000 {
            None
        } else {
            Some(FixedPoint { bits: n * ONE_BITS })
        }
    }

    /// `10^n` as a number, for `n` up to `MAX_EXP_10_FIXED`.
    pub fn exp10_fixed(n: usize) -> (r: FixedPoint)
        requires
            n <= MAX_EXP_10_FIXED,
        ensures
            r@ == pow10(n as nat) * scale(),
            r@ >= scale(),
    {
        let whole: i128 = exp10(n);
        FixedPoint { bits: whole * ONE_BITS }
    }

    /// The whole part of a number that is not negative and below `2^64`:
    /// the number rounded toward negative infinity. Nothing for any other
    /// number.
    pub fn checked_to_u64(&self) -> (r: Option<u64>)
        ensures
            r == whole_part(self@),
    {
        if self.bits < 0 {
            None
        } else {
            let whole: i128 = self.bits / ONE_BITS;
            if whole > 0xffff_ffff_ffff_ffff {
                None
            } else {
                Some(whole as u64)
            }
        }
    }

    /// The sum, where it fits.
    pub fn checked_add(&self, rhs: FixedPoint) -> (r: Option<FixedPoint>)
        ensures
            match r {
                Some(v) => add_checked(self@, rhs@) == Some(v@),
                None => add_checked(self@, rhs@) is None,
            },
    {
        match self.bits.checked_add(rhs.bits) {
            Some(bits) => Some(FixedPoint { bits }),
            None => None,
        }
    }

    /// The difference, where it fits.
    pub fn checked_sub(&self, rhs: FixedPoint) -> (r: Option<FixedPoint>)
        ensures
            match r {
                Some(v) => sub_checked(self@, rhs@) == Some(v@),
                None => sub_checked(self@, rhs@) is None,
            },
    {
        match self.bits.checked_sub(rhs.bits) {
            Some(bits) => Some(FixedPoint { bits }),
            None => None,
        }
    }

    /// The product rounded toward negative infinity, where it fits.
    pub fn checked_mul(&self, rhs: FixedPoint) -> (r: Option<FixedPoint>)
        ensures
            match r {
                Some(v) => mul_checked(self@, rhs@) == Some(v@),
                None => mul_checked(self@, rhs@) is None,
            },
    {
        match i80f48_checked_mul(self.bits, rhs.bits) {
            Some(bits) => Some(FixedPoint { bits }),
            None => None,
        }
    }

    /// The quotient rounded toward zero, where the divisor is not zero and
    /// the quotient fits.
    pub fn checked_div(&self, rhs: FixedPoint) -> (r: Option<FixedPoint>)
        ensures
            match r {
                Some(v) => div_checked(self@, rhs@) == Some(v@),
                None => div_checked(self@, rhs@) is None,
            },
    {
        match i80f48_checked_div(self.bits, rhs.bits) {
            Some(bits) => Some(FixedPoint { bits }),
            None => None,
        }
    }

    /// The sum, or `MathOverflow` where it does not fit.
    pub fn try_add(&self, rhs: FixedPoint) -> (r: Result<FixedPoint, Error>)
        ensures
            match r {
                Ok(v) => add_checked(self@, rhs@) == Some(v@),
                Err(e) => add_checked(self@, rhs@) is None && e == Error::MathOverflow,
            },
    {
        match self.checked_add(rhs) {
            Some(v) => Ok(v),
            None => Err(Error::MathOverflow),
        }
    }

    /// The difference, or `MathOverflow` where it does not fit.
    pub fn try_sub(&self, rhs: FixedPoint) -> (r: Result<FixedPoint, Error>)
        ensures
            match r {
                Ok(v) => sub_checked(self@, rhs@) == Some(v@),
                Err(e) => sub_checked(self@, rhs@) is None && e == Error::MathOverflow,
            },
    {
        match self.checked_sub(rhs) {
            Some(v) => Ok(v),
            None => Err(Error::MathOverflow),
        }
    }

    /// The product, or `MathOverflow` where it does not fit.
    pub fn try_mul(&self, rhs: FixedPoint) -> (r: Result<FixedPoint, Error>)
        ensures
            match r {
                Ok(v) => mul_checked(self@, rhs@) == Some(v@),
                Err(e) => mul_checked(self@, rhs@) is None && e == Error::MathOverflow,
            },
    {
        match self.checked_mul(rhs) {
            Some(v) => Ok(v),
            None => Err(Error::MathOverflow),
        }
    }

    /// The quotient, or `MathOverflow` where the divisor is zero or the
    /// quotient does not fit.
    pub fn try_div(&self, rhs: FixedPoint) -> (r: Result<FixedPoint, Error>)
        ensures
            match r {
                Ok(v) => div_checked(self@, rhs@) == Some(v@),
                Err(e) => div_checked(self@, rhs@) is None && e == Error::MathOverflow,
            },
    {
        match self.checked_div(rhs) {
            Some(v) => Ok(v),
            None => Err(Error::MathOverflow),
        }
    }

    /// Nine tenths of the number: its bits times nine, divided by ten and
    /// rounded toward zero. `MathOverflow` where nine times the number does
    /// not fit.
    pub fn nine_tenths(&self) -> (r: Result<FixedPoint, Error>)
        ensures
            match r {
                Ok(v) => fits(self@ * 9) && v@ == quotient_toward_zero(self@ * 9, 10),
                Err(e) => !fits(self@ * 9) && e == Error::MathOverflow,
            },
    {
        match self.bits.checked_mul(9) {
            Some(nine) => {
                let bits: i128 = nine / 10;
                Ok(FixedPoint { bits })
            },
            None => Err(Error::MathOverflow),
        }
    }

    /// Whether this number is below `rhs`.
    pub fn lt(&self, rhs: &FixedPoint) -> (r: bool)
        ensures
            r == (self@ < rhs@),
    {
        self.bits < rhs.bits
    }

    /// Whether this number is at most `rhs`.
    pub fn le(&self, rhs: &FixedPoint) -> (r: bool)
        ensures
            r == (self@ <= rhs@),
    {
        self.bits <= rhs.bits
    }

    /// Whether this number is zero.
    pub fn is_zero(&self) -> (r: bool)
        ensures
            r == (self@ == 0),
    {
        self.bits == 0
    }

    /// The smaller of two numbers.
    pub fn min(self, rhs: FixedPoint) -> (r: FixedPoint)
        ensures
            r@ == if self@ <= rhs@ { self@ } else { rhs@ },
    {
        if self.bits <= rhs.bits {
            self
        } else {
            rhs
        }
    }
}

impl Default for FixedPoint {
    fn default() -> (r: FixedPoint)
        ensures
            r@ == 0,
    {
        FixedPoint { bits: 0 }
    }
}

} // verus!
