//! Fixed-point decimal arithmetic.
//!
//! A [`Decimal`] is a non-negative number with eighteen decimal places, held
//! as an integer count of `1 / WAD`. Every operation is exact integer
//! arithmetic on that count; products are rounded down.

use vstd::prelude::*;

verus! {

/// The scale of a [`Decimal`]: the scaled value of the number one.
pub const WAD: u128 = 1_000_000_000_000_000_000;

/// Half of [`WAD`], added before dividing to round half up.
pub const HALF_WAD: u128 = 500_000_000_000_000_000;

/// The scaled value of one thousandth: a rate given as an integer `x` stands
/// for `x / 1000`.
pub const PERCENT_3DP_SCALER: u128 = 1_000_000_000_000_000;

/// Why an operation on a [`Decimal`] has no result.
#[derive(Clone, Copy, Debug, PartialEq, Eq, Structural)]
pub enum MathError {
    /// The result does not fit.
    Overflow,
    /// The result would be negative.
    Underflow,
    /// The divisor is zero.
    DivideByZero,
}

/// The scaled product of two scaled values, rounded down.
pub open spec fn mul_wad(a: nat, b: nat) -> nat {
    (a * b) / (WAD as nat)
}

/// The scaled value of a base raised to a power by repeated multiplication,
/// each product rounded down.
pub open spec fn pow_wad(base: nat, exp: nat) -> nat
    decreases exp,
{
    if exp == 0 {
        WAD as nat
    } else {
        mul_wad(pow_wad(base, (exp - 1) as nat), base)
    }
}

/// The integer nearest to a scaled value, halves rounded up.
pub open spec fn round_wad(a: nat) -> nat {
    (a + HALF_WAD as nat) / (WAD as nat)
}

/// The integer part of a scaled value.
pub open spec fn floor_wad(a: nat) -> nat {
    a / (WAD as nat)
}

proof fn lemma_split_product(a: nat, b: nat, w: nat)
    requires
        w > 0,
    ensures
        (a * b) / w == (a / w) * b + (a % w) * (b / w) + ((a % w) * (b % w)) / w,
{
    let ah = a / w;
    let al = a % w;
    let bh = b / w;
    let bl = b % w;
    assert(a == ah * w + al) by (nonlinear_arith)
        requires
            w > 0,
            ah == a / w,
            al == a % w,
    ;
    assert(b == bh * w + bl) by (nonlinear_arith)
        requires
            w > 0,
            bh == b / w,
            bl == b % w,
    ;
    let k = ah * b + al * bh;
    let m = al * bl;
    assert(a * b == k * w + m) by (nonlinear_arith)
        requires
            a == ah * w + al,
            b == bh * w + bl,
            k == ah * b + al * bh,
            m == al * bl,
    ;
    assert((k * w + m) / w == k + m / w) by (nonlinear_arith)
        requires
            w > 0,
    ;
}

/// `a * b / WAD` rounded down, or `None` where that does not fit in 128 bits.
fn mul_div_wad(a: u128, b: u128) -> (r: Option<u128>)
    ensures
        r == (if mul_wad(a as nat, b as nat) <= u128::MAX {
            Some(mul_wad(a as nat, b as nat) as u128)
        } else {
            None
        }),
{
    if a <= 0xffff_ffff_ffff_ffff && b <= 0xffff_ffff_ffff_ffff {
        assert(a * b <= u128::MAX) by (nonlinear_arith)
            requires
                a <= 0xffff_ffff_ffff_ffff,
                b <= 0xffff_ffff_ffff_ffff,
        ;
        return Some((a * b) / WAD);
    }
    let a_hi: u128 = a / WAD;
    let a_lo: u128 = a % WAD;
    let b_hi: u128 = b / WAD;
    let b_lo: u128 = b % WAD;
    proof {
        lemma_split_product(a as nat, b as nat, WAD as nat);
        assert(a_lo * b_hi <= u128::MAX) by (nonlinear_arith)
            requires
                a_lo < WAD,
                b_hi == b / WAD,
                b <= u128::MAX,
        ;
        assert(a_lo * b_lo <= u128::MAX) by (nonlinear_arith)
            requires
                a_lo < 1_000_000_000_000_000_000,
                b_lo < 1_000_000_000_000_000_000,
        ;
        assert(a_hi * b >= 0 && a_lo * b_hi >= 0 && a_lo * b_lo >= 0) by (nonlinear_arith);
    }
    let whole: u128 = match a_hi.checked_mul(b) {
        Some(v) => v,
        None => {
            return None;
        },
    };
    let cross: u128 = a_lo * b_hi;
    let frac: u128 = (a_lo * b_lo) / WAD;
    match whole.checked_add(cross) {
        Some(s) => s.checked_add(frac),
        None => None,
    }
}

/// For a base of at least one, a power does not shrink as the exponent grows.
pub proof fn lemma_pow_wad_monotonic(base: nat, e1: nat, e2: nat)
    requires
        base >= WAD,
        e1 <= e2,
    ensures
        pow_wad(base, e1) <= pow_wad(base, e2),
    decreases e2,
{
    if e1 < e2 {
        let prev = pow_wad(base, (e2 - 1) as nat);
        lemma_pow_wad_monotonic(base, e1, (e2 - 1) as nat);
        assert((prev * base) / (WAD as nat) >= prev) by (nonlinear_arith)
            requires
                base >= WAD,
                WAD == 1_000_000_000_000_000_000,
        ;
    }
}

/// Once a further multiplication leaves a power unchanged, every later power
/// equals it.
pub proof fn lemma_pow_wad_fixed(base: nat, e1: nat, e2: nat)
    requires
        e1 <= e2,
        mul_wad(pow_wad(base, e1), base) == pow_wad(base, e1),
    ensures
        pow_wad(base, e2) == pow_wad(base, e1),
    decreases e2,
{
    if e1 < e2 {
        lemma_pow_wad_fixed(base, e1, (e2 - 1) as nat);
    }
}

/// A non-negative decimal number: `self.0 / WAD`.
#[derive(Clone, Copy, Debug, PartialEq, Eq, PartialOrd, Ord, Structural)]
pub struct Decimal(pub u128);

impl View for Decimal {
    type V = nat;

    /// The scaled value: the number times [`WAD`].
    open spec fn view(&self) -> nat {
        self.0 as nat
    }
}

impl From<u64> for Decimal {
    /// The whole number `val`.
    fn from(val: u64) -> (r: Decimal) {
        assert(val * WAD <= u128::MAX) by (nonlinear_arith)
            requires
                val <= 0xffff_ffff_ffff_ffff,
                WAD == 1_000_000_000_000_000_000,
        ;
        Decimal((val as u128) * WAD)
    }
}

impl vstd::std_specs::convert::FromSpecImpl<u64> for Decimal {
    open spec fn obeys_from_spec() -> bool {
        true
    }

    open spec fn from_spec(val: u64) -> Decimal {
        Decimal((val * WAD) as u128)
    }
}

impl Decimal {
    /// The decimal with scaled value `v`, where that fits.
    pub open spec fn checked(v: nat) -> Result<Decimal, MathError> {
        if v <= u128::MAX {
            Ok(Decimal(v as u128))
        } else {
            Err(MathError::Overflow)
        }
    }

    /// Zero.
    pub fn zero() -> (r: Decimal)
        ensures
            r@ == 0,
    {
        Decimal(0)
    }

    /// One.
    pub fn one() -> (r: Decimal)
        ensures
            r@ == WAD,
    {
        Decimal(WAD)
    }

    /// The rate `percent / 1000`.
    pub fn from_percent_3dp(percent: u32) -> (r: Decimal)
        ensures
            r@ == percent * PERCENT_3DP_SCALER,
    {
        assert(percent * PERCENT_3DP_SCALER <= u128::MAX) by (nonlinear_arith)
            requires
                percent <= 0xffff_ffff,
                PERCENT_3DP_SCALER == 1_000_000_000_000_000,
        ;
        Decimal((percent as u128) * PERCENT_3DP_SCALER)
    }

    /// The decimal whose scaled value is `scaled_val`.
    pub fn from_scaled_val(scaled_val: u128) -> (r: Decimal)
        ensures
            r@ == scaled_val,
    {
        Decimal(scaled_val)
    }

    /// The scaled value.
    pub fn to_scaled_val(&self) -> (r: u128)
        ensures
            r == self@,
    {
        self.0
    }

    /// The sum; `Overflow` where it does not fit.
    pub fn try_add(self, rhs: Decimal) -> (r: Result<Decimal, MathError>)
        ensures
            r == Decimal::checked(self@ + rhs@),
    {
        match self.0.checked_add(rhs.0) {
            Some(v) => Ok(Decimal(v)),
            None => Err(MathError::Overflow),
        }
    }

    /// The difference; `Underflow` where `rhs` is the greater.
    pub fn try_sub(self, rhs: Decimal) -> (r: Result<Decimal, MathError>)
        ensures
            r == (if rhs@ <= self@ {
                Ok::<Decimal, MathError>(Decimal((self@ - rhs@) as u128))
            } else {
                Err(MathError::Underflow)
            }),
    {
        match self.0.checked_sub(rhs.0) {
            Some(v) => Ok(Decimal(v)),
            None => Err(MathError::Underflow),
        }
    }

    /// The product, rounded down to the eighteenth decimal place; `Overflow`
    /// where it does not fit.
    pub fn try_mul(self, rhs: Decimal) -> (r: Result<Decimal, MathError>)
        ensures
            r == Decimal::checked(mul_wad(self@, rhs@)),
    {
        match mul_div_wad(self.0, rhs.0) {
            Some(v) => Ok(Decimal(v)),
            None => Err(MathError::Overflow),
        }
    }

    /// The product with a whole number; `Overflow` where it does not fit.
    pub fn try_mul_u64(self, rhs: u64) -> (r: Result<Decimal, MathError>)
        ensures
            r == Decimal::checked(self@ * (rhs as nat)),
    {
        match self.0.checked_mul(rhs as u128) {
            Some(v) => Ok(Decimal(v)),
            None => Err(MathError::Overflow),
        }
    }

    /// The quotient by a whole number, rounded down to the eighteenth decimal
    /// place; `DivideByZero` where `rhs` is zero.
    pub fn try_div(self, rhs: u64) -> (r: Result<Decimal, MathError>)
        ensures
            r == (if rhs == 0 {
                Err::<Decimal, MathError>(MathError::DivideByZero)
            } else {
                Ok(Decimal((self@ / (rhs as nat)) as u128))
            }),
    {
        if rhs == 0 {
            Err(MathError::DivideByZero)
        } else {
            Ok(Decimal(self.0 / (rhs as u128)))
        }
    }

    /// The power `self ^ exp` by repeated multiplication, each product rounded
    /// down; `Overflow` where it does not fit. It takes one multiplication
    /// for each unit of `exp`, unless the power stops changing before.
    pub fn try_pow(self, exp: u64) -> (r: Result<Decimal, MathError>)
        ensures
            r == Decimal::checked(pow_wad(self@, exp as nat)),
    {
        let mut acc: u128 = WAD;
        let mut i: u64 = 0;
        while i < exp
            invariant
                i <= exp,
                acc == pow_wad(self@, i as nat),
            decreases exp - i,
        {
            match mul_div_wad(acc, self.0) {
                Some(next) => {
                    if next == acc {
                        proof {
                            lemma_pow_wad_fixed(self@, i as nat, exp as nat);
                        }
                        return Ok(Decimal(acc));
                    }
                    acc = next;
                },
                None => {
                    proof {
                        assert(self@ >= WAD) by (nonlinear_arith)
                            requires
                                ((acc as nat) * self@) / (WAD as nat) > acc,
                                WAD == 1_000_000_000_000_000_000,
                        ;
                        lemma_pow_wad_monotonic(self@, (i + 1) as nat, exp as nat);
                    }
                    return Err(MathError::Overflow);
                },
            }
            i = i + 1;
        }
        Ok(Decimal(acc))
    }

    /// The nearest whole number, halves rounded up; `Overflow` where it does
    /// not fit in 64 bits.
    pub fn try_round_u64(&self) -> (r: Result<u64, MathError>)
        ensures
            r == (if round_wad(self@) <= u64::MAX {
                Ok::<u64, MathError>(round_wad(self@) as u64)
            } else {
                Err(MathError::Overflow)
            }),
    {
        match self.0.checked_add(HALF_WAD) {
            Some(v) => {
                let rounded: u128 = v / WAD;
                if rounded > 0xffff_ffff_ffff_ffff {
                    Err(MathError::Overflow)
                } else {
                    Ok(rounded as u64)
                }
            },
            None => Err(MathError::Overflow),
        }
    }

    /// The whole part; `Overflow` where it does not fit in 64 bits.
    pub fn try_floor_u64(&self) -> (r: Result<u64, MathError>)
        ensures
            r == (if floor_wad(self@) <= u64::MAX {
                Ok::<u64, MathError>(floor_wad(self@) as u64)
            } else {
                Err(MathError::Overflow)
            }),
    {
        let whole: u128 = self.0 / WAD;
        if whole > 0xffff_ffff_ffff_ffff {
            Err(MathError::Overflow)
        } else {
            Ok(whole as u64)
        }
    }
}

} // verus!
