//! Interest, fee and borrowing-limit calculations.

use vstd::prelude::*;
use crate::errors::ErrorCode;
use crate::math::{
    lemma_pow_wad_monotonic, mul_wad, pow_wad, round_wad, Decimal, MathError, HALF_WAD,
    PERCENT_3DP_SCALER, WAD,
};
use crate::pubkey::Pubkey;
use crate::state::loan::{Loan, LoanStatus};

verus! {

/// Ticks of the ledger's clock per second.
pub const DEFAULT_TICKS_PER_SECOND: u64 = 160;

/// Ticks of the ledger's clock per slot.
pub const DEFAULT_TICKS_PER_SLOT: u64 = 64;

/// Seconds per day.
pub const SECONDS_PER_DAY: u64 = 86_400;

/// Number of slots per year: two whole slots a second, for 365 days.
pub const SLOTS_PER_YEAR: u64 = 63_072_000;

/// Base units of the native asset per whole unit.
pub const LAMPORTS_PER_SOL: u64 = 1_000_000_000;

/// Reads `solana_program::clock::DEFAULT_TICKS_PER_SECOND`. Taken on trust:
/// that constant is 160, as [`DEFAULT_TICKS_PER_SECOND`] says.
#[verifier::external_body]
fn ticks_per_second() -> (r: u64)
    ensures
        r == DEFAULT_TICKS_PER_SECOND,
{
    anchor_lang::solana_program::clock::DEFAULT_TICKS_PER_SECOND
}

/// Reads `solana_program::clock::DEFAULT_TICKS_PER_SLOT`. Taken on trust:
/// that constant is 64, as [`DEFAULT_TICKS_PER_SLOT`] says.
#[verifier::external_body]
fn ticks_per_slot() -> (r: u64)
    ensures
        r == DEFAULT_TICKS_PER_SLOT,
{
    anchor_lang::solana_program::clock::DEFAULT_TICKS_PER_SLOT
}

/// Reads `solana_program::clock::SECONDS_PER_DAY`. Taken on trust: that
/// constant is 86 400, as [`SECONDS_PER_DAY`] says.
#[verifier::external_body]
fn seconds_per_day() -> (r: u64)
    ensures
        r == SECONDS_PER_DAY,
{
    anchor_lang::solana_program::clock::SECONDS_PER_DAY
}

/// Reads `solana_program::native_token::LAMPORTS_PER_SOL`. Taken on trust:
/// that constant is 1 000 000 000, as [`LAMPORTS_PER_SOL`] says.
#[verifier::external_body]
fn lamports_per_sol() -> (r: u64)
    ensures
        r == LAMPORTS_PER_SOL,
{
    anchor_lang::solana_program::native_token::LAMPORTS_PER_SOL
}

/// Whole slots per second.
pub open spec fn slots_per_second() -> nat {
    (DEFAULT_TICKS_PER_SECOND / DEFAULT_TICKS_PER_SLOT) as nat
}

/// The number of slots in `duration` seconds.
pub fn calculate_slots_in_duration(duration: u64) -> (r: u64)
    requires
        slots_per_second() * duration <= u64::MAX,
    ensures
        r == slots_per_second() * duration,
{
    ticks_per_second() / ticks_per_slot() * duration
}

/// The number of slots in a year, from the ledger's clock rate.
pub fn slots_per_year() -> (r: u64)
    ensures
        r == SLOTS_PER_YEAR,
{
    ticks_per_second() / ticks_per_slot() * seconds_per_day() * 365
}

/// The scaled value of a rate given in thousandths.
pub open spec fn rate_scaled(rate: u32) -> nat {
    (rate as nat) * (PERCENT_3DP_SCALER as nat)
}

/// The scaled value of the interest that a yearly rate earns in one slot,
/// rounded down.
pub open spec fn slot_rate_scaled(interest_rate: u32) -> nat {
    rate_scaled(interest_rate) / (SLOTS_PER_YEAR as nat)
}

/// The scaled factor by which an amount grows over `slots_elapsed` slots,
/// when interest is compounded every slot.
pub open spec fn compound_factor(interest_rate: u32, slots_elapsed: u64) -> nat {
    pow_wad((WAD as nat) + slot_rate_scaled(interest_rate), slots_elapsed as nat)
}

/// The scaled value of `borrow_amount` with interest compounded every slot.
pub open spec fn compound_interest_value(
    borrow_amount: u64,
    interest_rate: u32,
    slots_elapsed: u64,
) -> nat {
    compound_factor(interest_rate, slots_elapsed) * (borrow_amount as nat)
}

/// What [`compound_interest`] returns.
pub open spec fn compound_interest_spec(
    borrow_amount: u64,
    interest_rate: u32,
    slots_elapsed: u64,
) -> Result<Decimal, MathError> {
    if compound_factor(interest_rate, slots_elapsed) > u128::MAX {
        Err(MathError::Overflow)
    } else {
        Decimal::checked(compound_interest_value(borrow_amount, interest_rate, slots_elapsed))
    }
}

/// The amount owed on `borrow_amount` after `slots_elapsed` slots at the
/// yearly rate `interest_rate` (in thousandths), compounded every slot.
pub fn compound_interest(borrow_amount: u64, interest_rate: u32, slots_elapsed: u64) -> (r: Result<
    Decimal,
    MathError,
>)
    ensures
        r == compound_interest_spec(borrow_amount, interest_rate, slots_elapsed),
{
    let actual_rate: Decimal = Decimal::from_percent_3dp(interest_rate);
    let slot_interest_rate: Decimal = match actual_rate.try_div(slots_per_year()) {
        Ok(v) => v,
        Err(e) => {
            return Err(e);
        },
    };
    let base: Decimal = match Decimal::one().try_add(slot_interest_rate) {
        Ok(v) => v,
        Err(e) => {
            return Err(e);
        },
    };
    let compounded_interest_rate: Decimal = match base.try_pow(slots_elapsed) {
        Ok(v) => v,
        Err(e) => {
            return Err(e);
        },
    };
    compounded_interest_rate.try_mul_u64(borrow_amount)
}

/// The scaled value of the fee on `amount`.
pub open spec fn fee_value(amount: u64, fee_percentage: u32) -> nat {
    rate_scaled(fee_percentage) * (amount as nat)
}

/// The fee on `amount` at the rate `fee_percentage` (in thousandths).
pub fn calculate_fees(amount: u64, fee_percentage: u32) -> (r: Result<Decimal, MathError>)
    ensures
        r == Decimal::checked(fee_value(amount, fee_percentage)),
{
    let actual_rate: Decimal = Decimal::from_percent_3dp(fee_percentage);
    actual_rate.try_mul_u64(amount)
}

/// The scaled value of `borrow_amount` with one year's simple interest.
pub open spec fn uncompounded_interest_value(borrow_amount: u64, interest_rate: u32) -> nat {
    (borrow_amount as nat) * ((WAD as nat) + rate_scaled(interest_rate))
}

/// The amount owed on `borrow_amount` with one year's interest at the rate
/// `interest_rate` (in thousandths), not compounded.
pub fn uncompounded_interest(borrow_amount: u64, interest_rate: u32) -> (r: Result<
    Decimal,
    MathError,
>)
    ensures
        r == Decimal::checked(uncompounded_interest_value(borrow_amount, interest_rate)),
{
    let actual_rate: Decimal = Decimal::from_percent_3dp(interest_rate);
    let principal: Decimal = Decimal::from(borrow_amount);
    proof {
        let a = borrow_amount as nat;
        let w = WAD as nat;
        let x = rate_scaled(interest_rate);
        assert(principal@ == a * w);
        assert(((a * w) * x) / w == a * x) by (nonlinear_arith)
            requires
                w > 0,
        ;
        assert(a * (w + x) == a * w + a * x) by (nonlinear_arith);
    }
    let interest: Decimal = match principal.try_mul(actual_rate) {
        Ok(v) => v,
        Err(e) => {
            return Err(e);
        },
    };
    principal.try_add(interest)
}

/// The scaled value of the most that may be borrowed against `nft_worth`.
pub open spec fn max_amount_value(nft_worth: u64, ltv: u32) -> nat {
    (nft_worth as nat) * rate_scaled(ltv)
}

/// The most that may be borrowed against collateral worth `nft_worth` at the
/// loan-to-value ratio `ltv` (in thousandths).
pub fn max_amount_allowed(nft_worth: u64, ltv: u32) -> (r: Result<Decimal, MathError>)
    ensures
        r == Decimal::checked(max_amount_value(nft_worth, ltv)),
{
    let actual_rate: Decimal = Decimal::from_percent_3dp(ltv);
    let worth: Decimal = Decimal::from(nft_worth);
    proof {
        let a = nft_worth as nat;
        let w = WAD as nat;
        let x = rate_scaled(ltv);
        assert(worth@ == a * w);
        assert(((a * w) * x) / w == a * x) by (nonlinear_arith)
            requires
                w > 0,
        ;
    }
    worth.try_mul(actual_rate)
}

/// The scaled value of the interest alone that `requested_amount` has
/// earned after `slots_elapsed` slots.
pub open spec fn accrued_interest_value(
    requested_amount: u64,
    interest_rate: u32,
    slots_elapsed: u64,
) -> nat {
    (compound_interest_value(requested_amount, interest_rate, slots_elapsed) - (
    requested_amount as nat) * (WAD as nat)) as nat
}

/// What [`accrued_interest`] returns.
pub open spec fn accrued_interest_spec(
    requested_amount: u64,
    interest_rate: u32,
    slots_elapsed: u64,
) -> Result<u64, MathError> {
    if compound_interest_spec(requested_amount, interest_rate, slots_elapsed) is Err {
        Err(MathError::Overflow)
    } else if round_wad(accrued_interest_value(requested_amount, interest_rate, slots_elapsed))
        > u64::MAX {
        Err(MathError::Overflow)
    } else {
        Ok(
            round_wad(
                accrued_interest_value(requested_amount, interest_rate, slots_elapsed),
            ) as u64,
        )
    }
}

/// The interest that `requested_amount` earns over `slots_elapsed` slots at
/// the yearly rate `interest_rate`, compounded every slot and rounded to the
/// nearest whole unit, halves up.
pub fn accrued_interest(requested_amount: u64, interest_rate: u32, slots_elapsed: u64) -> (r:
    Result<u64, MathError>)
    ensures
        r == accrued_interest_spec(requested_amount, interest_rate, slots_elapsed),
{
    let compounded_so_far: Decimal = match compound_interest(
        requested_amount,
        interest_rate,
        slots_elapsed,
    ) {
        Ok(v) => v,
        Err(_) => {
            return Err(MathError::Overflow);
        },
    };
    proof {
        lemma_compound_covers_principal(requested_amount, interest_rate, slots_elapsed);
    }
    let principal: Decimal = Decimal::from(requested_amount);
    let new_interest_accrued: Decimal = match compounded_so_far.try_sub(principal) {
        Ok(v) => v,
        Err(e) => {
            return Err(e);
        },
    };
    match new_interest_accrued.try_round_u64() {
        Ok(v) => Ok(v),
        Err(_) => Err(MathError::Overflow),
    }
}

/// With interest, an amount is never less than without.
pub proof fn lemma_compound_covers_principal(
    borrow_amount: u64,
    interest_rate: u32,
    slots_elapsed: u64,
)
    ensures
        compound_interest_value(borrow_amount, interest_rate, slots_elapsed) >= (
        borrow_amount as nat) * (WAD as nat),
{
    let base = (WAD as nat) + slot_rate_scaled(interest_rate);
    lemma_pow_wad_monotonic(base, 0, slots_elapsed as nat);
    let f = compound_factor(interest_rate, slots_elapsed);
    let a = borrow_amount as nat;
    let w = WAD as nat;
    assert(f * a >= a * w) by (nonlinear_arith)
        requires
            f >= w,
    ;
}

/// Over no time, no interest accrues.
pub proof fn lemma_no_time_no_interest(requested_amount: u64, interest_rate: u32)
    ensures
        accrued_interest_spec(requested_amount, interest_rate, 0) == Ok::<u64, MathError>(0),
{
    let a = requested_amount as nat;
    let w = WAD as nat;
    assert(compound_factor(interest_rate, 0) == w);
    assert(w * a == a * w) by (nonlinear_arith);
    assert(a * w <= u128::MAX) by (nonlinear_arith)
        requires
            a <= 0xffff_ffff_ffff_ffff,
            w == 1_000_000_000_000_000_000,
    ;
}

/// What [`platform_fee`] returns.
pub open spec fn platform_fee_spec(amount: u64, fee_percentage: u32) -> Result<u64, ErrorCode> {
    if fee_value(amount, fee_percentage) > u128::MAX {
        Err(ErrorCode::MathOverflow)
    } else if round_wad(fee_value(amount, fee_percentage)) > u64::MAX {
        Err(ErrorCode::MathOverflow)
    } else {
        Ok(round_wad(fee_value(amount, fee_percentage)) as u64)
    }
}

/// The platform's fee on a loan of `amount`, rounded to the nearest whole
/// unit, halves up.
pub fn platform_fee(amount: u64, fee_percentage: u32) -> (r: Result<u64, ErrorCode>)
    ensures
        r == platform_fee_spec(amount, fee_percentage),
{
    let fee: Decimal = match calculate_fees(amount, fee_percentage) {
        Ok(v) => v,
        Err(e) => {
            return Err(ErrorCode::from_math(e));
        },
    };
    match fee.try_round_u64() {
        Ok(v) => Ok(v),
        Err(e) => Err(ErrorCode::from_math(e)),
    }
}

/// At a rate of at most one, the fee can be represented and is no more than
/// the amount it is taken from.
pub proof fn lemma_fee_within_amount(amount: u64, fee_percentage: u32)
    requires
        fee_percentage <= 1000,
    ensures
        platform_fee_spec(amount, fee_percentage) matches Ok(fee) && fee <= amount,
{
    let a = amount as nat;
    let w = WAD as nat;
    let x = rate_scaled(fee_percentage);
    let half = HALF_WAD as nat;
    assert(x <= w) by (nonlinear_arith)
        requires
            x == (fee_percentage as nat) * 1_000_000_000_000_000,
            fee_percentage <= 1000,
            w == 1_000_000_000_000_000_000,
    ;
    assert(x * a <= a * w) by (nonlinear_arith)
        requires
            x <= w,
    ;
    assert(a * w <= u128::MAX) by (nonlinear_arith)
        requires
            a <= 0xffff_ffff_ffff_ffff,
            w == 1_000_000_000_000_000_000,
    ;
    assert((x * a + half) / w <= a) by (nonlinear_arith)
        requires
            x * a <= a * w,
            half < w,
            w > 0,
    ;
}

/// An equal share of `amount` for each of `count` claimants, rounded down;
/// `DivideByZero` where there is no claimant.
pub fn split_evenly(amount: u64, count: u64) -> (r: Result<u64, MathError>)
    ensures
        r == (if count == 0 {
            Err::<u64, MathError>(MathError::DivideByZero)
        } else {
            Ok((amount / count) as u64)
        }),
{
    let whole: Decimal = Decimal::from(amount);
    let share: Decimal = match whole.try_div(count) {
        Ok(v) => v,
        Err(e) => {
            return Err(e);
        },
    };
    proof {
        let a = amount as int;
        let n = count as int;
        let w = WAD as int;
        vstd::arithmetic::div_mod::lemma_div_denominator(a * w, n, w);
        vstd::arithmetic::div_mod::lemma_div_multiples_vanish_quotient(w, a, n);
        assert(a * w == w * a) by (nonlinear_arith);
        assert(n * w == w * n) by (nonlinear_arith);
        assert(a / n <= a) by (nonlinear_arith)
            requires
                a >= 0,
                n > 0,
        ;
    }
    share.try_floor_u64()
}

/// An amount of one asset that the custody service is to move.
#[derive(Clone, Copy, Debug, PartialEq, Eq, Structural)]
pub struct Payment {
    /// Whether the asset is the ledger's native asset, not a token.
    pub native: bool,
    /// The amount in the asset's base units.
    pub amount: u64,
}

/// What [`payment`] returns.
pub open spec fn payment_spec(token_mint: Pubkey, amount: u64) -> Result<Payment, ErrorCode> {
    if token_mint == Pubkey::zero() {
        if amount * LAMPORTS_PER_SOL > u64::MAX {
            Err(ErrorCode::MathOverflow)
        } else {
            Ok(Payment { native: true, amount: (amount * LAMPORTS_PER_SOL) as u64 })
        }
    } else {
        Ok(Payment { native: false, amount })
    }
}

/// The payment of `amount` units of the asset `token_mint`. The all-zero
/// address stands for the native asset, whose units are counted in
/// [`LAMPORTS_PER_SOL`] base units each; a token's units are its base units.
pub fn payment(token_mint: Pubkey, amount: u64) -> (r: Result<Payment, ErrorCode>)
    ensures
        r == payment_spec(token_mint, amount),
{
    if token_mint.is_default() {
        match amount.checked_mul(lamports_per_sol()) {
            Some(v) => Ok(Payment { native: true, amount: v }),
            None => Err(ErrorCode::MathOverflow),
        }
    } else {
        Ok(Payment { native: false, amount })
    }
}

/// Marks a loan as repaid. The custody service then burns the borrower's
/// claim and hands the collateral back.
pub fn complete_loan(loan: &mut Loan)
    ensures
        *final(loan) == (Loan { status: LoanStatus::Repaid.code_spec(), ..*old(loan) }),
{
    loan.status = LoanStatus::Repaid.to_code();
}

proof fn lemma_mul_wad_grow(p: nat, s: nat)
    ensures
        mul_wad(p, (WAD as nat) + s) == p + (p * s) / (WAD as nat),
{
    let w = WAD as nat;
    let m = p * s;
    assert(p * (w + s) == p * w + m) by (nonlinear_arith)
        requires
            m == p * s,
    ;
    assert((p * w + m) / w == p + m / w) by (nonlinear_arith)
        requires
            w > 0,
    ;
}

proof fn lemma_pow_wad_linear_bound(s: nat, e: nat)
    ensures
        pow_wad((WAD as nat) + s, e) >= (WAD as nat) + e * s,
    decreases e,
{
    let w = WAD as nat;
    if e > 0 {
        let d = (e - 1) as nat;
        let p = pow_wad(w + s, d);
        lemma_pow_wad_linear_bound(s, d);
        lemma_mul_wad_grow(p, s);
        assert(d * s >= 0) by (nonlinear_arith);
        assert((p * s) / w >= s) by (nonlinear_arith)
            requires
                p >= w,
                w > 0,
        ;
        assert(e * s == d * s + s) by (nonlinear_arith)
            requires
                e == d + 1,
        ;
    } else {
        assert(e * s == 0) by (nonlinear_arith)
            requires
                e == 0,
        ;
    }
}

proof fn lemma_pow_wad_quadratic_bound(s: nat, h: nat, e: nat)
    requires
        h * s * s >= 2 * WAD,
        e >= h,
    ensures
        pow_wad((WAD as nat) + s, e) >= (WAD as nat) + e * s + 2 * (e - h),
    decreases e,
{
    let w = WAD as nat;
    if e == h {
        lemma_pow_wad_linear_bound(s, e);
    } else {
        let d = (e - 1) as nat;
        let p = pow_wad(w + s, d);
        lemma_pow_wad_quadratic_bound(s, h, d);
        lemma_pow_wad_linear_bound(s, d);
        lemma_mul_wad_grow(p, s);
        assert(d * s >= h * s) by (nonlinear_arith)
            requires
                d >= h,
        ;
        assert((p * s) / w >= s + 2) by (nonlinear_arith)
            requires
                p >= w + h * s,
                h * s * s >= 2 * w,
                w > 0,
        ;
        assert(e * s == d * s + s) by (nonlinear_arith)
            requires
                e == d + 1,
        ;
    }
}

/// Over a year or more, compounding every slot yields at least what one year
/// of simple interest yields.
pub proof fn lemma_compound_factor_covers_rate(interest_rate: u32, slots_elapsed: u64)
    requires
        slots_elapsed >= SLOTS_PER_YEAR,
    ensures
        compound_factor(interest_rate, slots_elapsed) >= (WAD as nat) + rate_scaled(interest_rate),
{
    let w = WAD as nat;
    let n = SLOTS_PER_YEAR as nat;
    let h: nat = 31_536_000;
    let r = rate_scaled(interest_rate);
    let s = slot_rate_scaled(interest_rate);
    lemma_pow_wad_monotonic(w + s, n, slots_elapsed as nat);
    if interest_rate == 0 {
        lemma_pow_wad_linear_bound(s, n);
        assert(n * s >= 0) by (nonlinear_arith);
    } else {
        assert(r >= 1_000_000_000_000_000) by (nonlinear_arith)
            requires
                r == (interest_rate as nat) * 1_000_000_000_000_000,
                interest_rate >= 1,
        ;
        assert(s >= 15_854_895);
        assert(h * s * s >= 2 * w) by (nonlinear_arith)
            requires
                s >= 15_854_895,
                h == 31_536_000,
                w == 1_000_000_000_000_000_000,
        ;
        lemma_pow_wad_quadratic_bound(s, h, n);
        assert(r == n * s + r % n) by (nonlinear_arith)
            requires
                s == r / n,
                n > 0,
        ;
    }
}

/// Compound interest never falls as time passes.
pub proof fn lemma_compound_interest_monotonic(
    borrow_amount: u64,
    interest_rate: u32,
    earlier: u64,
    later: u64,
)
    requires
        earlier <= later,
    ensures
        compound_interest_value(borrow_amount, interest_rate, earlier) <= compound_interest_value(
            borrow_amount,
            interest_rate,
            later,
        ),
        compound_interest_spec(borrow_amount, interest_rate, later) is Ok
            ==> compound_interest_spec(borrow_amount, interest_rate, earlier) is Ok,
{
    let base = (WAD as nat) + slot_rate_scaled(interest_rate);
    lemma_pow_wad_monotonic(base, earlier as nat, later as nat);
    let f1 = compound_factor(interest_rate, earlier);
    let f2 = compound_factor(interest_rate, later);
    let a = borrow_amount as nat;
    assert(f1 * a <= f2 * a) by (nonlinear_arith)
        requires
            f1 <= f2,
    ;
}

/// After a year or more, compound interest is at least one year's simple
/// interest: where both amounts can be represented, the compounded one is
/// the greater or they are equal, and where the compounded one can be
/// represented, so can the other.
pub proof fn lemma_compound_at_least_uncompounded(
    borrow_amount: u64,
    interest_rate: u32,
    slots_elapsed: u64,
)
    requires
        slots_elapsed >= SLOTS_PER_YEAR,
    ensures
        compound_interest_value(borrow_amount, interest_rate, slots_elapsed)
            >= uncompounded_interest_value(borrow_amount, interest_rate),
        compound_interest_spec(borrow_amount, interest_rate, slots_elapsed) is Ok
            ==> Decimal::checked(uncompounded_interest_value(borrow_amount, interest_rate)) is Ok,
{
    lemma_compound_factor_covers_rate(interest_rate, slots_elapsed);
    let f = compound_factor(interest_rate, slots_elapsed);
    let g = (WAD as nat) + rate_scaled(interest_rate);
    let a = borrow_amount as nat;
    assert(f * a >= a * g) by (nonlinear_arith)
        requires
            f >= g,
    ;
}

/// Below a loan-to-value ratio of one, the borrowing limit on collateral of
/// positive worth can be represented and is less than that worth.
pub proof fn lemma_max_amount_below_worth(nft_worth: u64, ltv: u32)
    requires
        nft_worth > 0,
        ltv < 1000,
    ensures
        max_amount_value(nft_worth, ltv) < (nft_worth as nat) * (WAD as nat),
        Decimal::checked(max_amount_value(nft_worth, ltv)) is Ok,
{
    let a = nft_worth as nat;
    let x = rate_scaled(ltv);
    let w = WAD as nat;
    assert(x < w) by (nonlinear_arith)
        requires
            x == (ltv as nat) * 1_000_000_000_000_000,
            ltv < 1000,
            w == 1_000_000_000_000_000_000,
    ;
    assert(a * x < a * w) by (nonlinear_arith)
        requires
            x < w,
            a > 0,
    ;
    assert(a * w <= u128::MAX) by (nonlinear_arith)
        requires
            a <= 0xffff_ffff_ffff_ffff,
            w == 1_000_000_000_000_000_000,
    ;
}

} // verus!
