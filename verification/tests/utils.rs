use p2p_nft_lending::errors::ErrorCode;
use p2p_nft_lending::math::{Decimal, MathError, WAD};
use p2p_nft_lending::pubkey::Pubkey;
use p2p_nft_lending::state::{Loan, LoanStatus};
use p2p_nft_lending::utils::{
    accrued_interest, calculate_fees, calculate_slots_in_duration, complete_loan,
    compound_interest, max_amount_allowed, payment, platform_fee, slots_per_year, split_evenly,
    uncompounded_interest, Payment, DEFAULT_TICKS_PER_SECOND, DEFAULT_TICKS_PER_SLOT,
    LAMPORTS_PER_SOL, SECONDS_PER_DAY, SLOTS_PER_YEAR,
};

#[test]
fn test_fee() {
    let fee = calculate_fees(10000, 50).unwrap().try_round_u64().unwrap();
    assert!(fee == 500);
}

#[test]
fn slots_per_year_follows_from_the_clock() {
    assert_eq!(
        SLOTS_PER_YEAR,
        DEFAULT_TICKS_PER_SECOND / DEFAULT_TICKS_PER_SLOT * SECONDS_PER_DAY * 365
    );
    assert_eq!(SLOTS_PER_YEAR, 63_072_000);
    assert_eq!(LAMPORTS_PER_SOL, 1_000_000_000);
    // the ledger's own constants give the same year
    assert_eq!(slots_per_year(), SLOTS_PER_YEAR);
}

#[test]
fn a_native_unit_is_a_billion_base_units() {
    assert_eq!(
        payment(Pubkey::default(), 1),
        Ok(Payment { native: true, amount: LAMPORTS_PER_SOL })
    );
}

#[test]
fn slots_in_duration_counts_two_a_second() {
    assert_eq!(calculate_slots_in_duration(0), 0);
    assert_eq!(calculate_slots_in_duration(10), 20);
    assert_eq!(calculate_slots_in_duration(86_400 * 365), SLOTS_PER_YEAR);
    assert_eq!(calculate_slots_in_duration(u64::MAX / 2), u64::MAX - 1);
}

#[test]
fn calculate_fees_is_rate_times_amount() {
    assert_eq!(calculate_fees(10000, 50), Ok(Decimal(500 * WAD)));
    assert_eq!(calculate_fees(1000, 10), Ok(Decimal::from(10u64)));
    assert_eq!(calculate_fees(0, 10), Ok(Decimal::zero()));
    assert_eq!(calculate_fees(15, 10), Ok(Decimal(150_000_000_000_000_000)));
    assert_eq!(calculate_fees(u64::MAX, u32::MAX), Err(MathError::Overflow));
}

#[test]
fn platform_fee_rounds_half_up() {
    assert_eq!(platform_fee(1000, 10), Ok(10));
    assert_eq!(platform_fee(10000, 50), Ok(500));
    // 1% of 149 is 1.49, of 150 is 1.5
    assert_eq!(platform_fee(149, 10), Ok(1));
    assert_eq!(platform_fee(150, 10), Ok(2));
    assert_eq!(platform_fee(49, 10), Ok(0));
    assert_eq!(platform_fee(u64::MAX, u32::MAX), Err(ErrorCode::MathOverflow));
    // the fee fits in the decimal but not in 64 bits
    assert_eq!(platform_fee(u64::MAX, 2000), Err(ErrorCode::MathOverflow));
}

#[test]
fn uncompounded_interest_adds_one_year() {
    assert_eq!(uncompounded_interest(1000, 100), Ok(Decimal::from(1100u64)));
    assert_eq!(uncompounded_interest(4000, 100), Ok(Decimal::from(4400u64)));
    assert_eq!(uncompounded_interest(1000, 0), Ok(Decimal::from(1000u64)));
    assert_eq!(uncompounded_interest(0, 100), Ok(Decimal::zero()));
    assert_eq!(uncompounded_interest(1, 1), Ok(Decimal(WAD + 1_000_000_000_000_000)));
    assert_eq!(uncompounded_interest(u64::MAX, u32::MAX), Err(MathError::Overflow));
}

#[test]
fn max_amount_allowed_is_ratio_of_worth() {
    assert_eq!(max_amount_allowed(10000, 500), Ok(Decimal::from(5000u64)));
    assert_eq!(max_amount_allowed(10000, 950), Ok(Decimal::from(9500u64)));
    assert_eq!(max_amount_allowed(10000, 1000), Ok(Decimal::from(10000u64)));
    assert_eq!(max_amount_allowed(0, 500), Ok(Decimal::zero()));
    assert_eq!(max_amount_allowed(u64::MAX, u32::MAX), Err(MathError::Overflow));
}

#[test]
fn max_amount_allowed_is_below_worth_under_full_ratio() {
    for worth in [1u64, 10000, 123_456_789, u64::MAX] {
        for ltv in [0u32, 1, 500, 950, 999] {
            let max_borrow = max_amount_allowed(worth, ltv).unwrap();
            assert!(max_borrow < Decimal::from(worth));
        }
    }
}

#[test]
fn compound_interest_exact_values() {
    assert_eq!(compound_interest(1_000_000, 100, 0), Ok(Decimal::from(1_000_000u64)));
    assert_eq!(
        compound_interest(1_000_000, 100, 1000),
        Ok(Decimal(1_000_001_585_490_854_135_000_000))
    );
    assert_eq!(compound_interest(1, 200, 10), Ok(Decimal(1_000_000_031_709_792_430)));
    assert_eq!(compound_interest(0, 200, 10), Ok(Decimal::zero()));
    assert_eq!(compound_interest(77, 0, 1_000_000), Ok(Decimal::from(77u64)));
}

#[test]
fn compound_interest_checks_overflow() {
    assert_eq!(compound_interest(u64::MAX, 100, 0), Ok(Decimal::from(u64::MAX)));
    assert_eq!(compound_interest(u64::MAX, u32::MAX, 1000), Err(MathError::Overflow));
}

#[test]
fn compound_interest_does_not_fall_with_time() {
    let mut last = compound_interest(123_456, 150, 0).unwrap();
    for slots in 1..2000u64 {
        let next = compound_interest(123_456, 150, slots).unwrap();
        assert!(last <= next);
        last = next;
    }
}

#[test]
fn compound_interest_over_a_year_covers_simple_interest() {
    let compounded = compound_interest(1000, 100, SLOTS_PER_YEAR).unwrap();
    let un_compounded = uncompounded_interest(1000, 100).unwrap();
    assert_eq!(compounded, Decimal(1_105_170_917_941_748_153_000));
    assert!(compounded >= un_compounded);
    assert!(compounded > un_compounded);
}

#[test]
fn compound_interest_on_the_largest_amount() {
    let compounded = compound_interest(u64::MAX, 200, SLOTS_PER_YEAR).unwrap();
    let un_compounded = uncompounded_interest(u64::MAX, 200).unwrap();
    assert_eq!(compounded, Decimal(22_530_904_082_380_113_350_744_687_338_495_102_545));
    assert_eq!(un_compounded, Decimal(22_136_092_888_451_461_938_000_000_000_000_000_000));
    assert!(compounded > un_compounded);
    // the lowest rate above zero
    let compounded = compound_interest(u64::MAX, 1, SLOTS_PER_YEAR + 1).unwrap();
    let un_compounded = uncompounded_interest(u64::MAX, 1).unwrap();
    assert!(compounded > un_compounded);
}

#[test]
fn accrued_interest_is_rounded_growth() {
    assert_eq!(accrued_interest(1_000_000, 100, 1000), Ok(2));
    assert_eq!(accrued_interest(1_000_000_000, 100, 100_000), Ok(158_562));
    assert_eq!(accrued_interest(1_000_000_000, 100, 0), Ok(0));
    assert_eq!(accrued_interest(1_000_000_000, 0, 100_000), Ok(0));
    assert_eq!(accrued_interest(u64::MAX, u32::MAX, 1000), Err(MathError::Overflow));
}

#[test]
fn payment_counts_native_units_in_lamports() {
    let native = Pubkey::default();
    let token = Pubkey::new(9, 0, 0, 0);
    assert_eq!(payment(native, 990), Ok(Payment { native: true, amount: 990_000_000_000 }));
    assert_eq!(payment(token, 990), Ok(Payment { native: false, amount: 990 }));
    assert_eq!(payment(token, u64::MAX), Ok(Payment { native: false, amount: u64::MAX }));
    assert_eq!(
        payment(native, 18_446_744_073),
        Ok(Payment { native: true, amount: 18_446_744_073_000_000_000 })
    );
    assert_eq!(payment(native, 18_446_744_074), Err(ErrorCode::MathOverflow));
}

#[test]
fn split_evenly_rounds_down() {
    assert_eq!(split_evenly(300, 3), Ok(100));
    assert_eq!(split_evenly(10, 3), Ok(3));
    assert_eq!(split_evenly(2, 3), Ok(0));
    assert_eq!(split_evenly(u64::MAX, 1), Ok(u64::MAX));
    assert_eq!(split_evenly(u64::MAX, u64::MAX), Ok(1));
    assert_eq!(split_evenly(5, 0), Err(MathError::DivideByZero));
}

#[test]
fn complete_loan_marks_repaid() {
    let key = Pubkey::new(1, 2, 3, 4);
    let mut loan = Loan {
        loan_fee_acct: None,
        nft_mint: key,
        borrow_nft_mint: key,
        lend_nft_mint: key,
        requested_token_mint: key,
        ltv: 500,
        fee_percentage: 10,
        interest_rate: 100,
        nft_worth: 10000,
        requested_amount: 1000,
        outstanding_debt: 0,
        paid_amount: 1000,
        amount_sold: 0,
        status: LoanStatus::TokensWithdrawn.to_code(),
        slot_duration: 100,
        start_slot: 5,
        last_updated_slot: 50,
    };
    let before = loan;
    complete_loan(&mut loan);
    assert_eq!(loan, Loan { status: LoanStatus::Repaid.to_code(), ..before });
}
