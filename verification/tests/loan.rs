use p2p_nft_lending::custody::{Claim, CustodyAction, Holder};
use p2p_nft_lending::errors::ErrorCode;
use p2p_nft_lending::instructions::borrower::{
    borrower_withdraw_tokens, cancel_loan_request, repay_loan, request_for_loan,
    LoanRequestCancelled, LoanRequestMade, Repayment,
};
use p2p_nft_lending::instructions::lender::{
    grant_loan, lender_withdraw_tokens, seize_nft, sell_nft, GrantLoanAccounts, LoanFunding,
    LoanGranted,
};
use p2p_nft_lending::instructions::third_party::{buy_nft, refresh_loan};
use p2p_nft_lending::pubkey::Pubkey;
use p2p_nft_lending::state::{GrantLoan, Loan, LoanFee, LoanRequest, LoanStatus, Multisig, PlatformFees};
use p2p_nft_lending::utils::Payment;

fn key(n: u64) -> Pubkey {
    Pubkey::new(n, 0, 0, 0)
}

fn pay(from: Holder, to: Holder, native: bool, amount: u64) -> CustodyAction {
    CustodyAction::Pay { from, to, payment: Payment { native, amount } }
}

fn to_borrower(native: bool, amount: u64) -> Vec<CustodyAction> {
    vec![pay(Holder::LoanEscrow, Holder::Borrower, native, amount)]
}

fn to_lender(native: bool, amount: u64) -> Vec<CustodyAction> {
    vec![
        pay(Holder::LoanEscrow, Holder::Lender, native, amount),
        CustodyAction::BurnClaim { claim: Claim::Lender },
    ]
}

fn from_buyer(native: bool, amount: u64) -> Vec<CustodyAction> {
    vec![
        pay(Holder::Buyer, Holder::LoanEscrow, native, amount),
        CustodyAction::MoveCollateral { from: Holder::CollateralEscrow, to: Holder::Buyer },
    ]
}

fn repaid(native: bool, amount: u64, completed: bool) -> Vec<CustodyAction> {
    let mut actions = vec![pay(Holder::Borrower, Holder::LoanEscrow, native, amount)];
    if completed {
        actions.push(CustodyAction::BurnClaim { claim: Claim::Borrower });
        actions.push(CustodyAction::MoveCollateral {
            from: Holder::CollateralEscrow,
            to: Holder::Borrower,
        });
    }
    actions
}

fn fees(fee: u32, interest: u32, ltv: u32) -> PlatformFees {
    PlatformFees { fee_percentage: fee, interest_rate: interest, ltv, uncollected_fees: vec![] }
}

fn blank_request() -> LoanRequest {
    LoanRequest {
        nft_worth: 0,
        nft_mint: Pubkey::default(),
        requested_amount: 0,
        requested_token_mint: Pubkey::default(),
        slot_duration: 0,
        loan: None,
        borrow_nft_mint: Pubkey::default(),
    }
}

fn blank_grant() -> GrantLoan {
    GrantLoan {
        nft_worth: 0,
        granted_amount: 0,
        requested_token_mint: Pubkey::default(),
        loan_request: Pubkey::default(),
        slot_duration: 0,
        loan: Pubkey::default(),
        lend_nft_mint: Pubkey::default(),
    }
}

fn blank_loan() -> Loan {
    Loan {
        loan_fee_acct: None,
        nft_mint: Pubkey::default(),
        borrow_nft_mint: Pubkey::default(),
        lend_nft_mint: Pubkey::default(),
        requested_token_mint: Pubkey::default(),
        ltv: 0,
        fee_percentage: 0,
        interest_rate: 0,
        nft_worth: 0,
        requested_amount: 0,
        outstanding_debt: 0,
        paid_amount: 0,
        amount_sold: 0,
        status: 0,
        slot_duration: 0,
        start_slot: 0,
        last_updated_slot: 0,
    }
}

fn blank_fee() -> LoanFee {
    LoanFee {
        amount: 0,
        token_mint: Pubkey::default(),
        loan: Pubkey::default(),
        escrow: Pubkey::default(),
        owners: vec![],
    }
}

fn accounts() -> GrantLoanAccounts {
    GrantLoanAccounts {
        loan_request: key(20),
        loan: key(21),
        loan_fee: key(22),
        loan_fee_escrow: key(23),
        lend_nft_mint: key(24),
        lender: key(25),
        requested_token_account: key(26),
        requested_token_account_owner: key(25),
    }
}

fn owners() -> Multisig {
    Multisig { threshold: 2, seqno: 0, owners: vec![key(1), key(2), key(3)] }
}

/// A loan of 1_000_000_000 token units at 10% a year and a fee of 1%,
/// granted at slot 100 for 200_000 slots, whose funds the borrower has taken.
fn running_loan(mint: Pubkey) -> Loan {
    Loan {
        loan_fee_acct: Some(key(22)),
        nft_mint: key(10),
        borrow_nft_mint: key(12),
        lend_nft_mint: key(24),
        requested_token_mint: mint,
        ltv: 500,
        fee_percentage: 10,
        interest_rate: 100,
        nft_worth: 10_000_000_000,
        requested_amount: 1_000_000_000,
        outstanding_debt: 1_000_000_000,
        paid_amount: 0,
        amount_sold: 0,
        status: LoanStatus::TokensWithdrawn.to_code(),
        slot_duration: 200_000,
        start_slot: 100,
        last_updated_slot: 100,
    }
}

#[test]
fn status_codes() {
    let all = [
        (LoanStatus::Started, 0u8),
        (LoanStatus::TokensWithdrawn, 1),
        (LoanStatus::Repaid, 2),
        (LoanStatus::Defaulted, 3),
        (LoanStatus::Seize, 4),
        (LoanStatus::Completed, 5),
        (LoanStatus::Sell, 6),
        (LoanStatus::Sold, 7),
    ];
    for (status, code) in all {
        assert_eq!(status.to_code(), code);
        assert_eq!(LoanStatus::from(code), Ok(status));
    }
    assert_eq!(LoanStatus::from(8), Err(ErrorCode::InvalidStatus));
    assert_eq!(LoanStatus::from(255), Err(ErrorCode::InvalidStatus));
}

#[test]
fn loan_record_sizes() {
    assert_eq!(LoanRequest::MAX_SIZE, 153);
    assert_eq!(GrantLoan::MAX_SIZE, 152);
    assert_eq!(Loan::MAX_SIZE, 238);
}

#[test]
fn init_fills_the_records() {
    let mut request = LoanRequest { loan: Some(key(99)), ..blank_request() };
    assert_eq!(request.init(10000, key(10), 4000, key(11), 500, key(12)), Ok(()));
    assert_eq!(
        request,
        LoanRequest {
            nft_worth: 10000,
            nft_mint: key(10),
            requested_amount: 4000,
            requested_token_mint: key(11),
            slot_duration: 500,
            loan: None,
            borrow_nft_mint: key(12),
        }
    );
    let mut grant = GrantLoan { loan: key(77), ..blank_grant() };
    assert_eq!(grant.init(10000, 4000, key(11), key(20), 500, key(24)), Ok(()));
    assert_eq!(
        grant,
        GrantLoan {
            nft_worth: 10000,
            granted_amount: 4000,
            requested_token_mint: key(11),
            loan_request: key(20),
            slot_duration: 500,
            loan: key(77),
            lend_nft_mint: key(24),
        }
    );
    let mut loan = Loan {
        loan_fee_acct: Some(key(5)),
        paid_amount: 9,
        amount_sold: 9,
        status: 7,
        ..blank_loan()
    };
    assert_eq!(
        loan.init(key(10), key(12), key(24), key(11), 500, 10, 100, 10000, 4000, 500, 42),
        Ok(())
    );
    assert_eq!(
        loan,
        Loan {
            loan_fee_acct: Some(key(5)),
            nft_mint: key(10),
            borrow_nft_mint: key(12),
            lend_nft_mint: key(24),
            requested_token_mint: key(11),
            ltv: 500,
            fee_percentage: 10,
            interest_rate: 100,
            nft_worth: 10000,
            requested_amount: 4000,
            outstanding_debt: 4000,
            paid_amount: 0,
            amount_sold: 0,
            status: 0,
            slot_duration: 500,
            start_slot: 42,
            last_updated_slot: 42,
        }
    );
}

#[test]
fn request_within_the_borrowing_limit() {
    // collateral worth 10000 at a loan-to-value ratio of 50%: at most 5000
    let platform = fees(10, 0, 500);
    let mut request = blank_request();
    let made = request_for_loan(
        &platform, &mut request, key(20), key(10), key(11), key(12), 1, 10000, 4000, 500,
    );
    assert_eq!(
        made,
        Ok((
            LoanRequestMade {
                loan_request: key(20),
                nft_worth: 10000,
                nft_mint: key(10),
                requested_amount: 4000,
                requested_token_mint: key(11),
                duration: 500,
                borrow_nft_mint: key(12),
            },
            vec![
                CustodyAction::MoveCollateral {
                    from: Holder::Borrower,
                    to: Holder::CollateralEscrow
                },
                CustodyAction::TakeMintAuthority { claim: Claim::Borrower },
                CustodyAction::MintClaim { claim: Claim::Borrower },
            ]
        ))
    );
    assert_eq!(
        request,
        LoanRequest {
            nft_worth: 10000,
            nft_mint: key(10),
            requested_amount: 4000,
            requested_token_mint: key(11),
            slot_duration: 500,
            loan: None,
            borrow_nft_mint: key(12),
        }
    );
}

#[test]
fn request_beyond_the_borrowing_limit() {
    let platform = fees(10, 0, 500);
    let mut request = blank_request();
    let refused = request_for_loan(
        &platform, &mut request, key(20), key(10), key(11), key(12), 1, 10000, 6000, 500,
    );
    assert_eq!(refused, Err(ErrorCode::MaxBorrowExceeded));
    assert_eq!(request, blank_request());
    // exactly the limit is allowed, one more is not
    assert!(request_for_loan(
        &platform, &mut blank_request(), key(20), key(10), key(11), key(12), 1, 10000, 5000, 500
    )
    .is_ok());
    assert_eq!(
        request_for_loan(
            &platform, &mut blank_request(), key(20), key(10), key(11), key(12), 1, 10000, 5001, 500
        ),
        Err(ErrorCode::MaxBorrowExceeded)
    );
}

#[test]
fn request_counts_a_year_of_simple_interest() {
    // at 10% interest 4545 comes to 4999.5, 4546 to 5000.6
    let platform = fees(10, 100, 500);
    assert!(request_for_loan(
        &platform, &mut blank_request(), key(20), key(10), key(11), key(12), 1, 10000, 4545, 500
    )
    .is_ok());
    assert_eq!(
        request_for_loan(
            &platform, &mut blank_request(), key(20), key(10), key(11), key(12), 1, 10000, 4546, 500
        ),
        Err(ErrorCode::MaxBorrowExceeded)
    );
}

#[test]
fn request_needs_the_collateral() {
    let platform = fees(10, 100, 500);
    let mut request = blank_request();
    assert_eq!(
        request_for_loan(
            &platform, &mut request, key(20), key(10), key(11), key(12), 0, 10000, 4000, 500
        ),
        Err(ErrorCode::InsufficientFunds)
    );
    assert_eq!(request, blank_request());
}

#[test]
fn request_reports_overflow() {
    let platform = fees(10, u32::MAX, 500);
    assert_eq!(
        request_for_loan(
            &platform, &mut blank_request(), key(20), key(10), key(11), key(12), 1, 10000,
            u64::MAX, 500
        ),
        Err(ErrorCode::MathOverflow)
    );
    let platform = fees(10, 0, u32::MAX);
    assert_eq!(
        request_for_loan(
            &platform, &mut blank_request(), key(20), key(10), key(11), key(12), 1, u64::MAX, 1, 500
        ),
        Err(ErrorCode::MathOverflow)
    );
}

#[test]
fn cancel_before_a_grant() {
    let request = LoanRequest { requested_amount: 4000, ..blank_request() };
    assert_eq!(
        cancel_loan_request(&request, key(20), 1, 1),
        Ok((
            LoanRequestCancelled { loan_request: key(20) },
            vec![
                CustodyAction::BurnClaim { claim: Claim::Borrower },
                CustodyAction::MoveCollateral {
                    from: Holder::CollateralEscrow,
                    to: Holder::Borrower
                },
                CustodyAction::CloseCollateralEscrow,
            ]
        ))
    );
    assert_eq!(cancel_loan_request(&request, key(20), 0, 1), Err(ErrorCode::InsufficientFunds));
    assert_eq!(cancel_loan_request(&request, key(20), 1, 0), Err(ErrorCode::InsufficientFunds));
}

#[test]
fn cancel_after_a_grant_is_refused() {
    let request = LoanRequest { loan: Some(key(21)), ..blank_request() };
    assert_eq!(cancel_loan_request(&request, key(20), 1, 1), Err(ErrorCode::UnableToCancel));
    assert_eq!(cancel_loan_request(&request, key(20), 0, 0), Err(ErrorCode::UnableToCancel));
}

#[test]
fn grant_takes_the_fee_and_starts_the_loan() {
    let mut request = LoanRequest {
        nft_worth: 10000,
        nft_mint: key(10),
        requested_amount: 1000,
        requested_token_mint: key(11),
        slot_duration: 500,
        loan: None,
        borrow_nft_mint: key(12),
    };
    let mut platform = fees(10, 100, 500);
    let mut grant = blank_grant();
    let mut loan = blank_loan();
    let mut fee = blank_fee();
    let granted = grant_loan(
        &mut request, &mut platform, &owners(), &mut grant, &mut loan, &mut fee, accounts(), 77,
    );
    assert_eq!(
        granted,
        Ok((
            LoanFunding {
                fee: 10,
                fee_payment: Payment { native: false, amount: 10 },
                loan_payment: Payment { native: false, amount: 990 },
            },
            LoanGranted {
                nft_mint: key(10),
                loan_request: key(20),
                requested_amount: 1000,
                requested_token_mint: key(11),
                duration: 500,
                lend_nft_mint: key(24),
            },
            vec![
                CustodyAction::OpenEscrows,
                pay(Holder::Lender, Holder::FeeEscrow, false, 10),
                pay(Holder::Lender, Holder::LoanEscrow, false, 990),
                CustodyAction::TakeMintAuthority { claim: Claim::Lender },
                CustodyAction::MintClaim { claim: Claim::Lender },
            ]
        ))
    );
    assert_eq!(request.loan, Some(key(21)));
    assert_eq!(platform.uncollected_fees, vec![key(22)]);
    assert_eq!(
        grant,
        GrantLoan {
            nft_worth: 10000,
            granted_amount: 1000,
            requested_token_mint: key(11),
            loan_request: key(20),
            slot_duration: 500,
            loan: key(21),
            lend_nft_mint: key(24),
        }
    );
    assert_eq!(
        loan,
        Loan {
            loan_fee_acct: Some(key(22)),
            nft_mint: key(10),
            borrow_nft_mint: key(12),
            lend_nft_mint: key(24),
            requested_token_mint: key(11),
            ltv: 500,
            fee_percentage: 10,
            interest_rate: 100,
            nft_worth: 10000,
            requested_amount: 1000,
            outstanding_debt: 1000,
            paid_amount: 0,
            amount_sold: 0,
            status: LoanStatus::Started.to_code(),
            slot_duration: 500,
            start_slot: 77,
            last_updated_slot: 77,
        }
    );
    assert_eq!(
        fee,
        LoanFee {
            amount: 10,
            token_mint: key(11),
            loan: key(21),
            escrow: key(23),
            owners: vec![key(1), key(2), key(3)],
        }
    );
    // the borrower receives the amount less the fee
    assert_eq!(borrower_withdraw_tokens(&mut loan), Ok(to_borrower(false, 990)));
    assert_eq!(loan.status, LoanStatus::TokensWithdrawn.to_code());
}

#[test]
fn grant_in_the_native_asset_pays_in_lamports() {
    let mut request = LoanRequest {
        nft_worth: 10000,
        nft_mint: key(10),
        requested_amount: 1000,
        requested_token_mint: Pubkey::default(),
        slot_duration: 500,
        loan: None,
        borrow_nft_mint: key(12),
    };
    let mut platform = fees(10, 100, 500);
    let mut loan = blank_loan();
    let native_accounts = GrantLoanAccounts {
        requested_token_account: key(25),
        requested_token_account_owner: key(0),
        ..accounts()
    };
    let granted = grant_loan(
        &mut request, &mut platform, &owners(), &mut blank_grant(), &mut loan, &mut blank_fee(),
        native_accounts, 77,
    );
    assert_eq!(
        granted.map(|g| (g.0, g.2)),
        Ok((
            LoanFunding {
                fee: 10,
                fee_payment: Payment { native: true, amount: 10_000_000_000 },
                loan_payment: Payment { native: true, amount: 990_000_000_000 },
            },
            vec![
                pay(Holder::Lender, Holder::FeeEscrow, true, 10_000_000_000),
                pay(Holder::Lender, Holder::LoanEscrow, true, 990_000_000_000),
                CustodyAction::TakeMintAuthority { claim: Claim::Lender },
                CustodyAction::MintClaim { claim: Claim::Lender },
            ]
        ))
    );
    assert_eq!(borrower_withdraw_tokens(&mut loan), Ok(to_borrower(true, 990_000_000_000)));
}

#[test]
fn grant_refusals_change_nothing() {
    let request = LoanRequest {
        nft_worth: 10000,
        nft_mint: key(10),
        requested_amount: 1000,
        requested_token_mint: key(11),
        slot_duration: 500,
        loan: None,
        borrow_nft_mint: key(12),
    };
    let try_grant = |request: LoanRequest, platform: PlatformFees, accounts: GrantLoanAccounts| {
        let mut r = request;
        let mut p = platform.clone();
        let mut g = blank_grant();
        let mut l = blank_loan();
        let mut f = blank_fee();
        let out = grant_loan(&mut r, &mut p, &owners(), &mut g, &mut l, &mut f, accounts, 77);
        if out.is_err() {
            assert_eq!(r, request);
            assert_eq!(p, platform);
            assert_eq!(g, blank_grant());
            assert_eq!(l, blank_loan());
            assert_eq!(f, blank_fee());
        }
        out.map(|g| g.0.fee)
    };
    assert_eq!(try_grant(request, fees(10, 100, 500), accounts()), Ok(10));
    // a request that already has its loan
    assert_eq!(
        try_grant(LoanRequest { loan: Some(key(5)), ..request }, fees(10, 100, 500), accounts()),
        Err(ErrorCode::InvalidLoanState)
    );
    // a fee greater than the amount lent
    assert_eq!(try_grant(request, fees(1001, 100, 500), accounts()), Err(ErrorCode::MathOverflow));
    // funds that are not the lender's
    assert_eq!(
        try_grant(
            request,
            fees(10, 100, 500),
            GrantLoanAccounts { requested_token_account_owner: key(26), ..accounts() }
        ),
        Err(ErrorCode::InvalidAccount)
    );
    assert_eq!(
        try_grant(
            LoanRequest { requested_token_mint: Pubkey::default(), ..request },
            fees(10, 100, 500),
            accounts()
        ),
        Err(ErrorCode::InvalidAccount)
    );
    // a native amount that does not fit in lamports
    assert_eq!(
        try_grant(
            LoanRequest {
                requested_token_mint: Pubkey::default(),
                requested_amount: 100_000_000_000,
                ..request
            },
            fees(10, 100, 500),
            GrantLoanAccounts { requested_token_account: key(25), ..accounts() }
        ),
        Err(ErrorCode::MathOverflow)
    );
    // a full list of uncollected fees
    let mut full = fees(10, 100, 500);
    for n in 0..99 {
        full.uncollected_fees.push(key(1000 + n));
    }
    assert_eq!(try_grant(request, full.clone(), accounts()), Ok(10));
    full.uncollected_fees.push(key(2000));
    assert_eq!(try_grant(request, full, accounts()), Err(ErrorCode::FeesListFull));
}

#[test]
fn loan_keeps_the_rates_of_its_grant() {
    let mut request = LoanRequest {
        nft_worth: 10000,
        nft_mint: key(10),
        requested_amount: 1000,
        requested_token_mint: key(11),
        slot_duration: 500,
        loan: None,
        borrow_nft_mint: key(12),
    };
    let mut platform = fees(10, 100, 500);
    let mut loan = blank_loan();
    grant_loan(
        &mut request, &mut platform, &owners(), &mut blank_grant(), &mut loan, &mut blank_fee(),
        accounts(), 77,
    )
    .unwrap();
    platform.init(500, 900, 100);
    assert_eq!((loan.fee_percentage, loan.interest_rate, loan.ltv), (10, 100, 500));
    assert_eq!(borrower_withdraw_tokens(&mut loan), Ok(to_borrower(false, 990)));
}

#[test]
fn borrower_withdraws_by_status() {
    let base = Loan { paid_amount: 321, ..running_loan(key(11)) };
    for status in [LoanStatus::Seize, LoanStatus::Sold, LoanStatus::Completed] {
        let mut loan = Loan { status: status.to_code(), ..base };
        assert_eq!(borrower_withdraw_tokens(&mut loan), Ok(to_borrower(false, 321)));
        assert_eq!(loan, Loan { status: LoanStatus::TokensWithdrawn.to_code(), ..base });
    }
    for status in [
        LoanStatus::TokensWithdrawn,
        LoanStatus::Repaid,
        LoanStatus::Defaulted,
        LoanStatus::Sell,
    ] {
        let mut loan = Loan { status: status.to_code(), ..base };
        assert_eq!(borrower_withdraw_tokens(&mut loan), Err(ErrorCode::InvalidLoanState));
        assert_eq!(loan, Loan { status: status.to_code(), ..base });
    }
    let mut loan = Loan { status: 9, ..base };
    assert_eq!(borrower_withdraw_tokens(&mut loan), Err(ErrorCode::InvalidStatus));
    let mut started = Loan { status: LoanStatus::Started.to_code(), ..base };
    assert_eq!(borrower_withdraw_tokens(&mut started), Ok(to_borrower(false, 990_000_000)));
    let mut overcharged = Loan { status: 0, fee_percentage: 1001, ..base };
    assert_eq!(borrower_withdraw_tokens(&mut overcharged), Err(ErrorCode::MathOverflow));
    assert_eq!(overcharged, Loan { status: 0, fee_percentage: 1001, ..base });
}

#[test]
fn repay_in_part_then_in_full() {
    let mut loan = running_loan(key(11));
    // 100_000 slots on: 158_562 of interest
    assert_eq!(
        repay_loan(&mut loan, 400_000_000, 100_100),
        Ok((
            Repayment {
                amount_paid: 400_000_000,
                payment: Payment { native: false, amount: 400_000_000 },
                completed: false,
            },
            repaid(false, 400_000_000, false)
        ))
    );
    assert_eq!(
        loan,
        Loan {
            outstanding_debt: 600_158_562,
            paid_amount: 400_000_000,
            last_updated_slot: 100_100,
            ..running_loan(key(11))
        }
    );
    // 50_000 slots on: interest on the amount first lent, 79_278
    assert_eq!(
        repay_loan(&mut loan, u64::MAX, 150_100),
        Ok((
            Repayment {
                amount_paid: 600_237_840,
                payment: Payment { native: false, amount: 600_237_840 },
                completed: true,
            },
            repaid(false, 600_237_840, true)
        ))
    );
    assert_eq!(
        loan,
        Loan {
            outstanding_debt: 0,
            paid_amount: 1_000_237_840,
            last_updated_slot: 150_100,
            status: LoanStatus::Repaid.to_code(),
            ..running_loan(key(11))
        }
    );
    // the lender collects what was paid in
    assert_eq!(lender_withdraw_tokens(&mut loan), Ok(to_lender(false, 1_000_237_840)));
    assert_eq!(loan.status, LoanStatus::Completed.to_code());
}

#[test]
fn repay_never_takes_more_than_the_debt() {
    let mut loan = running_loan(key(11));
    let (out, actions) = repay_loan(&mut loan, 2_000_000_000, 100).unwrap();
    assert_eq!(out.amount_paid, 1_000_000_000);
    assert!(out.completed);
    assert_eq!(actions, repaid(false, 1_000_000_000, true));
    assert_eq!(loan.outstanding_debt, 0);
    assert_eq!(loan.paid_amount, 1_000_000_000);
    let mut loan = running_loan(key(11));
    let (out, actions) = repay_loan(&mut loan, 0, 101).unwrap();
    assert_eq!(out.amount_paid, 0);
    assert!(!out.completed);
    assert_eq!(actions, repaid(false, 0, false));
    assert_eq!(loan.outstanding_debt, 1_000_000_002);
    assert_eq!(loan.status, LoanStatus::TokensWithdrawn.to_code());
}

#[test]
fn repay_in_the_native_asset() {
    let mut loan = Loan {
        requested_amount: 1000,
        outstanding_debt: 1000,
        ..running_loan(Pubkey::default())
    };
    assert_eq!(
        repay_loan(&mut loan, 250, 600),
        Ok((
            Repayment {
                amount_paid: 250,
                payment: Payment { native: true, amount: 250_000_000_000 },
                completed: false,
            },
            repaid(true, 250_000_000_000, false)
        ))
    );
    assert_eq!(loan.outstanding_debt, 750);
    let mut large = running_loan(Pubkey::default());
    large.requested_amount = 100_000_000_000;
    large.outstanding_debt = 100_000_000_000;
    let before = large;
    assert_eq!(repay_loan(&mut large, u64::MAX, 100), Err(ErrorCode::MathOverflow));
    assert_eq!(large, before);
}

#[test]
fn repay_refusals_change_nothing() {
    let base = running_loan(key(11));
    // the last slot before the end is accepted
    assert!(repay_loan(&mut running_loan(key(11)), 1, 200_099).is_ok());
    // at the end and after it the loan has ended
    for slot in [200_100u64, 200_101, u64::MAX] {
        let mut loan = base;
        assert_eq!(repay_loan(&mut loan, 1, slot), Err(ErrorCode::LoanEnded));
        assert_eq!(loan, base);
    }
    for status in [0u8, 2, 3, 4, 5, 6, 7, 8] {
        let mut loan = Loan { status, ..base };
        assert_eq!(repay_loan(&mut loan, 1, 150), Err(ErrorCode::LoanDefaulted));
        assert_eq!(loan, Loan { status, ..base });
    }
    // a clock behind the last update
    let mut loan = base;
    assert_eq!(repay_loan(&mut loan, 1, 99), Err(ErrorCode::MathOverflow));
    assert_eq!(loan, base);
    // an end beyond the last slot
    let mut loan = Loan { start_slot: u64::MAX, ..base };
    assert_eq!(repay_loan(&mut loan, 1, 150), Err(ErrorCode::MathOverflow));
    // a debt that cannot grow further
    let mut loan = Loan { outstanding_debt: u64::MAX, ..base };
    assert_eq!(repay_loan(&mut loan, 1, 100_100), Err(ErrorCode::MathOverflow));
    assert_eq!(loan, Loan { outstanding_debt: u64::MAX, ..base });
    // an amount paid in that cannot grow further
    let mut loan = Loan { paid_amount: u64::MAX, ..base };
    assert_eq!(repay_loan(&mut loan, 1, 100_100), Err(ErrorCode::MathOverflow));
    assert_eq!(loan, Loan { paid_amount: u64::MAX, ..base });
}

#[test]
fn refresh_accrues_interest() {
    let mut loan = running_loan(key(11));
    assert_eq!(refresh_loan(&mut loan, 100_100), Ok(()));
    assert_eq!(
        loan,
        Loan { outstanding_debt: 1_000_158_562, last_updated_slot: 100_100, ..running_loan(key(11)) }
    );
    // again in the same slot: nothing more
    let once = loan;
    assert_eq!(refresh_loan(&mut loan, 100_100), Ok(()));
    assert_eq!(loan, once);
}

#[test]
fn refresh_at_the_end_and_after_it() {
    // exactly at the end the loan is not yet in default
    let mut loan = running_loan(key(11));
    assert_eq!(refresh_loan(&mut loan, 200_100), Ok(()));
    assert_eq!(
        loan,
        Loan { outstanding_debt: 1_000_317_148, last_updated_slot: 200_100, ..running_loan(key(11)) }
    );
    // one slot later it is
    assert_eq!(refresh_loan(&mut loan, 200_101), Ok(()));
    assert_eq!(
        loan,
        Loan {
            outstanding_debt: 1_000_317_150,
            last_updated_slot: 200_101,
            status: LoanStatus::Defaulted.to_code(),
            ..running_loan(key(11))
        }
    );
    let mut late = running_loan(key(11));
    assert_eq!(refresh_loan(&mut late, 200_101), Ok(()));
    assert_eq!(late.status, LoanStatus::Defaulted.to_code());
    assert_eq!(late.outstanding_debt, 1_000_317_150);
}

#[test]
fn refresh_refusals_change_nothing() {
    let base = running_loan(key(11));
    for status in [0u8, 2, 3, 4, 5, 6, 7] {
        let mut loan = Loan { status, ..base };
        assert_eq!(refresh_loan(&mut loan, 150), Err(ErrorCode::CantRefreshLoan));
        assert_eq!(loan, Loan { status, ..base });
    }
    let mut loan = Loan { status: 8, ..base };
    assert_eq!(refresh_loan(&mut loan, 150), Err(ErrorCode::InvalidStatus));
    let mut loan = base;
    assert_eq!(refresh_loan(&mut loan, 99), Err(ErrorCode::MathOverflow));
    assert_eq!(loan, base);
    let mut loan = Loan { slot_duration: u64::MAX, ..base };
    assert_eq!(refresh_loan(&mut loan, 150), Err(ErrorCode::MathOverflow));
    let mut loan = Loan { outstanding_debt: u64::MAX - 1, ..base };
    assert_eq!(refresh_loan(&mut loan, 100_100), Err(ErrorCode::MathOverflow));
    assert_eq!(loan, Loan { outstanding_debt: u64::MAX - 1, ..base });
}

#[test]
fn default_then_seize() {
    let mut loan = running_loan(key(11));
    refresh_loan(&mut loan, 200_101).unwrap();
    let defaulted = loan;
    assert_eq!(
        seize_nft(&mut loan),
        Ok(vec![
            CustodyAction::MoveCollateral { from: Holder::CollateralEscrow, to: Holder::Lender },
            CustodyAction::BurnClaim { claim: Claim::Lender },
        ])
    );
    assert_eq!(loan, Loan { status: LoanStatus::Seize.to_code(), ..defaulted });
    assert_eq!(seize_nft(&mut loan), Err(ErrorCode::InvalidLoanState));
    assert_eq!(sell_nft(&mut loan), Err(ErrorCode::InvalidLoanState));
    assert_eq!(lender_withdraw_tokens(&mut loan), Err(ErrorCode::InvalidLoanState));
}

#[test]
fn default_then_sell_and_buy() {
    let mut loan = running_loan(key(11));
    refresh_loan(&mut loan, 200_101).unwrap();
    let defaulted = loan;
    assert_eq!(buy_nft(&mut loan), Err(ErrorCode::InvalidLoanState));
    assert_eq!(loan, defaulted);
    assert_eq!(sell_nft(&mut loan), Ok(()));
    assert_eq!(loan, Loan { status: LoanStatus::Sell.to_code(), ..defaulted });
    assert_eq!(buy_nft(&mut loan), Ok(from_buyer(false, 10_000_000_000)));
    assert_eq!(loan, Loan { status: LoanStatus::Sold.to_code(), ..defaulted });
    assert_eq!(buy_nft(&mut loan), Err(ErrorCode::InvalidLoanState));
    assert_eq!(lender_withdraw_tokens(&mut loan), Ok(to_lender(false, 10_000_000_000)));
    assert_eq!(loan, Loan { status: LoanStatus::Completed.to_code(), ..defaulted });
    assert_eq!(lender_withdraw_tokens(&mut loan), Err(ErrorCode::InvalidLoanState));
}

#[test]
fn buy_in_the_native_asset() {
    let mut loan = Loan {
        status: LoanStatus::Sell.to_code(),
        nft_worth: 10000,
        ..running_loan(Pubkey::default())
    };
    assert_eq!(buy_nft(&mut loan), Ok(from_buyer(true, 10_000_000_000_000)));
    let mut loan = Loan { status: LoanStatus::Sell.to_code(), ..running_loan(Pubkey::default()) };
    assert_eq!(buy_nft(&mut loan), Ok(from_buyer(true, 10_000_000_000_000_000_000)));
    let mut loan = Loan {
        status: LoanStatus::Sell.to_code(),
        nft_worth: 20_000_000_000,
        ..running_loan(Pubkey::default())
    };
    let before = loan;
    assert_eq!(buy_nft(&mut loan), Err(ErrorCode::MathOverflow));
    assert_eq!(loan, before);
}

#[test]
fn seize_and_sell_need_a_default() {
    for status in [0u8, 1, 2, 4, 5, 6, 7] {
        let base = Loan { status, ..running_loan(key(11)) };
        let mut loan = base;
        assert_eq!(seize_nft(&mut loan), Err(ErrorCode::InvalidLoanState));
        assert_eq!(sell_nft(&mut loan), Err(ErrorCode::InvalidLoanState));
        assert_eq!(loan, base);
    }
    let mut loan = Loan { status: 200, ..running_loan(key(11)) };
    assert_eq!(seize_nft(&mut loan), Err(ErrorCode::InvalidStatus));
    assert_eq!(sell_nft(&mut loan), Err(ErrorCode::InvalidStatus));
    assert_eq!(lender_withdraw_tokens(&mut loan), Err(ErrorCode::InvalidStatus));
}

#[test]
fn accrue_interest_reports_what_it_added() {
    let mut loan = running_loan(key(11));
    assert_eq!(loan.accrue_interest(50_100), Ok(79_278));
    assert_eq!(loan.outstanding_debt, 1_000_079_278);
    assert_eq!(loan.last_updated_slot, 50_100);
    assert_eq!(loan.accrue_interest(50_100), Ok(0));
    assert_eq!(loan.accrue_interest(50_099), Err(ErrorCode::MathOverflow));
    assert_eq!(loan.outstanding_debt, 1_000_079_278);
}
