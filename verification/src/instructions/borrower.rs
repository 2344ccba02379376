//! What a borrower does: ask for a loan, withdraw the request, take the
//! funds, repay.

use vstd::prelude::*;
use crate::custody::{Claim, CustodyAction, Holder};
use crate::errors::ErrorCode;
use crate::math::{Decimal, WAD};
use crate::pubkey::Pubkey;
use crate::state::fees::PlatformFees;
use crate::state::loan::{Loan, LoanRequest, LoanStatus};
use crate::utils::{
    complete_loan, lemma_max_amount_below_worth, max_amount_allowed, max_amount_value, payment,
    payment_spec, platform_fee, platform_fee_spec, rate_scaled, uncompounded_interest,
    uncompounded_interest_value, Payment,
};

verus! {

/// Tells that a request for a loan was made, and on what terms.
#[derive(Clone, Copy, Debug, PartialEq, Eq, Structural)]
pub struct LoanRequestMade {
    pub loan_request: Pubkey,
    pub nft_worth: u64,
    pub nft_mint: Pubkey,
    pub requested_amount: u64,
    pub requested_token_mint: Pubkey,
    pub duration: u64,
    pub borrow_nft_mint: Pubkey,
}

/// Tells that a request for a loan was withdrawn.
#[derive(Clone, Copy, Debug, PartialEq, Eq, Structural)]
pub struct LoanRequestCancelled {
    pub loan_request: Pubkey,
}

/// Whether a loan may be requested, and why not where it may not: the
/// amount with one year's simple interest must not exceed the borrowing
/// limit on the collateral, and the borrower must hold the collateral.
pub open spec fn request_for_loan_guard(
    interest_rate: u32,
    ltv: u32,
    nft_balance: u64,
    nft_worth: u64,
    requested_amount: u64,
) -> Result<(), ErrorCode> {
    if uncompounded_interest_value(requested_amount, interest_rate) > u128::MAX {
        Err(ErrorCode::MathOverflow)
    } else if max_amount_value(nft_worth, ltv) > u128::MAX {
        Err(ErrorCode::MathOverflow)
    } else if uncompounded_interest_value(requested_amount, interest_rate) > max_amount_value(
        nft_worth,
        ltv,
    ) {
        Err(ErrorCode::MaxBorrowExceeded)
    } else if nft_balance == 0 {
        Err(ErrorCode::InsufficientFunds)
    } else {
        Ok(())
    }
}

/// What the custody service does when a loan is requested: it escrows the
/// collateral, takes over the authority to mint the borrower's claim, and
/// mints that claim.
pub open spec fn request_for_loan_actions() -> Seq<CustodyAction> {
    seq![
        CustodyAction::MoveCollateral { from: Holder::Borrower, to: Holder::CollateralEscrow },
        CustodyAction::TakeMintAuthority { claim: Claim::Borrower },
        CustodyAction::MintClaim { claim: Claim::Borrower },
    ]
}

/// Records a borrower's request for `requested_amount` over `slot_duration`
/// slots against collateral worth `nft_worth`, of which the borrower holds
/// `nft_balance`.
pub fn request_for_loan(
    platform_fees: &PlatformFees,
    loan_request: &mut LoanRequest,
    loan_request_key: Pubkey,
    nft_mint: Pubkey,
    requested_token_mint: Pubkey,
    borrow_nft_mint: Pubkey,
    nft_balance: u64,
    nft_worth: u64,
    requested_amount: u64,
    slot_duration: u64,
) -> (r: Result<(LoanRequestMade, Vec<CustodyAction>), ErrorCode>)
    ensures
        match request_for_loan_guard(
            platform_fees.interest_rate,
            platform_fees.ltv,
            nft_balance,
            nft_worth,
            requested_amount,
        ) {
            Ok(()) => {
                &&& *final(loan_request) == (LoanRequest {
                    nft_worth,
                    nft_mint,
                    requested_amount,
                    requested_token_mint,
                    slot_duration,
                    loan: None,
                    borrow_nft_mint,
                })
                &&& r matches Ok((event, actions))
                &&& event == (LoanRequestMade {
                    loan_request: loan_request_key,
                    nft_worth,
                    nft_mint,
                    requested_amount,
                    requested_token_mint,
                    duration: slot_duration,
                    borrow_nft_mint,
                })
                &&& actions@ == request_for_loan_actions()
            },
            Err(e) => r matches Err(f) && f == e && *final(loan_request) == *old(loan_request),
        },
{
    let with_interest: Decimal = match uncompounded_interest(
        requested_amount,
        platform_fees.interest_rate,
    ) {
        Ok(v) => v,
        Err(e) => {
            return Err(ErrorCode::from_math(e));
        },
    };
    let max_borrow: Decimal = match max_amount_allowed(nft_worth, platform_fees.ltv) {
        Ok(v) => v,
        Err(e) => {
            return Err(ErrorCode::from_math(e));
        },
    };
    if with_interest.to_scaled_val() > max_borrow.to_scaled_val() {
        return Err(ErrorCode::MaxBorrowExceeded);
    }
    if nft_balance == 0 {
        return Err(ErrorCode::InsufficientFunds);
    }
    let _ = loan_request.init(
        nft_worth,
        nft_mint,
        requested_amount,
        requested_token_mint,
        slot_duration,
        borrow_nft_mint,
    );
    Ok(
        (
            LoanRequestMade {
                loan_request: loan_request_key,
                nft_worth,
                nft_mint,
                requested_amount,
                requested_token_mint,
                duration: slot_duration,
                borrow_nft_mint,
            },
            vec![
                CustodyAction::MoveCollateral {
                    from: Holder::Borrower,
                    to: Holder::CollateralEscrow,
                },
                CustodyAction::TakeMintAuthority { claim: Claim::Borrower },
                CustodyAction::MintClaim { claim: Claim::Borrower },
            ],
        ),
    )
}

/// Below a loan-to-value ratio of one, a request that is accepted asks for
/// less than its collateral is worth.
pub proof fn lemma_accepted_request_is_covered(
    interest_rate: u32,
    ltv: u32,
    nft_balance: u64,
    nft_worth: u64,
    requested_amount: u64,
)
    requires
        nft_worth > 0,
        ltv < 1000,
        request_for_loan_guard(interest_rate, ltv, nft_balance, nft_worth, requested_amount) is Ok,
    ensures
        requested_amount < nft_worth,
{
    lemma_max_amount_below_worth(nft_worth, ltv);
    let a = requested_amount as nat;
    let w = WAD as nat;
    let x = rate_scaled(interest_rate);
    assert(a * (w + x) >= a * w) by (nonlinear_arith)
        requires
            x >= 0,
    ;
    assert(a < nft_worth) by (nonlinear_arith)
        requires
            a * w < (nft_worth as nat) * w,
            w > 0,
    ;
}

/// What [`cancel_loan_request`] returns.
pub open spec fn cancel_loan_request_spec(
    loan_request: LoanRequest,
    loan_request_key: Pubkey,
    borrow_nft_balance: u64,
    escrow_balance: u64,
) -> Result<LoanRequestCancelled, ErrorCode> {
    if loan_request.loan is Some {
        Err(ErrorCode::UnableToCancel)
    } else if borrow_nft_balance == 0 || escrow_balance == 0 {
        Err(ErrorCode::InsufficientFunds)
    } else {
        Ok(LoanRequestCancelled { loan_request: loan_request_key })
    }
}

/// What the custody service does when a request is withdrawn: it burns the
/// borrower's claim, hands the collateral back and closes the escrow.
pub open spec fn cancel_loan_request_actions() -> Seq<CustodyAction> {
    seq![
        CustodyAction::BurnClaim { claim: Claim::Borrower },
        CustodyAction::MoveCollateral { from: Holder::CollateralEscrow, to: Holder::Borrower },
        CustodyAction::CloseCollateralEscrow,
    ]
}

/// Withdraws a request on which no loan was granted. The borrower must
/// still hold the claim (`borrow_nft_balance`) and the escrow the collateral
/// (`escrow_balance`). The caller then closes the request.
pub fn cancel_loan_request(
    loan_request: &LoanRequest,
    loan_request_key: Pubkey,
    borrow_nft_balance: u64,
    escrow_balance: u64,
) -> (r: Result<(LoanRequestCancelled, Vec<CustodyAction>), ErrorCode>)
    ensures
        match cancel_loan_request_spec(
            *loan_request,
            loan_request_key,
            borrow_nft_balance,
            escrow_balance,
        ) {
            Ok(cancelled) => {
                &&& r matches Ok((event, actions))
                &&& event == cancelled
                &&& actions@ == cancel_loan_request_actions()
            },
            Err(e) => r matches Err(f) && f == e,
        },
{
    match loan_request.loan {
        Some(_) => Err(ErrorCode::UnableToCancel),
        None => {
            if borrow_nft_balance == 0 {
                return Err(ErrorCode::InsufficientFunds);
            }
            if escrow_balance == 0 {
                return Err(ErrorCode::InsufficientFunds);
            }
            Ok(
                (
                    LoanRequestCancelled { loan_request: loan_request_key },
                    vec![
                        CustodyAction::BurnClaim { claim: Claim::Borrower },
                        CustodyAction::MoveCollateral {
                            from: Holder::CollateralEscrow,
                            to: Holder::Borrower,
                        },
                        CustodyAction::CloseCollateralEscrow,
                    ],
                ),
            )
        },
    }
}

/// The number of units that the borrower may withdraw: the amount lent
/// less the fee from a loan just started, and what was paid in from one
/// that was seized, sold or completed.
pub open spec fn borrower_withdrawal_amount(loan: Loan) -> Result<u64, ErrorCode> {
    match loan.status_spec() {
        Err(e) => Err(e),
        Ok(LoanStatus::Started) => match platform_fee_spec(loan.requested_amount, loan.fee_percentage) {
            Err(e) => Err(e),
            Ok(fee) => if fee > loan.requested_amount {
                Err(ErrorCode::MathOverflow)
            } else {
                Ok((loan.requested_amount - fee) as u64)
            },
        },
        Ok(LoanStatus::Seize) => Ok(loan.paid_amount),
        Ok(LoanStatus::Sold) => Ok(loan.paid_amount),
        Ok(LoanStatus::Completed) => Ok(loan.paid_amount),
        Ok(_) => Err(ErrorCode::InvalidLoanState),
    }
}

/// What [`borrower_withdraw_tokens`] makes of a loan, and the payment to
/// the borrower.
pub open spec fn borrower_withdraw_tokens_spec(loan: Loan) -> Result<(Loan, Payment), ErrorCode> {
    match borrower_withdrawal_amount(loan) {
        Err(e) => Err(e),
        Ok(amount) => match payment_spec(loan.requested_token_mint, amount) {
            Err(e) => Err(e),
            Ok(p) => Ok((Loan { status: LoanStatus::TokensWithdrawn.code_spec(), ..loan }, p)),
        },
    }
}

/// Pays the borrower out of the loan's escrow and marks the loan as
/// withdrawn. The fee is taken at the rate that held when the loan was
/// granted.
pub fn borrower_withdraw_tokens(loan: &mut Loan) -> (r: Result<Vec<CustodyAction>, ErrorCode>)
    ensures
        match borrower_withdraw_tokens_spec(*old(loan)) {
            Ok((post, p)) => {
                &&& *final(loan) == post
                &&& r matches Ok(actions)
                &&& actions@ == seq![
                    CustodyAction::Pay {
                        from: Holder::LoanEscrow,
                        to: Holder::Borrower,
                        payment: p,
                    },
                ]
            },
            Err(e) => r matches Err(f) && f == e && *final(loan) == *old(loan),
        },
{
    let status: LoanStatus = match LoanStatus::from(loan.status) {
        Ok(s) => s,
        Err(e) => {
            return Err(e);
        },
    };
    let withdrawal_amount: u64 = match status {
        LoanStatus::Started => {
            let fee: u64 = match platform_fee(loan.requested_amount, loan.fee_percentage) {
                Ok(v) => v,
                Err(e) => {
                    return Err(e);
                },
            };
            if fee > loan.requested_amount {
                return Err(ErrorCode::MathOverflow);
            }
            loan.requested_amount - fee
        },
        LoanStatus::Seize => loan.paid_amount,
        LoanStatus::Sold => loan.paid_amount,
        LoanStatus::Completed => loan.paid_amount,
        _ => {
            return Err(ErrorCode::InvalidLoanState);
        },
    };
    let p: Payment = match payment(loan.requested_token_mint, withdrawal_amount) {
        Ok(v) => v,
        Err(e) => {
            return Err(e);
        },
    };
    loan.status = LoanStatus::TokensWithdrawn.to_code();
    Ok(vec![CustodyAction::Pay { from: Holder::LoanEscrow, to: Holder::Borrower, payment: p }])
}

/// What a repayment comes to.
#[derive(Clone, Copy, Debug, PartialEq, Eq, Structural)]
pub struct Repayment {
    /// The units taken off the debt.
    pub amount_paid: u64,
    /// What the borrower pays into the loan's escrow.
    pub payment: Payment,
    /// Whether the debt is now paid in full.
    pub completed: bool,
}

/// What the custody service does on a repayment: the borrower pays into the
/// loan's escrow; where that completes the loan, the borrower's claim is
/// burnt and the collateral handed back.
pub open spec fn repayment_actions(repayment: Repayment) -> Seq<CustodyAction> {
    let pay = seq![
        CustodyAction::Pay {
            from: Holder::Borrower,
            to: Holder::LoanEscrow,
            payment: repayment.payment,
        },
    ];
    if repayment.completed {
        pay + seq![
            CustodyAction::BurnClaim { claim: Claim::Borrower },
            CustodyAction::MoveCollateral { from: Holder::CollateralEscrow, to: Holder::Borrower },
        ]
    } else {
        pay
    }
}

/// The lesser of two amounts.
pub open spec fn min_amount(a: u64, b: u64) -> u64 {
    if a <= b {
        a
    } else {
        b
    }
}

/// What [`repay_loan`] makes of a loan, and what the repayment comes to.
pub open spec fn repay_loan_spec(loan: Loan, amount: u64, current_slot: u64) -> Result<
    (Loan, Repayment),
    ErrorCode,
> {
    if loan.status != LoanStatus::TokensWithdrawn.code_spec() {
        Err(ErrorCode::LoanDefaulted)
    } else if loan.end_slot() > u64::MAX {
        Err(ErrorCode::MathOverflow)
    } else if current_slot < loan.last_updated_slot {
        Err(ErrorCode::MathOverflow)
    } else if current_slot >= loan.end_slot() {
        Err(ErrorCode::LoanEnded)
    } else {
        match loan.accrue_interest_spec(current_slot) {
            Err(e) => Err(e),
            Ok(accrued) => {
                let amount_to_pay = min_amount(accrued.outstanding_debt, amount);
                match payment_spec(loan.requested_token_mint, amount_to_pay) {
                    Err(e) => Err(e),
                    Ok(p) => if accrued.paid_amount + amount_to_pay > u64::MAX {
                        Err(ErrorCode::MathOverflow)
                    } else {
                        let completed = accrued.outstanding_debt == amount_to_pay;
                        Ok(
                            (
                                Loan {
                                    outstanding_debt: (accrued.outstanding_debt
                                        - amount_to_pay) as u64,
                                    paid_amount: (accrued.paid_amount + amount_to_pay) as u64,
                                    status: if completed {
                                        LoanStatus::Repaid.code_spec()
                                    } else {
                                        accrued.status
                                    },
                                    ..accrued
                                },
                                Repayment { amount_paid: amount_to_pay, payment: p, completed },
                            ),
                        )
                    },
                }
            },
        }
    }
}

/// Takes a repayment of at most `amount` units at `current_slot`: adds the
/// interest accrued since the last update to the debt, then takes the
/// lesser of `amount` and the debt off it. A debt that reaches zero
/// completes the loan.
pub fn repay_loan(loan: &mut Loan, amount: u64, current_slot: u64) -> (r: Result<
    (Repayment, Vec<CustodyAction>),
    ErrorCode,
>)
    ensures
        match repay_loan_spec(*old(loan), amount, current_slot) {
            Ok((post, out)) => {
                &&& *final(loan) == post
                &&& r matches Ok((repayment, actions))
                &&& repayment == out
                &&& actions@ == repayment_actions(out)
            },
            Err(e) => r matches Err(f) && f == e && *final(loan) == *old(loan),
        },
{
    if loan.status != LoanStatus::TokensWithdrawn.to_code() {
        return Err(ErrorCode::LoanDefaulted);
    }
    let expected_loan_end_slot: u64 = match loan.start_slot.checked_add(loan.slot_duration) {
        Some(v) => v,
        None => {
            return Err(ErrorCode::MathOverflow);
        },
    };
    if current_slot < loan.last_updated_slot {
        return Err(ErrorCode::MathOverflow);
    }
    if current_slot >= expected_loan_end_slot {
        return Err(ErrorCode::LoanEnded);
    }
    let mut next: Loan = *loan;
    match next.accrue_interest(current_slot) {
        Ok(_) => {},
        Err(e) => {
            return Err(e);
        },
    }
    let amount_to_pay: u64 = if next.outstanding_debt <= amount {
        next.outstanding_debt
    } else {
        amount
    };
    let p: Payment = match payment(next.requested_token_mint, amount_to_pay) {
        Ok(v) => v,
        Err(e) => {
            return Err(e);
        },
    };
    let paid: u64 = match next.paid_amount.checked_add(amount_to_pay) {
        Some(v) => v,
        None => {
            return Err(ErrorCode::MathOverflow);
        },
    };
    next.outstanding_debt = next.outstanding_debt - amount_to_pay;
    next.paid_amount = paid;
    let completed: bool = next.outstanding_debt == 0;
    let mut actions: Vec<CustodyAction> = vec![
        CustodyAction::Pay { from: Holder::Borrower, to: Holder::LoanEscrow, payment: p },
    ];
    if completed {
        complete_loan(&mut next);
        actions.push(CustodyAction::BurnClaim { claim: Claim::Borrower });
        actions.push(
            CustodyAction::MoveCollateral { from: Holder::CollateralEscrow, to: Holder::Borrower },
        );
    }
    *loan = next;
    proof {
        let out = Repayment { amount_paid: amount_to_pay, payment: p, completed };
        assert(actions@ =~= repayment_actions(out));
    }
    Ok((Repayment { amount_paid: amount_to_pay, payment: p, completed }, actions))
}

/// A repayment leaves a debt that is the debt before it, plus the interest
/// accrued since the last update, less what was paid: the lesser of the
/// amount offered and the debt with that interest. What was paid is added to
/// the amount paid in, and the last update moves to the time of the
/// repayment.
pub proof fn lemma_repay_settles_debt(loan: Loan, amount: u64, current_slot: u64)
    ensures
        repay_loan_spec(loan, amount, current_slot) matches Ok((post, out)) ==> {
            &&& loan.interest_due(current_slot) matches Ok(interest)
            &&& out.amount_paid == min_amount((loan.outstanding_debt + interest) as u64, amount)
            &&& post.outstanding_debt == loan.outstanding_debt + interest - out.amount_paid
            &&& post.outstanding_debt >= 0
            &&& post.paid_amount == loan.paid_amount + out.amount_paid
            &&& post.last_updated_slot == current_slot
            &&& loan.last_updated_slot <= current_slot < loan.end_slot()
            &&& out.completed == (post.outstanding_debt == 0)
            &&& out.completed ==> post.status == LoanStatus::Repaid.code_spec()
            &&& !out.completed ==> post.status == LoanStatus::TokensWithdrawn.code_spec()
        },
{
}

/// Once a loan has reached its end, no repayment is taken.
pub proof fn lemma_repay_fails_after_end(loan: Loan, amount: u64, current_slot: u64)
    requires
        loan.status == LoanStatus::TokensWithdrawn.code_spec(),
        loan.last_updated_slot <= current_slot,
        loan.end_slot() <= current_slot,
    ensures
        repay_loan_spec(loan, amount, current_slot) == Err::<(Loan, Repayment), ErrorCode>(
            ErrorCode::LoanEnded,
        ),
{
}

} // verus!
