//! What anyone may do: bring a loan up to date, buy collateral that is for
//! sale.

use vstd::prelude::*;
use crate::custody::{CustodyAction, Holder};
use crate::errors::ErrorCode;
use crate::state::loan::{Loan, LoanStatus};
use crate::utils::{lemma_no_time_no_interest, payment, payment_spec, Payment};

verus! {

/// What [`refresh_loan`] makes of a loan.
pub open spec fn refresh_loan_spec(loan: Loan, current_slot: u64) -> Result<Loan, ErrorCode> {
    match loan.status_spec() {
        Err(e) => Err(e),
        Ok(status) => if status != LoanStatus::TokensWithdrawn {
            Err(ErrorCode::CantRefreshLoan)
        } else if loan.end_slot() > u64::MAX {
            Err(ErrorCode::MathOverflow)
        } else {
            match loan.accrue_interest_spec(current_slot) {
                Err(e) => Err(e),
                Ok(accrued) => Ok(
                    Loan {
                        status: if current_slot > loan.end_slot() {
                            LoanStatus::Defaulted.code_spec()
                        } else {
                            accrued.status
                        },
                        ..accrued
                    },
                ),
            }
        },
    }
}

/// Brings a loan whose funds the borrower has taken up to date at
/// `current_slot`: adds the interest accrued since the last update to the
/// debt, and marks the loan as defaulted where its end has passed.
pub fn refresh_loan(loan: &mut Loan, current_slot: u64) -> (r: Result<(), ErrorCode>)
    ensures
        match refresh_loan_spec(*old(loan), current_slot) {
            Ok(post) => r is Ok && *final(loan) == post,
            Err(e) => r == Err::<(), ErrorCode>(e) && *final(loan) == *old(loan),
        },
{
    let current_status: LoanStatus = match LoanStatus::from(loan.status) {
        Ok(s) => s,
        Err(e) => {
            return Err(e);
        },
    };
    if current_status.to_code() != LoanStatus::TokensWithdrawn.to_code() {
        return Err(ErrorCode::CantRefreshLoan);
    }
    let expected_loan_end_slot: u64 = match loan.start_slot.checked_add(loan.slot_duration) {
        Some(v) => v,
        None => {
            return Err(ErrorCode::MathOverflow);
        },
    };
    let mut next: Loan = *loan;
    match next.accrue_interest(current_slot) {
        Ok(_) => {},
        Err(e) => {
            return Err(e);
        },
    }
    if current_slot > expected_loan_end_slot {
        next.status = LoanStatus::Defaulted.to_code();
    }
    *loan = next;
    Ok(())
}

/// Bringing a loan up to date a second time at the same slot changes
/// nothing: the interest up to that slot is charged once.
pub proof fn lemma_refresh_twice_charges_once(loan: Loan, current_slot: u64)
    ensures
        refresh_loan_spec(loan, current_slot) matches Ok(post) ==> {
            ||| refresh_loan_spec(post, current_slot) == Ok::<Loan, ErrorCode>(post)
            ||| post.status == LoanStatus::Defaulted.code_spec()
        },
{
    if let Ok(post) = refresh_loan_spec(loan, current_slot) {
        lemma_no_time_no_interest(post.requested_amount, post.interest_rate);
    }
}

/// A loan that is brought up to date never loses debt, and its last update
/// moves to the current slot.
pub proof fn lemma_refresh_moves_forward(loan: Loan, current_slot: u64)
    ensures
        refresh_loan_spec(loan, current_slot) matches Ok(post) ==> {
            &&& loan.interest_due(current_slot) matches Ok(interest)
            &&& post.outstanding_debt == loan.outstanding_debt + interest
            &&& post.last_updated_slot == current_slot
            &&& loan.last_updated_slot <= current_slot
            &&& post.status == (if current_slot > loan.end_slot() {
                LoanStatus::Defaulted.code_spec()
            } else {
                LoanStatus::TokensWithdrawn.code_spec()
            })
        },
{
}

/// What [`buy_nft`] makes of a loan, and the payment by the buyer.
pub open spec fn buy_nft_spec(loan: Loan) -> Result<(Loan, Payment), ErrorCode> {
    if loan.status != LoanStatus::Sell.code_spec() {
        Err(ErrorCode::InvalidLoanState)
    } else {
        match payment_spec(loan.requested_token_mint, loan.nft_worth) {
            Err(e) => Err(e),
            Ok(p) => Ok((Loan { status: LoanStatus::Sold.code_spec(), ..loan }, p)),
        }
    }
}

/// Sells the collateral of a loan that is for sale: the buyer pays its
/// worth into the loan's escrow and receives the collateral.
pub fn buy_nft(loan: &mut Loan) -> (r: Result<Vec<CustodyAction>, ErrorCode>)
    ensures
        match buy_nft_spec(*old(loan)) {
            Ok((post, p)) => {
                &&& *final(loan) == post
                &&& r matches Ok(actions)
                &&& actions@ == seq![
                    CustodyAction::Pay { from: Holder::Buyer, to: Holder::LoanEscrow, payment: p },
                    CustodyAction::MoveCollateral {
                        from: Holder::CollateralEscrow,
                        to: Holder::Buyer,
                    },
                ]
            },
            Err(e) => r matches Err(f) && f == e && *final(loan) == *old(loan),
        },
{
    if loan.status != LoanStatus::Sell.to_code() {
        return Err(ErrorCode::InvalidLoanState);
    }
    let p: Payment = match payment(loan.requested_token_mint, loan.nft_worth) {
        Ok(v) => v,
        Err(e) => {
            return Err(e);
        },
    };
    loan.status = LoanStatus::Sold.to_code();
    Ok(
        vec![
            CustodyAction::Pay { from: Holder::Buyer, to: Holder::LoanEscrow, payment: p },
            CustodyAction::MoveCollateral { from: Holder::CollateralEscrow, to: Holder::Buyer },
        ],
    )
}

} // verus!
