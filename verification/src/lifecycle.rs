//! The order in which a loan passes through its states.

use vstd::prelude::*;
use crate::errors::ErrorCode;
use crate::instructions::borrower::{borrower_withdraw_tokens_spec, repay_loan_spec};
use crate::instructions::lender::{leave_default_spec, lender_withdraw_tokens_spec};
use crate::instructions::third_party::{buy_nft_spec, refresh_loan_spec};
use crate::state::loan::{Loan, LoanStatus};

verus! {

/// Whether a loan in the state `from` may pass to the state `to` in one
/// operation.
///
/// A loan starts when it is granted. The borrower takes the funds, and then
/// either repays in full or misses the deadline. After a default the lender
/// seizes the collateral or puts it up for sale, where a third party buys
/// it. The lender's withdrawal completes a loan that was repaid or whose
/// collateral was sold; the borrower's withdrawal of what was paid in marks
/// a loan that was seized, sold or completed as withdrawn.
pub open spec fn may_become(from: LoanStatus, to: LoanStatus) -> bool {
    match from {
        LoanStatus::Started => to == LoanStatus::TokensWithdrawn,
        LoanStatus::TokensWithdrawn => to == LoanStatus::Repaid || to == LoanStatus::Defaulted,
        LoanStatus::Repaid => to == LoanStatus::Completed,
        LoanStatus::Defaulted => to == LoanStatus::Seize || to == LoanStatus::Sell,
        LoanStatus::Seize => to == LoanStatus::TokensWithdrawn,
        LoanStatus::Completed => to == LoanStatus::TokensWithdrawn,
        LoanStatus::Sell => to == LoanStatus::Sold,
        LoanStatus::Sold => to == LoanStatus::Completed || to == LoanStatus::TokensWithdrawn,
    }
}

/// Whether `after` is `before` in the same state, or in a state that
/// `before` may pass to.
pub open spec fn keeps_order(before: Loan, after: Loan) -> bool {
    match (before.status_spec(), after.status_spec()) {
        (Ok(from), Ok(to)) => from == to || may_become(from, to),
        _ => false,
    }
}

/// Every operation that succeeds on a loan leaves it in its state or takes
/// it one step along the order of states, and none succeeds on a loan whose
/// state is unknown.
pub proof fn lemma_operations_keep_order(loan: Loan, amount: u64, current_slot: u64)
    ensures
        borrower_withdraw_tokens_spec(loan) matches Ok((post, _)) ==> keeps_order(loan, post),
        repay_loan_spec(loan, amount, current_slot) matches Ok((post, _)) ==> keeps_order(
            loan,
            post,
        ),
        refresh_loan_spec(loan, current_slot) matches Ok(post) ==> keeps_order(loan, post),
        lender_withdraw_tokens_spec(loan) matches Ok((post, _)) ==> keeps_order(loan, post),
        leave_default_spec(loan, LoanStatus::Seize) matches Ok(post) ==> keeps_order(loan, post),
        leave_default_spec(loan, LoanStatus::Sell) matches Ok(post) ==> keeps_order(loan, post),
        buy_nft_spec(loan) matches Ok((post, _)) ==> keeps_order(loan, post),
{
}

/// A loan that was repaid or completed by the lender takes no further
/// repayment, refresh, seizure or sale.
pub proof fn lemma_settled_loans_stay_settled(loan: Loan, amount: u64, current_slot: u64)
    requires
        loan.status_spec() == Ok::<LoanStatus, ErrorCode>(LoanStatus::Repaid)
            || loan.status_spec() == Ok::<LoanStatus, ErrorCode>(LoanStatus::Completed),
    ensures
        repay_loan_spec(loan, amount, current_slot) is Err,
        refresh_loan_spec(loan, current_slot) is Err,
        leave_default_spec(loan, LoanStatus::Seize) is Err,
        leave_default_spec(loan, LoanStatus::Sell) is Err,
        buy_nft_spec(loan) is Err,
{
}

} // verus!
