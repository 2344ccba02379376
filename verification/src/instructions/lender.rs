//! What a lender does: grant a loan, collect what is owed, seize or sell
//! the collateral of a loan in default.

use vstd::prelude::*;
use crate::custody::{Claim, CustodyAction, Holder};
use crate::errors::ErrorCode;
use crate::pubkey::{copy_keys, Pubkey};
use crate::state::fees::{
    LoanFee, LoanFeeView, PlatformFees, PlatformFeesView, MAX_UNCOLLECTED_FEES,
};
use crate::state::loan::{GrantLoan, Loan, LoanRequest, LoanStatus};
use crate::state::multisig::Multisig;
use crate::utils::{
    payment, payment_spec, platform_fee, platform_fee_spec, Payment, LAMPORTS_PER_SOL,
};

verus! {

/// Tells that a loan was granted.
#[derive(Clone, Copy, Debug, PartialEq, Eq, Structural)]
pub struct LoanGranted {
    pub nft_mint: Pubkey,
    pub loan_request: Pubkey,
    pub requested_amount: u64,
    pub requested_token_mint: Pubkey,
    pub duration: u64,
    pub lend_nft_mint: Pubkey,
}

/// The accounts that take part when a loan is granted.
#[derive(Clone, Copy, Debug, PartialEq, Eq, Structural)]
pub struct GrantLoanAccounts {
    /// The request that is granted.
    pub loan_request: Pubkey,
    /// The record of the new loan.
    pub loan: Pubkey,
    /// The record of the fee on the new loan.
    pub loan_fee: Pubkey,
    /// The escrow that holds the fee.
    pub loan_fee_escrow: Pubkey,
    /// The asset that stands for the lender's claim.
    pub lend_nft_mint: Pubkey,
    pub lender: Pubkey,
    /// The account that the funds come from.
    pub requested_token_account: Pubkey,
    /// The owner of that account.
    pub requested_token_account_owner: Pubkey,
}

/// The funds that move when a loan is granted.
#[derive(Clone, Copy, Debug, PartialEq, Eq, Structural)]
pub struct LoanFunding {
    /// The fee in whole units.
    pub fee: u64,
    /// What the lender pays into the fee's escrow.
    pub fee_payment: Payment,
    /// What the lender pays into the loan's escrow: the amount lent less
    /// the fee.
    pub loan_payment: Payment,
}

/// What the custody service does when a loan is granted: it opens the two
/// escrows, unless the funds are in the native asset; the lender pays the
/// fee into the one and the rest into the other; it takes over the
/// authority to mint the lender's claim, and mints that claim.
pub open spec fn grant_loan_actions(funding: LoanFunding) -> Seq<CustodyAction> {
    let rest = seq![
        CustodyAction::Pay {
            from: Holder::Lender,
            to: Holder::FeeEscrow,
            payment: funding.fee_payment,
        },
        CustodyAction::Pay {
            from: Holder::Lender,
            to: Holder::LoanEscrow,
            payment: funding.loan_payment,
        },
        CustodyAction::TakeMintAuthority { claim: Claim::Lender },
        CustodyAction::MintClaim { claim: Claim::Lender },
    ];
    if funding.fee_payment.native {
        rest
    } else {
        seq![CustodyAction::OpenEscrows] + rest
    }
}

/// Everything that [`grant_loan`] leaves behind.
pub struct GrantLoanOutcome {
    pub loan_request: LoanRequest,
    pub platform_fees: PlatformFeesView,
    pub grant_loan_req: GrantLoan,
    pub loan: Loan,
    pub loan_fee: LoanFeeView,
    pub funding: LoanFunding,
    pub event: LoanGranted,
}

/// The funds that move when `loan_request` is granted; the error where it
/// cannot be granted.
pub open spec fn grant_loan_funding(
    loan_request: LoanRequest,
    platform_fees: PlatformFeesView,
    accounts: GrantLoanAccounts,
) -> Result<LoanFunding, ErrorCode> {
    if loan_request.loan is Some {
        Err(ErrorCode::InvalidLoanState)
    } else {
        match platform_fee_spec(loan_request.requested_amount, platform_fees.fee_percentage) {
            Err(e) => Err(e),
            Ok(fee) => if fee > loan_request.requested_amount {
                Err(ErrorCode::MathOverflow)
            } else if loan_request.requested_token_mint == Pubkey::zero()
                && accounts.requested_token_account != accounts.lender {
                Err(ErrorCode::InvalidAccount)
            } else if loan_request.requested_token_mint != Pubkey::zero()
                && accounts.requested_token_account_owner != accounts.lender {
                Err(ErrorCode::InvalidAccount)
            } else {
                match payment_spec(loan_request.requested_token_mint, fee) {
                    Err(e) => Err(e),
                    Ok(fee_payment) => match payment_spec(
                        loan_request.requested_token_mint,
                        (loan_request.requested_amount - fee) as u64,
                    ) {
                        Err(e) => Err(e),
                        Ok(loan_payment) => if platform_fees.uncollected_fees.len()
                            >= MAX_UNCOLLECTED_FEES {
                            Err(ErrorCode::FeesListFull)
                        } else {
                            Ok(LoanFunding { fee, fee_payment, loan_payment })
                        },
                    },
                }
            },
        }
    }
}

/// What [`grant_loan`] leaves behind.
pub open spec fn grant_loan_spec(
    loan_request: LoanRequest,
    platform_fees: PlatformFeesView,
    owners: Seq<Pubkey>,
    accounts: GrantLoanAccounts,
    current_slot: u64,
) -> Result<GrantLoanOutcome, ErrorCode> {
    match grant_loan_funding(loan_request, platform_fees, accounts) {
        Err(e) => Err(e),
        Ok(funding) => Ok(
            GrantLoanOutcome {
                loan_request: LoanRequest { loan: Some(accounts.loan), ..loan_request },
                platform_fees: PlatformFeesView {
                    uncollected_fees: platform_fees.uncollected_fees.push(accounts.loan_fee),
                    ..platform_fees
                },
                grant_loan_req: GrantLoan {
                    nft_worth: loan_request.nft_worth,
                    granted_amount: loan_request.requested_amount,
                    requested_token_mint: loan_request.requested_token_mint,
                    loan_request: accounts.loan_request,
                    slot_duration: loan_request.slot_duration,
                    loan: accounts.loan,
                    lend_nft_mint: accounts.lend_nft_mint,
                },
                loan: Loan::started(
                    Some(accounts.loan_fee),
                    loan_request.nft_mint,
                    loan_request.borrow_nft_mint,
                    accounts.lend_nft_mint,
                    loan_request.requested_token_mint,
                    platform_fees.ltv,
                    platform_fees.fee_percentage,
                    platform_fees.interest_rate,
                    loan_request.nft_worth,
                    loan_request.requested_amount,
                    loan_request.slot_duration,
                    current_slot,
                ),
                loan_fee: LoanFeeView {
                    amount: funding.fee,
                    token_mint: loan_request.requested_token_mint,
                    loan: accounts.loan,
                    escrow: accounts.loan_fee_escrow,
                    owners,
                },
                funding,
                event: LoanGranted {
                    nft_mint: loan_request.nft_mint,
                    loan_request: accounts.loan_request,
                    requested_amount: loan_request.requested_amount,
                    requested_token_mint: loan_request.requested_token_mint,
                    duration: loan_request.slot_duration,
                    lend_nft_mint: accounts.lend_nft_mint,
                },
            },
        ),
    }
}

/// Grants the loan that `loan_request` asks for, at `current_slot`. The
/// lender pays the fee into the fee's escrow and the rest into the loan's;
/// the loan takes the parameters as they stand now; the fee is owed to the
/// present owners of the multisig.
///
/// The fee must not come to zero.
pub fn grant_loan(
    loan_request: &mut LoanRequest,
    platform_fees: &mut PlatformFees,
    multisig: &Multisig,
    grant_loan_req: &mut GrantLoan,
    loan: &mut Loan,
    loan_fee: &mut LoanFee,
    accounts: GrantLoanAccounts,
    current_slot: u64,
) -> (r: Result<(LoanFunding, LoanGranted, Vec<CustodyAction>), ErrorCode>)
    requires
        platform_fee_spec(old(loan_request).requested_amount, old(platform_fees).fee_percentage) != Ok::<
            u64,
            ErrorCode,
        >(0),
    ensures
        match grant_loan_spec(
            *old(loan_request),
            old(platform_fees)@,
            multisig@.owners,
            accounts,
            current_slot,
        ) {
            Ok(out) => {
                &&& r matches Ok((funding, event, actions))
                &&& funding == out.funding
                &&& event == out.event
                &&& actions@ == grant_loan_actions(out.funding)
                &&& *final(loan_request) == out.loan_request
                &&& final(platform_fees)@ == out.platform_fees
                &&& *final(grant_loan_req) == out.grant_loan_req
                &&& *final(loan) == out.loan
                &&& final(loan_fee)@ == out.loan_fee
            },
            Err(e) => {
                &&& r matches Err(f)
                &&& f == e
                &&& *final(loan_request) == *old(loan_request)
                &&& final(platform_fees)@ == old(platform_fees)@
                &&& *final(grant_loan_req) == *old(grant_loan_req)
                &&& *final(loan) == *old(loan)
                &&& final(loan_fee)@ == old(loan_fee)@
            },
        },
{
    if loan_request.loan.is_some() {
        return Err(ErrorCode::InvalidLoanState);
    }
    let mint: Pubkey = loan_request.requested_token_mint;
    let fee: u64 = match platform_fee(loan_request.requested_amount, platform_fees.fee_percentage) {
        Ok(v) => v,
        Err(e) => {
            return Err(e);
        },
    };
    if fee > loan_request.requested_amount {
        return Err(ErrorCode::MathOverflow);
    }
    let remainder: u64 = loan_request.requested_amount - fee;
    if mint.is_default() {
        if accounts.requested_token_account != accounts.lender {
            return Err(ErrorCode::InvalidAccount);
        }
    } else {
        if accounts.requested_token_account_owner != accounts.lender {
            return Err(ErrorCode::InvalidAccount);
        }
    }
    let fee_payment: Payment = match payment(mint, fee) {
        Ok(v) => v,
        Err(e) => {
            return Err(e);
        },
    };
    let loan_payment: Payment = match payment(mint, remainder) {
        Ok(v) => v,
        Err(e) => {
            return Err(e);
        },
    };
    if platform_fees.uncollected_fees.len() >= MAX_UNCOLLECTED_FEES {
        return Err(ErrorCode::FeesListFull);
    }
    let _ = grant_loan_req.init(
        loan_request.nft_worth,
        loan_request.requested_amount,
        mint,
        accounts.loan_request,
        loan_request.slot_duration,
        accounts.lend_nft_mint,
    );
    grant_loan_req.loan = accounts.loan;
    let _ = loan.init(
        loan_request.nft_mint,
        loan_request.borrow_nft_mint,
        accounts.lend_nft_mint,
        mint,
        platform_fees.ltv,
        platform_fees.fee_percentage,
        platform_fees.interest_rate,
        loan_request.nft_worth,
        loan_request.requested_amount,
        loan_request.slot_duration,
        current_slot,
    );
    loan.loan_fee_acct = Some(accounts.loan_fee);
    loan_fee.init(fee, mint, accounts.loan, accounts.loan_fee_escrow, copy_keys(&multisig.owners));
    loan_request.loan = Some(accounts.loan);
    platform_fees.uncollected_fees.push(accounts.loan_fee);
    let mut actions: Vec<CustodyAction> = Vec::new();
    if !fee_payment.native {
        actions.push(CustodyAction::OpenEscrows);
    }
    actions.push(
        CustodyAction::Pay { from: Holder::Lender, to: Holder::FeeEscrow, payment: fee_payment },
    );
    actions.push(
        CustodyAction::Pay { from: Holder::Lender, to: Holder::LoanEscrow, payment: loan_payment },
    );
    actions.push(CustodyAction::TakeMintAuthority { claim: Claim::Lender });
    actions.push(CustodyAction::MintClaim { claim: Claim::Lender });
    proof {
        assert(actions@ =~= grant_loan_actions(LoanFunding { fee, fee_payment, loan_payment }));
    }
    Ok(
        (
            LoanFunding { fee, fee_payment, loan_payment },
            LoanGranted {
                nft_mint: loan_request.nft_mint,
                loan_request: accounts.loan_request,
                requested_amount: loan_request.requested_amount,
                requested_token_mint: mint,
                duration: loan_request.slot_duration,
                lend_nft_mint: accounts.lend_nft_mint,
            },
            actions,
        ),
    )
}

/// A granted loan starts with the whole amount owed and nothing paid and
/// holds the parameters of the time of the grant. The fee and what goes to
/// the loan's escrow add up to the amount lent, and the fee is owed to the
/// owners of that time.
pub proof fn lemma_grant_starts_loan(
    loan_request: LoanRequest,
    platform_fees: PlatformFeesView,
    owners: Seq<Pubkey>,
    accounts: GrantLoanAccounts,
    current_slot: u64,
)
    ensures
        grant_loan_spec(loan_request, platform_fees, owners, accounts, current_slot) matches Ok(
            out,
        ) ==> {
            &&& out.loan.status == LoanStatus::Started.code_spec()
            &&& out.loan.outstanding_debt == loan_request.requested_amount
            &&& out.loan.paid_amount == 0
            &&& out.loan.start_slot == current_slot
            &&& out.loan.last_updated_slot == current_slot
            &&& out.loan.fee_percentage == platform_fees.fee_percentage
            &&& out.loan.interest_rate == platform_fees.interest_rate
            &&& out.loan.ltv == platform_fees.ltv
            &&& out.funding.fee <= loan_request.requested_amount
            &&& payment_spec(loan_request.requested_token_mint, out.funding.fee) == Ok::<
                Payment,
                ErrorCode,
            >(out.funding.fee_payment)
            &&& payment_spec(
                loan_request.requested_token_mint,
                (loan_request.requested_amount - out.funding.fee) as u64,
            ) == Ok::<Payment, ErrorCode>(out.funding.loan_payment)
            &&& out.funding.fee_payment.native == out.funding.loan_payment.native
            &&& out.funding.fee_payment.native ==> out.funding.fee_payment.amount
                + out.funding.loan_payment.amount == loan_request.requested_amount
                * LAMPORTS_PER_SOL
            &&& !out.funding.fee_payment.native ==> out.funding.fee_payment.amount
                + out.funding.loan_payment.amount == loan_request.requested_amount
            &&& out.loan_fee.amount == out.funding.fee
            &&& out.loan_fee.owners == owners
            &&& out.loan_request.loan == Some(accounts.loan)
            &&& out.platform_fees.uncollected_fees.len() <= MAX_UNCOLLECTED_FEES
            &&& out.platform_fees.uncollected_fees.last() == accounts.loan_fee
        },
{
}

/// What [`lender_withdraw_tokens`] makes of a loan, and the payment to the
/// lender: what was paid in on a loan that was repaid, the collateral's
/// worth on one whose collateral was sold.
pub open spec fn lender_withdraw_tokens_spec(loan: Loan) -> Result<(Loan, Payment), ErrorCode> {
    match loan.status_spec() {
        Err(e) => Err(e),
        Ok(status) => {
            if status != LoanStatus::Repaid && status != LoanStatus::Sold {
                Err(ErrorCode::InvalidLoanState)
            } else {
                match payment_spec(
                    loan.requested_token_mint,
                    if status == LoanStatus::Repaid {
                        loan.paid_amount
                    } else {
                        loan.nft_worth
                    },
                ) {
                    Err(e) => Err(e),
                    Ok(p) => Ok((Loan { status: LoanStatus::Completed.code_spec(), ..loan }, p)),
                }
            }
        },
    }
}

/// Pays the lender out of the loan's escrow, burns the lender's claim and
/// completes the loan.
pub fn lender_withdraw_tokens(loan: &mut Loan) -> (r: Result<Vec<CustodyAction>, ErrorCode>)
    ensures
        match lender_withdraw_tokens_spec(*old(loan)) {
            Ok((post, p)) => {
                &&& *final(loan) == post
                &&& r matches Ok(actions)
                &&& actions@ == seq![
                    CustodyAction::Pay { from: Holder::LoanEscrow, to: Holder::Lender, payment: p },
                    CustodyAction::BurnClaim { claim: Claim::Lender },
                ]
            },
            Err(e) => r matches Err(f) && f == e && *final(loan) == *old(loan),
        },
{
    let status: LoanStatus = match LoanStatus::from(loan.status) {
        Ok(s) => s,
        Err(e) => {
            return Err(e);
        },
    };
    let withdrawal_amount: u64 = match status {
        LoanStatus::Repaid => loan.paid_amount,
        LoanStatus::Sold => loan.nft_worth,
        _ => {
            return Err(ErrorCode::InvalidLoanState);
        },
    };
    let p: Payment = match payment(loan.requested_token_mint, withdrawal_amount) {
        Ok(v) => v,
        Err(e) => {
            return Err(e);
        },
    };
    loan.status = LoanStatus::Completed.to_code();
    Ok(
        vec![
            CustodyAction::Pay { from: Holder::LoanEscrow, to: Holder::Lender, payment: p },
            CustodyAction::BurnClaim { claim: Claim::Lender },
        ],
    )
}

/// What [`seize_nft`] and [`sell_nft`] make of a loan in default: the same
/// loan with the status `then`.
pub open spec fn leave_default_spec(loan: Loan, then: LoanStatus) -> Result<Loan, ErrorCode> {
    match loan.status_spec() {
        Err(e) => Err(e),
        Ok(status) => if status != LoanStatus::Defaulted {
            Err(ErrorCode::InvalidLoanState)
        } else {
            Ok(Loan { status: then.code_spec(), ..loan })
        },
    }
}

/// Hands the collateral of a loan in default to the lender and burns the
/// lender's claim.
pub fn seize_nft(loan: &mut Loan) -> (r: Result<Vec<CustodyAction>, ErrorCode>)
    ensures
        match leave_default_spec(*old(loan), LoanStatus::Seize) {
            Ok(post) => {
                &&& *final(loan) == post
                &&& r matches Ok(actions)
                &&& actions@ == seq![
                    CustodyAction::MoveCollateral {
                        from: Holder::CollateralEscrow,
                        to: Holder::Lender,
                    },
                    CustodyAction::BurnClaim { claim: Claim::Lender },
                ]
            },
            Err(e) => r matches Err(f) && f == e && *final(loan) == *old(loan),
        },
{
    let status: LoanStatus = match LoanStatus::from(loan.status) {
        Ok(s) => s,
        Err(e) => {
            return Err(e);
        },
    };
    if status.to_code() != LoanStatus::Defaulted.to_code() {
        return Err(ErrorCode::InvalidLoanState);
    }
    loan.status = LoanStatus::Seize.to_code();
    Ok(
        vec![
            CustodyAction::MoveCollateral { from: Holder::CollateralEscrow, to: Holder::Lender },
            CustodyAction::BurnClaim { claim: Claim::Lender },
        ],
    )
}

/// Puts the collateral of a loan in default up for sale. No asset moves.
pub fn sell_nft(loan: &mut Loan) -> (r: Result<(), ErrorCode>)
    ensures
        match leave_default_spec(*old(loan), LoanStatus::Sell) {
            Ok(post) => r is Ok && *final(loan) == post,
            Err(e) => r == Err::<(), ErrorCode>(e) && *final(loan) == *old(loan),
        },
{
    let status: LoanStatus = match LoanStatus::from(loan.status) {
        Ok(s) => s,
        Err(e) => {
            return Err(e);
        },
    };
    if status.to_code() != LoanStatus::Defaulted.to_code() {
        return Err(ErrorCode::InvalidLoanState);
    }
    loan.status = LoanStatus::Sell.to_code();
    Ok(())
}

} // verus!
