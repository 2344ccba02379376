//! A loan and the two records that lead to it.

use vstd::prelude::*;
use crate::errors::ErrorCode;
use crate::pubkey::Pubkey;
use crate::utils::{accrued_interest, accrued_interest_spec};

verus! {

/// A borrower's offer of collateral for a loan.
#[derive(Clone, Copy, Debug, PartialEq, Eq, Structural)]
pub struct LoanRequest {
    pub nft_worth: u64,
    pub nft_mint: Pubkey,
    pub requested_amount: u64,
    pub requested_token_mint: Pubkey,
    pub slot_duration: u64,
    /// The loan that was granted on this request, once one was.
    pub loan: Option<Pubkey>,
    pub borrow_nft_mint: Pubkey,
}

impl LoanRequest {
    /// The bytes that a stored request takes.
    pub const MAX_SIZE: usize = 8 + 32 + 8 + 32 + 8 + 1 + 32 + 32;

    /// Fills in a new request, with no loan granted on it.
    pub fn init(
        &mut self,
        nft_worth: u64,
        nft_mint: Pubkey,
        requested_amount: u64,
        requested_token_mint: Pubkey,
        slot_duration: u64,
        borrow_nft_mint: Pubkey,
    ) -> (r: Result<(), ErrorCode>)
        ensures
            r is Ok,
            *final(self) == (LoanRequest {
                nft_worth,
                nft_mint,
                requested_amount,
                requested_token_mint,
                slot_duration,
                loan: None,
                borrow_nft_mint,
            }),
    {
        self.requested_token_mint = requested_token_mint;
        self.nft_worth = nft_worth;
        self.nft_mint = nft_mint;
        self.requested_amount = requested_amount;
        self.slot_duration = slot_duration;
        self.loan = None;
        self.borrow_nft_mint = borrow_nft_mint;
        Ok(())
    }
}

/// A lender's acceptance of a request.
#[derive(Clone, Copy, Debug, PartialEq, Eq, Structural)]
pub struct GrantLoan {
    pub nft_worth: u64,
    pub granted_amount: u64,
    pub requested_token_mint: Pubkey,
    pub loan_request: Pubkey,
    pub slot_duration: u64,
    pub loan: Pubkey,
    pub lend_nft_mint: Pubkey,
}

impl GrantLoan {
    /// The bytes that a stored grant takes.
    pub const MAX_SIZE: usize = 8 + 8 + 32 + 32 + 8 + 32 + 32;

    /// Fills in a new grant; the reference to its loan is left as it was.
    pub fn init(
        &mut self,
        nft_worth: u64,
        granted_amount: u64,
        requested_token_mint: Pubkey,
        loan_request: Pubkey,
        slot_duration: u64,
        lend_nft_mint: Pubkey,
    ) -> (r: Result<(), ErrorCode>)
        ensures
            r is Ok,
            *final(self) == (GrantLoan {
                nft_worth,
                granted_amount,
                requested_token_mint,
                loan_request,
                slot_duration,
                loan: old(self).loan,
                lend_nft_mint,
            }),
    {
        self.nft_worth = nft_worth;
        self.granted_amount = granted_amount;
        self.requested_token_mint = requested_token_mint;
        self.loan_request = loan_request;
        self.slot_duration = slot_duration;
        self.lend_nft_mint = lend_nft_mint;
        Ok(())
    }
}

/// A granted loan.
#[derive(Clone, Copy, Debug, PartialEq, Eq, Structural)]
pub struct Loan {
    pub loan_fee_acct: Option<Pubkey>,
    pub nft_mint: Pubkey,
    pub borrow_nft_mint: Pubkey,
    pub lend_nft_mint: Pubkey,
    pub requested_token_mint: Pubkey,
    /// The loan-to-value ratio when the loan was granted.
    pub ltv: u32,
    /// The fee rate when the loan was granted.
    pub fee_percentage: u32,
    /// The interest rate when the loan was granted.
    pub interest_rate: u32,
    pub nft_worth: u64,
    pub requested_amount: u64,
    /// What the borrower still owes; grows with interest, falls with
    /// repayments.
    pub outstanding_debt: u64,
    pub paid_amount: u64,
    pub amount_sold: u64,
    /// The code of a [`LoanStatus`].
    pub status: u8,
    pub slot_duration: u64,
    pub start_slot: u64,
    pub last_updated_slot: u64,
}

impl Loan {
    /// The bytes that a stored loan takes.
    pub const MAX_SIZE: usize = 1 + 32 + 32 + 32 + 32 + 32 + 4 + 4 + 4 + 8 + 8 + 8 + 8 + 8 + 1 + 8
        + 8 + 8;

    /// The loan as it stands when it is granted at `start_slot`: nothing
    /// paid, the whole amount owed, no time passed.
    pub open spec fn started(
        loan_fee_acct: Option<Pubkey>,
        nft_mint: Pubkey,
        borrow_nft_mint: Pubkey,
        lend_nft_mint: Pubkey,
        requested_token_mint: Pubkey,
        ltv: u32,
        fee_percentage: u32,
        interest_rate: u32,
        nft_worth: u64,
        requested_amount: u64,
        slot_duration: u64,
        start_slot: u64,
    ) -> Loan {
        Loan {
            loan_fee_acct,
            nft_mint,
            borrow_nft_mint,
            lend_nft_mint,
            requested_token_mint,
            ltv,
            fee_percentage,
            interest_rate,
            nft_worth,
            requested_amount,
            outstanding_debt: requested_amount,
            paid_amount: 0,
            amount_sold: 0,
            status: LoanStatus::Started.code_spec(),
            slot_duration,
            start_slot,
            last_updated_slot: start_slot,
        }
    }

    /// Fills in a loan that starts at `start_slot`; the reference to its
    /// fee record is left as it was.
    pub fn init(
        &mut self,
        nft_mint: Pubkey,
        borrow_nft_mint: Pubkey,
        lend_nft_mint: Pubkey,
        requested_token_mint: Pubkey,
        ltv: u32,
        fee_percentage: u32,
        interest_rate: u32,
        nft_worth: u64,
        requested_amount: u64,
        slot_duration: u64,
        start_slot: u64,
    ) -> (r: Result<(), ErrorCode>)
        ensures
            r is Ok,
            *final(self) == Loan::started(
                old(self).loan_fee_acct,
                nft_mint,
                borrow_nft_mint,
                lend_nft_mint,
                requested_token_mint,
                ltv,
                fee_percentage,
                interest_rate,
                nft_worth,
                requested_amount,
                slot_duration,
                start_slot,
            ),
    {
        self.nft_mint = nft_mint;
        self.borrow_nft_mint = borrow_nft_mint;
        self.lend_nft_mint = lend_nft_mint;
        self.requested_token_mint = requested_token_mint;
        self.ltv = ltv;
        self.fee_percentage = fee_percentage;
        self.interest_rate = interest_rate;
        self.nft_worth = nft_worth;
        self.requested_amount = requested_amount;
        self.outstanding_debt = requested_amount;
        self.paid_amount = 0;
        self.amount_sold = 0;
        self.status = LoanStatus::Started.to_code();
        self.slot_duration = slot_duration;
        self.start_slot = start_slot;
        self.last_updated_slot = start_slot;
        Ok(())
    }

    /// The slot at which the loan ends.
    pub open spec fn end_slot(self) -> int {
        self.start_slot + self.slot_duration
    }

    /// The status that the stored code stands for.
    pub open spec fn status_spec(self) -> Result<LoanStatus, ErrorCode> {
        LoanStatus::from_spec(self.status)
    }

    /// The interest that accrues between the last update and
    /// `current_slot`; `MathOverflow` where `current_slot` lies before the
    /// last update or the interest cannot be represented.
    pub open spec fn interest_due(self, current_slot: u64) -> Result<u64, ErrorCode> {
        if current_slot < self.last_updated_slot {
            Err(ErrorCode::MathOverflow)
        } else {
            match accrued_interest_spec(
                self.requested_amount,
                self.interest_rate,
                (current_slot - self.last_updated_slot) as u64,
            ) {
                Ok(interest) => Ok(interest),
                Err(_) => Err(ErrorCode::MathOverflow),
            }
        }
    }

    /// The interest due is reckoned on the amount first lent: what has
    /// accrued or been paid since makes no difference to it.
    pub proof fn lemma_interest_on_amount_lent(self, other: Loan, current_slot: u64)
        requires
            self.requested_amount == other.requested_amount,
            self.interest_rate == other.interest_rate,
            self.last_updated_slot == other.last_updated_slot,
        ensures
            self.interest_due(current_slot) == other.interest_due(current_slot),
    {
    }

    /// What [`Loan::accrue_interest`] makes of a loan.
    pub open spec fn accrue_interest_spec(self, current_slot: u64) -> Result<Loan, ErrorCode> {
        match self.interest_due(current_slot) {
            Err(e) => Err(e),
            Ok(interest) => {
                if self.outstanding_debt + interest > u64::MAX {
                    Err(ErrorCode::MathOverflow)
                } else {
                    Ok(
                        Loan {
                            outstanding_debt: (self.outstanding_debt + interest) as u64,
                            last_updated_slot: current_slot,
                            ..self
                        },
                    )
                }
            },
        }
    }

    /// Adds to the debt the interest that the amount first lent has earned
    /// since the last update, and moves the last update to `current_slot`.
    pub fn accrue_interest(&mut self, current_slot: u64) -> (r: Result<u64, ErrorCode>)
        ensures
            match old(self).accrue_interest_spec(current_slot) {
                Ok(post) => *final(self) == post && r == old(self).interest_due(current_slot),
                Err(e) => r == Err::<u64, ErrorCode>(e) && *final(self) == *old(self),
            },
    {
        if current_slot < self.last_updated_slot {
            return Err(ErrorCode::MathOverflow);
        }
        let slots_elapsed: u64 = current_slot - self.last_updated_slot;
        let interest: u64 = match accrued_interest(
            self.requested_amount,
            self.interest_rate,
            slots_elapsed,
        ) {
            Ok(v) => v,
            Err(e) => {
                return Err(ErrorCode::from_math(e));
            },
        };
        match self.outstanding_debt.checked_add(interest) {
            Some(debt) => {
                self.outstanding_debt = debt;
                self.last_updated_slot = current_slot;
                Ok(interest)
            },
            None => Err(ErrorCode::MathOverflow),
        }
    }
}

/// Where a loan stands in its life.
#[derive(Clone, Copy, Debug, PartialEq, Eq, Structural)]
pub enum LoanStatus {
    /// Granted; the borrower has not taken the funds yet.
    Started,
    /// The borrower has taken the funds.
    TokensWithdrawn,
    /// The borrower has paid the debt and has the collateral back.
    Repaid,
    /// The borrower has missed the deadline.
    Defaulted,
    /// The lender has taken the collateral.
    Seize,
    /// The lender has been paid.
    Completed,
    /// The lender offers the collateral for sale.
    Sell,
    /// A third party has bought the collateral.
    Sold,
}

impl LoanStatus {
    /// The code under which a status is stored.
    pub open spec fn code_spec(self) -> u8 {
        match self {
            LoanStatus::Started => 0,
            LoanStatus::TokensWithdrawn => 1,
            LoanStatus::Repaid => 2,
            LoanStatus::Defaulted => 3,
            LoanStatus::Seize => 4,
            LoanStatus::Completed => 5,
            LoanStatus::Sell => 6,
            LoanStatus::Sold => 7,
        }
    }

    /// The status that a code stands for; `InvalidStatus` for a code that
    /// stands for none.
    pub open spec fn from_spec(val: u8) -> Result<LoanStatus, ErrorCode> {
        if val == 0 {
            Ok(LoanStatus::Started)
        } else if val == 1 {
            Ok(LoanStatus::TokensWithdrawn)
        } else if val == 2 {
            Ok(LoanStatus::Repaid)
        } else if val == 3 {
            Ok(LoanStatus::Defaulted)
        } else if val == 4 {
            Ok(LoanStatus::Seize)
        } else if val == 5 {
            Ok(LoanStatus::Completed)
        } else if val == 6 {
            Ok(LoanStatus::Sell)
        } else if val == 7 {
            Ok(LoanStatus::Sold)
        } else {
            Err(ErrorCode::InvalidStatus)
        }
    }

    /// The code under which this status is stored.
    pub fn to_code(&self) -> (r: u8)
        ensures
            r == self.code_spec(),
    {
        match self {
            LoanStatus::Started => 0,
            LoanStatus::TokensWithdrawn => 1,
            LoanStatus::Repaid => 2,
            LoanStatus::Defaulted => 3,
            LoanStatus::Seize => 4,
            LoanStatus::Completed => 5,
            LoanStatus::Sell => 6,
            LoanStatus::Sold => 7,
        }
    }

    /// The status that `val` stands for.
    pub fn from(val: u8) -> (r: Result<LoanStatus, ErrorCode>)
        ensures
            r == LoanStatus::from_spec(val),
    {
        match val {
            0 => Ok(LoanStatus::Started),
            1 => Ok(LoanStatus::TokensWithdrawn),
            2 => Ok(LoanStatus::Repaid),
            3 => Ok(LoanStatus::Defaulted),
            4 => Ok(LoanStatus::Seize),
            5 => Ok(LoanStatus::Completed),
            6 => Ok(LoanStatus::Sell),
            7 => Ok(LoanStatus::Sold),
            _ => Err(ErrorCode::InvalidStatus),
        }
    }
}

/// A status comes back from its own code.
pub proof fn lemma_status_code_round_trip(status: LoanStatus)
    ensures
        LoanStatus::from_spec(status.code_spec()) == Ok::<LoanStatus, ErrorCode>(status),
{
}

} // verus!
