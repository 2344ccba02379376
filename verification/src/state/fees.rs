//! The protocol's parameters and the fees that it is owed.

use vstd::prelude::*;
use crate::pubkey::Pubkey;

verus! {

/// The most fee records that may await collection at one time.
pub const MAX_UNCOLLECTED_FEES: usize = 100;

/// The protocol's parameters, each a rate in thousandths, and the fee
/// records that have not been collected in full.
#[derive(Clone, Debug, PartialEq, Eq)]
pub struct PlatformFees {
    pub fee_percentage: u32,
    pub interest_rate: u32,
    /// The loan-to-value ratio.
    pub ltv: u32,
    pub uncollected_fees: Vec<Pubkey>,
}

/// What a [`PlatformFees`] holds.
pub struct PlatformFeesView {
    pub fee_percentage: u32,
    pub interest_rate: u32,
    pub ltv: u32,
    pub uncollected_fees: Seq<Pubkey>,
}

impl View for PlatformFees {
    type V = PlatformFeesView;

    open spec fn view(&self) -> PlatformFeesView {
        PlatformFeesView {
            fee_percentage: self.fee_percentage,
            interest_rate: self.interest_rate,
            ltv: self.ltv,
            uncollected_fees: self.uncollected_fees@,
        }
    }
}

impl PlatformFees {
    /// The bytes that a stored record takes.
    pub const MAX_SIZE: usize = 4 + 4 + 4 + 4 + (100 * 32);

    /// Sets the three parameters; the list of uncollected fees stays.
    pub fn init(&mut self, fee: u32, interest: u32, ltv: u32)
        ensures
            final(self)@ == (PlatformFeesView {
                fee_percentage: fee,
                interest_rate: interest,
                ltv,
                uncollected_fees: old(self)@.uncollected_fees,
            }),
    {
        self.fee_percentage = fee;
        self.interest_rate = interest;
        self.ltv = ltv;
    }
}

/// The fee owed on one loan.
#[derive(Clone, Debug, PartialEq, Eq)]
pub struct LoanFee {
    pub amount: u64,
    pub token_mint: Pubkey,
    pub loan: Pubkey,
    pub escrow: Pubkey,
    /// The owners that have not withdrawn their share yet.
    pub owners: Vec<Pubkey>,
}

/// What a [`LoanFee`] holds.
pub struct LoanFeeView {
    pub amount: u64,
    pub token_mint: Pubkey,
    pub loan: Pubkey,
    pub escrow: Pubkey,
    pub owners: Seq<Pubkey>,
}

impl View for LoanFee {
    type V = LoanFeeView;

    open spec fn view(&self) -> LoanFeeView {
        LoanFeeView {
            amount: self.amount,
            token_mint: self.token_mint,
            loan: self.loan,
            escrow: self.escrow,
            owners: self.owners@,
        }
    }
}

impl LoanFee {
    /// The bytes that a stored record takes.
    pub const MAX_SIZE: usize = 8 + 32 + 32 + 32 + 4 + (100 * 32);

    /// Fills in a fee record.
    pub fn init(
        &mut self,
        amount: u64,
        token_mint: Pubkey,
        loan: Pubkey,
        escrow: Pubkey,
        owners: Vec<Pubkey>,
    )
        ensures
            final(self)@ == (LoanFeeView { amount, token_mint, loan, escrow, owners: owners@ }),
    {
        self.amount = amount;
        self.token_mint = token_mint;
        self.loan = loan;
        self.escrow = escrow;
        self.owners = owners;
    }
}

} // verus!
