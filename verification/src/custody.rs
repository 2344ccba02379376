//! What the protocol asks of the asset custody service.
//!
//! The protocol moves no asset itself. Each operation returns, in order, the
//! movements that go with it; the caller has the custody service carry them
//! out together with the change of the records, or not at all.

use vstd::prelude::*;
use crate::utils::Payment;

verus! {

/// A holder of funds or of the collateral.
#[derive(Clone, Copy, Debug, PartialEq, Eq, Structural)]
pub enum Holder {
    Borrower,
    Lender,
    /// The third party that buys collateral put up for sale.
    Buyer,
    /// The owner of the multisig that collects a share of a fee.
    Owner,
    /// The escrow that holds a request's collateral.
    CollateralEscrow,
    /// The escrow that holds a loan's funds.
    LoanEscrow,
    /// The escrow that holds a loan's fee.
    FeeEscrow,
}

/// One of the two claims on a loan, each an asset of which one unit exists.
#[derive(Clone, Copy, Debug, PartialEq, Eq, Structural)]
pub enum Claim {
    /// The borrower's claim to the collateral.
    Borrower,
    /// The lender's claim to repayment, or to the collateral in default.
    Lender,
}

/// One movement that the custody service carries out.
#[derive(Clone, Copy, Debug, PartialEq, Eq, Structural)]
pub enum CustodyAction {
    /// Moves funds from one holder to another.
    Pay { from: Holder, to: Holder, payment: Payment },
    /// Moves the collateral, one unit, from one holder to another.
    MoveCollateral { from: Holder, to: Holder },
    /// Opens the escrows for a loan's funds and for its fee. Funds in the
    /// native asset need none.
    OpenEscrows,
    /// Closes the escrow that held a request's collateral.
    CloseCollateralEscrow,
    /// Hands the authority to mint a claim from its party to the protocol.
    TakeMintAuthority { claim: Claim },
    /// Mints the one unit of a claim to its party.
    MintClaim { claim: Claim },
    /// Burns the one unit of a claim.
    BurnClaim { claim: Claim },
}

} // verus!
