//! The errors that the protocol's operations report.

use vstd::prelude::*;
use crate::math::MathError;

verus! {

/// Why an operation was refused. An operation that is refused changes
/// nothing.
#[derive(Clone, Copy, Debug, PartialEq, Eq, Structural)]
pub enum ErrorCode {
    /// Not enough owners signed this transaction.
    NotEnoughSigners,
    /// Overflow when adding.
    Overflow,
    /// Owners must be unique.
    UniqueOwners,
    /// The given transaction has already been executed.
    AlreadyExecuted,
    /// Threshold must be less than or equal to the number of owners.
    InvalidThreshold,
    /// Multisig has already been created.
    MultisigAlreadyInitialized,
    /// The given owner is not part of this multisig.
    InvalidOwner,
    /// Owners length must be non zero.
    InvalidOwnersLen,
    /// Math operation overflow.
    MathOverflow,
    /// Insufficient funds.
    InsufficientFunds,
    /// Unable to cancel loan request.
    UnableToCancel,
    /// Maximum borrow amount exceeded.
    MaxBorrowExceeded,
    /// Account provided is not correct.
    InvalidAccount,
    /// Wrong loan status.
    InvalidStatus,
    /// Loan has ended.
    LoanEnded,
    /// Loan has ended and the borrower has defaulted.
    LoanDefaulted,
    /// Unable to refresh loan at this time.
    CantRefreshLoan,
    /// Uncollected list is full.
    FeesListFull,
    /// Admin (owner) has already withdrawn allocated fees.
    FeeAlreadyWithdrawn,
    /// Fees collected already.
    FeeAlreadyCollected,
    /// Unable to perform action at this time.
    InvalidLoanState,
    /// The owner set has changed since the transaction was proposed.
    StaleTransaction,
}

impl ErrorCode {
    /// The number of this error: its place in the list, from zero.
    pub open spec fn code_spec(self) -> u32 {
        match self {
            ErrorCode::NotEnoughSigners => 0,
            ErrorCode::Overflow => 1,
            ErrorCode::UniqueOwners => 2,
            ErrorCode::AlreadyExecuted => 3,
            ErrorCode::InvalidThreshold => 4,
            ErrorCode::MultisigAlreadyInitialized => 5,
            ErrorCode::InvalidOwner => 6,
            ErrorCode::InvalidOwnersLen => 7,
            ErrorCode::MathOverflow => 8,
            ErrorCode::InsufficientFunds => 9,
            ErrorCode::UnableToCancel => 10,
            ErrorCode::MaxBorrowExceeded => 11,
            ErrorCode::InvalidAccount => 12,
            ErrorCode::InvalidStatus => 13,
            ErrorCode::LoanEnded => 14,
            ErrorCode::LoanDefaulted => 15,
            ErrorCode::CantRefreshLoan => 16,
            ErrorCode::FeesListFull => 17,
            ErrorCode::FeeAlreadyWithdrawn => 18,
            ErrorCode::FeeAlreadyCollected => 19,
            ErrorCode::InvalidLoanState => 20,
            ErrorCode::StaleTransaction => 21,
        }
    }

    /// The number under which this error is reported.
    pub fn code(&self) -> (r: u32)
        ensures
            r == self.code_spec(),
    {
        match self {
            ErrorCode::NotEnoughSigners => 0,
            ErrorCode::Overflow => 1,
            ErrorCode::UniqueOwners => 2,
            ErrorCode::AlreadyExecuted => 3,
            ErrorCode::InvalidThreshold => 4,
            ErrorCode::MultisigAlreadyInitialized => 5,
            ErrorCode::InvalidOwner => 6,
            ErrorCode::InvalidOwnersLen => 7,
            ErrorCode::MathOverflow => 8,
            ErrorCode::InsufficientFunds => 9,
            ErrorCode::UnableToCancel => 10,
            ErrorCode::MaxBorrowExceeded => 11,
            ErrorCode::InvalidAccount => 12,
            ErrorCode::InvalidStatus => 13,
            ErrorCode::LoanEnded => 14,
            ErrorCode::LoanDefaulted => 15,
            ErrorCode::CantRefreshLoan => 16,
            ErrorCode::FeesListFull => 17,
            ErrorCode::FeeAlreadyWithdrawn => 18,
            ErrorCode::FeeAlreadyCollected => 19,
            ErrorCode::InvalidLoanState => 20,
            ErrorCode::StaleTransaction => 21,
        }
    }

    /// The text that describes this error.
    pub open spec fn message_spec(self) -> Seq<char> {
        match self {
            ErrorCode::NotEnoughSigners => "Not enough owners signed this transaction."@,
            ErrorCode::Overflow => "Overflow when adding."@,
            ErrorCode::UniqueOwners => "Owners must be unique"@,
            ErrorCode::AlreadyExecuted => "The given transaction has already been executed."@,
            ErrorCode::InvalidThreshold =>
                "Threshold must be less than or equal to the number of owners."@,
            ErrorCode::MultisigAlreadyInitialized => "Multisig has already been created."@,
            ErrorCode::InvalidOwner => "The given owner is not part of this multisig."@,
            ErrorCode::InvalidOwnersLen => "Owners length must be non zero."@,
            ErrorCode::MathOverflow => "Math operation overflow"@,
            ErrorCode::InsufficientFunds => "Insufficient funds"@,
            ErrorCode::UnableToCancel => "Unable to cancel loan Request"@,
            ErrorCode::MaxBorrowExceeded => "Maximum borrow amount exceeded"@,
            ErrorCode::InvalidAccount => "Account provided is not correct"@,
            ErrorCode::InvalidStatus => "Wrong Loan Status"@,
            ErrorCode::LoanEnded => "Loan has ended"@,
            ErrorCode::LoanDefaulted => "Loan has ended and the borrower has defaulted"@,
            ErrorCode::CantRefreshLoan => "Unable to refresh loan at this time"@,
            ErrorCode::FeesListFull => "Uncollected List is Full"@,
            ErrorCode::FeeAlreadyWithdrawn =>
                "Admin(owner) has already withdrawn allocated fees"@,
            ErrorCode::FeeAlreadyCollected => "fees collected already "@,
            ErrorCode::InvalidLoanState => "Unable to perform action at this time"@,
            ErrorCode::StaleTransaction =>
                "The owner set has changed since this transaction was proposed."@,
        }
    }

    /// The text that describes this error.
    pub fn message(&self) -> (r: &'static str)
        ensures
            r@ == self.message_spec(),
    {
        match self {
            ErrorCode::NotEnoughSigners => "Not enough owners signed this transaction.",
            ErrorCode::Overflow => "Overflow when adding.",
            ErrorCode::UniqueOwners => "Owners must be unique",
            ErrorCode::AlreadyExecuted => "The given transaction has already been executed.",
            ErrorCode::InvalidThreshold =>
                "Threshold must be less than or equal to the number of owners.",
            ErrorCode::MultisigAlreadyInitialized => "Multisig has already been created.",
            ErrorCode::InvalidOwner => "The given owner is not part of this multisig.",
            ErrorCode::InvalidOwnersLen => "Owners length must be non zero.",
            ErrorCode::MathOverflow => "Math operation overflow",
            ErrorCode::InsufficientFunds => "Insufficient funds",
            ErrorCode::UnableToCancel => "Unable to cancel loan Request",
            ErrorCode::MaxBorrowExceeded => "Maximum borrow amount exceeded",
            ErrorCode::InvalidAccount => "Account provided is not correct",
            ErrorCode::InvalidStatus => "Wrong Loan Status",
            ErrorCode::LoanEnded => "Loan has ended",
            ErrorCode::LoanDefaulted => "Loan has ended and the borrower has defaulted",
            ErrorCode::CantRefreshLoan => "Unable to refresh loan at this time",
            ErrorCode::FeesListFull => "Uncollected List is Full",
            ErrorCode::FeeAlreadyWithdrawn => "Admin(owner) has already withdrawn allocated fees",
            ErrorCode::FeeAlreadyCollected => "fees collected already ",
            ErrorCode::InvalidLoanState => "Unable to perform action at this time",
            ErrorCode::StaleTransaction =>
                "The owner set has changed since this transaction was proposed.",
        }
    }

    /// The error that stands for a failed calculation.
    pub fn from_math(e: MathError) -> (r: ErrorCode)
        ensures
            r == ErrorCode::MathOverflow,
    {
        ErrorCode::MathOverflow
    }
}

} // verus!
