//! The records that the protocol keeps.

pub mod fees;
pub mod loan;
pub mod multisig;
pub mod platform_listing;

pub use crate::state::fees::{LoanFee, LoanFeeView, PlatformFees, PlatformFeesView};
pub use crate::state::loan::{GrantLoan, Loan, LoanRequest, LoanStatus};
pub use crate::state::multisig::{
    Multisig, MultisigView, Transaction, TransactionAccount, TransactionView,
};
pub use crate::state::platform_listing::PlatformListing;
