//! The protocol's operations, each a step from the records it is given to
//! the records it leaves and the movements of assets that go with them.

pub mod borrower;
pub mod lender;
pub mod multisig;
pub mod third_party;
