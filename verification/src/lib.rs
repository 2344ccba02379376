//! A peer-to-peer lending protocol secured by non-fungible collateral: the
//! loan life cycle with interest accrual and fee accounting, and the
//! threshold-approval governance that controls the protocol's parameters.

pub mod custody;
pub mod errors;
pub mod instructions;
pub mod lifecycle;
pub mod math;
pub mod pubkey;
pub mod state;
pub mod utils;
