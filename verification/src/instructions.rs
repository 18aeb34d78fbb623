//! The three supported instructions: initialize, deposit, redeem.
pub mod deposit;
pub mod initialize;
pub mod redeem;

pub use deposit::{Deposit, DepositAccounts, DepositInstructionData, DepositState};
pub use initialize::{Initialize, InitializeAccounts, InitializeState};
pub use redeem::{Redeem, RedeemAccounts, RedeemInstructionData, RedeemState};
