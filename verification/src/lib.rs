//! Linear token vesting with a cliff: schedules, claims and the derived
//! addresses that give the program custody of each treasury.

pub mod address;
pub mod derivation;
pub mod error;
pub mod guard;
pub mod instructions;
pub mod laws;
pub mod registry;
pub mod state;
pub mod table;
pub mod vesting;

pub use crate::address::Address;
pub use crate::error::ErrorCode;
pub use crate::guard::{ClaimTokens, CreateEmployeeAccount, CreateVestingAccount};
pub use crate::instructions::{
    book_claim, claim_tokens, create_employee_account, create_vesting_account, decide_claim,
    enroll_beneficiary, register_company, settle_claim, SettleError, Transfer, TransferError,
};
pub use crate::registry::Registry;
pub use crate::state::{EmployeeAccount, VestingAccount};
pub use crate::vesting::Phase;
