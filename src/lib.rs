//! A rental-agreement state machine: one record per lease, created by
//! `initialize_rent_contract` and advanced by `deposit_security`.
//!
//! The record carries fields for rent payments, extension requests and
//! termination; the operations that will drive them are to be added beside
//! the two here, each as a transition in `agreement` with its laws in
//! `lifecycle`.
use vstd::prelude::*;

pub mod agreement;
pub mod error;
pub mod lifecycle;
pub mod status;

pub use agreement::{
    deposit_security, initialize_rent_contract, DepositSecurity, Identity, InitializeRentContract,
    RentAgreementAccount, MAX_DURATION_MONTHS,
};
pub use error::ErrorCode;
pub use status::AgreementStatus;

verus! {

} // verus!
