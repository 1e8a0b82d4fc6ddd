//! Governance engine of an ambassadors organisation: payout records, council
//! voting, disbursement schedules and referral bookkeeping.

pub mod amounts;
pub mod contract;
pub mod conversion;
pub mod error;
pub mod ledger;
pub mod members;
pub mod payout;
pub mod registration;
pub mod text_map;
pub mod types;
pub mod validation;
pub mod views;
pub mod vote;
