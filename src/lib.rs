//! Bond accrual and settlement engine: an adaptive accrual-rate controller
//! driven by the volume-weighted mean age of pending bonds, the pricing
//! formulas between the principal, staked and claim assets, the per-account
//! bond ledger, and the settlement state machine around them.

pub mod accrual;
pub mod active_vector;
pub mod bond_note;
pub mod contract;
pub mod errors;
pub mod legacy;
pub mod lost_found;
pub mod metadata;
pub mod mock_linear;
pub mod phoenix_bond;
pub mod pricing;
pub mod types;
pub mod view;
pub mod weighted_mean;
pub mod wide;
