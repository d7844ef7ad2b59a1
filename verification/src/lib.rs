//! A custodial lock-and-give ledger.
//!
//! Depositors lock a fungible asset for one of four holding periods. At
//! maturity the position is released: a configurable share of the amount is
//! diverted to a charitable destination, long-period locks are matched from
//! the shared treasury excess, and a commemorative badge is issued. A
//! burn-to-give path forfeits tokens outright under a cooldown, mirrored
//! one-to-one from the treasury.
//!
//! The crate holds the accounting engine only: the state machine over lock
//! positions, the treasury-excess computation that bounds reservations and
//! matches, and the per-user lock and burn records. Asset custody, transfer
//! execution and badge issuance are external collaborators; every operation
//! here returns the transfer amounts the caller must carry out, and either
//! completes fully or reports an error with no state change.

pub mod types;
pub mod treasury;
pub mod lock_ledger;
pub mod burn_ledger;
pub mod events;
pub mod engine;
pub mod conservation;
