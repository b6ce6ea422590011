//! A ledger-and-registry engine for a donation-tracking application.
//!
//! The engine records rescue organizations ("feeders"), the dogs they care
//! for, donations received, expenses incurred and medical treatments
//! performed, while maintaining running aggregate statistics per feeder.
//! All state lives in an explicit [`state::PawChainContract`] value; every
//! operation is a method on it with a verified contract.
//!
//! The host environment is kept at the boundary: principals (wallet
//! addresses) arrive already authenticated, the wall clock is passed in as a
//! timestamp, and the external value-transfer service reports its outcome as
//! an argument to [`ledger`]'s `donate`. The engine decides which principal
//! must match, which state transitions are legal, and how a single logical
//! action fans out into its dependent mutations. The singletons follow an
//! explicit lifecycle — uninitialized, then initialized — checked at entry
//! to every mutating operation.

pub mod laws;
pub mod ledger;
pub mod model;
pub mod registry;
pub mod state;
pub mod stats;
pub mod types;
