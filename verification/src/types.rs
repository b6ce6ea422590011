//! The entity records that the engine stores, the closed category
//! vocabularies, and the error kinds every operation can surface.
//!
//! Principals (wallet addresses, the administrator, the value-transfer
//! service) are opaque identities compared only for equality; they are
//! represented as plain `u64` values. Proving control of a principal is the
//! host's concern: the engine receives callers already authenticated.

use vstd::prelude::*;

verus! {

/// The error kinds. All are terminal for the invocation: the engine surfaces
/// them synchronously and performs no partial commit.
#[derive(Clone, Copy, Debug, PartialEq, Eq, Structural)]
pub enum Error {
    /// Setup was re-run after it had already completed.
    AlreadyInitialized,
    /// A lookup of a nonexistent id, or of an uninitialized singleton.
    NotFound,
    /// The caller's wallet resolves to no registered feeder (sentinel 0).
    FeederNotRegistered,
    /// The caller is authenticated but does not own or administer the target.
    Unauthorized,
    /// The external value-transfer service rejected the transfer.
    TransferFailed,
}

/// The closed vocabulary of expense categories. Only the five named
/// categories drive a per-animal statistic; `Other` stands for every
/// unrecognized tag and updates totals but no statistic.
#[derive(Clone, Copy, Debug, PartialEq, Eq, Structural)]
pub enum ExpenseCategory {
    Food,
    Vaccination,
    Spaying,
    Neutering,
    Treatment,
    Other,
}

/// The fixed set of statistic tags maintained per feeder.
#[derive(Clone, Copy, Debug, PartialEq, Eq, Structural)]
pub enum StatTag {
    Fed,
    Vaccinated,
    Spayed,
    Neutered,
    Treated,
    Rescued,
    Adopted,
}

/// A dog under a feeder's care. Never deleted, only deactivated.
#[verifier::ext_equal]
#[derive(Clone, Debug)]
pub struct DogProfile {
    pub dog_id: u64,
    pub name: String,
    pub age: u32,
    pub breed: String,
    pub location: String,
    pub health_status: String,
    pub sickness: String,
    /// The owning feeder; immutable after creation and always a registered id.
    pub feeder_id: u64,
    pub registered_date: u64,
    pub last_updated: u64,
    /// False once adopted or deceased; there is no hard delete.
    pub is_active: bool,
}

/// A rescue organization or individual caretaker.
#[verifier::ext_equal]
#[derive(Clone, Debug)]
pub struct FeederProfile {
    pub feeder_id: u64,
    pub name: String,
    pub organization_type: String,
    pub location: String,
    /// The controlling wallet; the engine does not enforce wallet uniqueness.
    pub wallet_address: u64,
    pub registration_number: String,
    pub contact_info: String,
    pub registered_date: u64,
    /// Administrator-controlled verification flag.
    pub is_verified: bool,
    /// Always the sum of the amounts of all donations to this feeder.
    pub total_received: i128,
    /// Always the sum of the amounts of all expenses by this feeder.
    pub total_spent: i128,
}

/// An immutable record of a completed donation.
#[verifier::ext_equal]
#[derive(Clone, Debug)]
pub struct Donation {
    pub donation_id: u64,
    pub donor_address: u64,
    pub feeder_id: u64,
    pub amount: i128,
    pub timestamp: u64,
    pub purpose: String,
    /// Set when the donation targets one specific dog.
    pub dog_id: Option<u64>,
    /// Handle referencing the external value transfer.
    pub transaction_hash: String,
}

/// An immutable spending record.
#[verifier::ext_equal]
#[derive(Clone, Debug)]
pub struct ExpenseRecord {
    pub expense_id: u64,
    pub feeder_id: u64,
    pub amount: i128,
    pub category: ExpenseCategory,
    pub description: String,
    pub timestamp: u64,
    /// Content hash of the receipt.
    pub receipt_hash: String,
    /// The dogs this expense benefited; drives the statistic increment.
    pub dogs_affected: Vec<u64>,
    /// Defaults to false; no operation currently flips it.
    pub verified: bool,
}

/// One record per feeder: a materialized, incrementally-maintained aggregate.
/// No counter is ever decremented.
#[verifier::ext_equal]
#[derive(Clone, Copy, Debug)]
pub struct ActivityStats {
    pub feeder_id: u64,
    pub dogs_fed: u64,
    pub dogs_vaccinated: u64,
    pub dogs_spayed: u64,
    pub dogs_neutered: u64,
    pub dogs_treated: u64,
    pub dogs_rescued: u64,
    pub dogs_adopted: u64,
    pub last_updated: u64,
}

/// An immutable medical-care record tied to one dog and one feeder.
#[verifier::ext_equal]
#[derive(Clone, Debug)]
pub struct TreatmentRecord {
    pub treatment_id: u64,
    pub dog_id: u64,
    pub feeder_id: u64,
    pub treatment_type: String,
    pub description: String,
    pub cost: i128,
    pub date: u64,
    pub veterinarian: String,
    pub outcome: String,
}

} // verus!
