//! System-wide guarantees, proved over the operations' transition
//! predicates: identifier monotonicity, exactly-once initialization, the
//! ownership rule for health updates, ledger consistency, statistics
//! consistency, and the idempotence of feeder verification.

use vstd::prelude::*;

use crate::model::{
    dogs_of_feeder, donation_total, expense_animal_count, expense_total, resolve_feeder,
    treatment_count,
};
use crate::registry::{
    initialize_transition, register_dog_transition, register_feeder_transition,
    update_dog_health_transition, verify_feeder_transition,
};
use crate::state::{state_eq, PawChainContract};
use crate::types::{Error, ExpenseCategory, FeederProfile};

verus! {

/// Feeder ids are strictly increasing, starting at 1: across any two
/// consecutive registrations the second id is exactly one more than the
/// first, the first registration in a fresh state receives id 1, and the
/// feeder counter always equals the number of registrations performed.
pub proof fn lemma_feeder_ids_strictly_increasing(
    s0: PawChainContract,
    s1: PawChainContract,
    s2: PawChainContract,
    w1: u64,
    n1: String,
    o1: String,
    l1: String,
    g1: String,
    c1: String,
    t1: u64,
    id1: u64,
    w2: u64,
    n2: String,
    o2: String,
    l2: String,
    g2: String,
    c2: String,
    t2: u64,
    id2: u64,
)
    requires
        register_feeder_transition(s0, s1, w1, n1, o1, l1, g1, c1, t1, Ok(id1)),
        register_feeder_transition(s1, s2, w2, n2, o2, l2, g2, c2, t2, Ok(id2)),
    ensures
        id1 == s0.feeders@.len() + 1,
        id2 == id1 + 1,
        id1 < id2,
        s0.feeders@.len() == 0 ==> id1 == 1,
        s1.feeders@.len() == s0.feeders@.len() + 1,
        s2.feeders@.len() == s0.feeders@.len() + 2,
{
}

/// Initialization is exactly-once: once a call to `initialize` has
/// succeeded, every later call fails with `AlreadyInitialized`, whatever its
/// arguments, and leaves the state exactly as it was.
pub proof fn lemma_initialize_exactly_once(
    s0: PawChainContract,
    s1: PawChainContract,
    s2: PawChainContract,
    admin1: u64,
    token1: u64,
    admin2: u64,
    token2: u64,
    r2: Result<(), Error>,
)
    requires
        initialize_transition(s0, s1, admin1, token1, Ok(())),
        initialize_transition(s1, s2, admin2, token2, r2),
    ensures
        r2 == Err::<(), Error>(Error::AlreadyInitialized),
        state_eq(s1, s2),
{
}

/// The ownership rule for health updates: on an initialized state, for an
/// existing dog, `update_dog_health` succeeds exactly when the caller's
/// wallet resolves to the dog's owning feeder; any other authenticated
/// wallet receives `Unauthorized` and changes nothing.
pub proof fn lemma_update_dog_health_ownership(
    s0: PawChainContract,
    s1: PawChainContract,
    feeder: u64,
    dog_id: u64,
    health_status: String,
    sickness: String,
    now: u64,
    r: Result<(), Error>,
)
    requires
        update_dog_health_transition(s0, s1, feeder, dog_id, health_status, sickness, now, r),
        s0.admin is Some,
        1 <= dog_id <= s0.dogs@.len(),
    ensures
        r == Ok::<(), Error>(()) <==> resolve_feeder(s0.feeders@, feeder) == s0.dogs@[dog_id
            - 1].feeder_id,
        resolve_feeder(s0.feeders@, feeder) != s0.dogs@[dog_id - 1].feeder_id ==> r == Err::<
            (),
            Error,
        >(Error::Unauthorized) && state_eq(s0, s1),
{
}

/// An unregistered wallet cannot register a dog: on an initialized state,
/// when the caller's wallet resolves to no feeder, `register_dog` fails
/// with `FeederNotRegistered` and the state — every record, counter and
/// statistic — is exactly as before.
pub proof fn lemma_register_dog_unregistered_rejection(
    s0: PawChainContract,
    s1: PawChainContract,
    feeder: u64,
    name: String,
    age: u32,
    breed: String,
    location: String,
    health_status: String,
    sickness: String,
    now: u64,
    r: Result<u64, Error>,
)
    requires
        register_dog_transition(
            s0,
            s1,
            feeder,
            name,
            age,
            breed,
            location,
            health_status,
            sickness,
            now,
            r,
        ),
        s0.admin is Some,
        resolve_feeder(s0.feeders@, feeder) == 0,
    ensures
        r == Err::<u64, Error>(Error::FeederNotRegistered),
        state_eq(s0, s1),
{
}

/// Ledger consistency: in every well-formed state — and every operation
/// preserves well-formedness — a feeder's `total_received` equals the sum of
/// the amounts of all donations addressed to it, and its `total_spent`
/// equals the sum of the amounts of all expenses it recorded.
pub proof fn lemma_ledger_consistency(s: PawChainContract, feeder_id: u64)
    requires
        s.wf(),
        1 <= feeder_id <= s.feeders@.len(),
    ensures
        s.feeders@[feeder_id - 1].total_received == donation_total(s.donations@, feeder_id),
        s.feeders@[feeder_id - 1].total_spent == expense_total(s.expenses@, feeder_id),
{
    assert(s.feeders@[feeder_id - 1].feeder_id == feeder_id);
}

/// Statistics consistency: in every well-formed state each of a feeder's
/// counters equals the sum of the increments the operations have applied for
/// it — animals fed, vaccinated, spayed and neutered count the dogs benefited
/// by expenses of the matching category; animals treated additionally count
/// the treatment records; animals rescued count the registered dogs; and no
/// operation yet records adoptions.
pub proof fn lemma_stats_consistency(s: PawChainContract, feeder_id: u64)
    requires
        s.wf(),
        1 <= feeder_id <= s.feeders@.len(),
    ensures
        s.stats@[feeder_id - 1].feeder_id == feeder_id,
        s.stats@[feeder_id - 1].dogs_fed == expense_animal_count(
            s.expenses@,
            feeder_id,
            ExpenseCategory::Food,
        ),
        s.stats@[feeder_id - 1].dogs_vaccinated == expense_animal_count(
            s.expenses@,
            feeder_id,
            ExpenseCategory::Vaccination,
        ),
        s.stats@[feeder_id - 1].dogs_spayed == expense_animal_count(
            s.expenses@,
            feeder_id,
            ExpenseCategory::Spaying,
        ),
        s.stats@[feeder_id - 1].dogs_neutered == expense_animal_count(
            s.expenses@,
            feeder_id,
            ExpenseCategory::Neutering,
        ),
        s.stats@[feeder_id - 1].dogs_treated == expense_animal_count(
            s.expenses@,
            feeder_id,
            ExpenseCategory::Treatment,
        ) + treatment_count(s.treatments@, feeder_id),
        s.stats@[feeder_id - 1].dogs_rescued == dogs_of_feeder(s.dogs@, feeder_id),
        s.stats@[feeder_id - 1].dogs_adopted == 0,
{
}

/// Verifying a feeder is idempotent: after a successful `verify_feeder`, a
/// second call by the same administrator for the same feeder succeeds too,
/// leaves `is_verified` true, and has no further effect of any kind.
pub proof fn lemma_verify_feeder_idempotent(
    s0: PawChainContract,
    s1: PawChainContract,
    s2: PawChainContract,
    admin: u64,
    feeder_id: u64,
    r2: Result<(), Error>,
)
    requires
        verify_feeder_transition(s0, s1, admin, feeder_id, Ok(())),
        verify_feeder_transition(s1, s2, admin, feeder_id, r2),
    ensures
        r2 == Ok::<(), Error>(()),
        s2.feeders@[feeder_id - 1].is_verified,
        state_eq(s1, s2),
{
    assert(s1.feeders@[feeder_id - 1] == (FeederProfile {
        is_verified: true,
        ..s0.feeders@[feeder_id - 1]
    }));
    assert(s2.feeders@[feeder_id - 1].is_verified);
    assert(s1.feeders@[feeder_id - 1] =~= (FeederProfile {
        is_verified: true,
        ..s1.feeders@[feeder_id - 1]
    }));
    assert(s2.feeders@ =~= s1.feeders@);
}

} // verus!
