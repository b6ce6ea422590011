//! The engine's durable state: every entity registry, the singleton
//! principals, and the well-formedness invariant that ties them together.
//!
//! Identifiers are allocated gap-free from 1 per entity category, so each
//! registry is a vector whose entry at index `i` carries id `i + 1`; the
//! category counters are the vector lengths. The sentinel id 0 means "no
//! such entity".

use vstd::prelude::*;

use crate::model::{
    dogs_of_feeder, donation_total, expense_animal_count, expense_total, resolve_feeder,
    treatment_count,
};
use crate::types::{
    ActivityStats, Donation, DogProfile, ExpenseCategory, ExpenseRecord, Error, FeederProfile,
    TreatmentRecord,
};

verus! {

/// The complete state of the engine. Every operation is a method on this
/// type; all methods require and preserve [`PawChainContract::wf`].
#[verifier::ext_equal]
pub struct PawChainContract {
    /// The administrator principal, set once at initialization.
    pub admin: Option<u64>,
    /// The value-transfer service reference, set once at initialization.
    pub token: Option<u64>,
    /// Feeder with id `i + 1` lives at index `i`.
    pub feeders: Vec<FeederProfile>,
    /// One statistics record per feeder, created with it.
    pub stats: Vec<ActivityStats>,
    /// Dog with id `i + 1` lives at index `i`.
    pub dogs: Vec<DogProfile>,
    /// Donation with id `i + 1` lives at index `i`.
    pub donations: Vec<Donation>,
    /// Expense with id `i + 1` lives at index `i`.
    pub expenses: Vec<ExpenseRecord>,
    /// Treatment with id `i + 1` lives at index `i`.
    pub treatments: Vec<TreatmentRecord>,
}

impl PawChainContract {
    /// Well-formedness: ids are the positions shifted by one, every stored
    /// cross-reference names a registered feeder, the running totals equal
    /// the ledger sums, and every statistic counter equals the sum of the
    /// increments that the operations have applied for that feeder.
    pub open spec fn wf(self) -> bool {
        &&& self.stats@.len() == self.feeders@.len()
        &&& forall|i: int|
            0 <= i < self.feeders@.len() ==> (#[trigger] self.feeders@[i]).feeder_id == i + 1
        &&& forall|i: int|
            0 <= i < self.stats@.len() ==> (#[trigger] self.stats@[i]).feeder_id == i + 1
        &&& forall|i: int| 0 <= i < self.dogs@.len() ==> (#[trigger] self.dogs@[i]).dog_id == i + 1
        &&& forall|i: int|
            0 <= i < self.dogs@.len() ==> 1 <= (#[trigger] self.dogs@[i]).feeder_id
                <= self.feeders@.len()
        &&& forall|i: int|
            0 <= i < self.donations@.len() ==> (#[trigger] self.donations@[i]).donation_id == i + 1
        &&& forall|i: int|
            0 <= i < self.donations@.len() ==> 1 <= (#[trigger] self.donations@[i]).feeder_id
                <= self.feeders@.len()
        &&& forall|i: int|
            0 <= i < self.expenses@.len() ==> (#[trigger] self.expenses@[i]).expense_id == i + 1
        &&& forall|i: int|
            0 <= i < self.expenses@.len() ==> 1 <= (#[trigger] self.expenses@[i]).feeder_id
                <= self.feeders@.len()
        &&& forall|i: int|
            0 <= i < self.treatments@.len() ==> (#[trigger] self.treatments@[i]).treatment_id == i
                + 1
        &&& forall|i: int|
            0 <= i < self.treatments@.len() ==> 1 <= (#[trigger] self.treatments@[i]).feeder_id
                <= self.feeders@.len()
        &&& forall|i: int|
            0 <= i < self.feeders@.len() ==> (#[trigger] self.feeders@[i]).total_received
                == donation_total(self.donations@, (i + 1) as u64)
        &&& forall|i: int|
            0 <= i < self.feeders@.len() ==> (#[trigger] self.feeders@[i]).total_spent
                == expense_total(self.expenses@, (i + 1) as u64)
        &&& forall|i: int|
            0 <= i < self.stats@.len() ==> (#[trigger] self.stats@[i]).dogs_fed
                == expense_animal_count(self.expenses@, (i + 1) as u64, ExpenseCategory::Food)
        &&& forall|i: int|
            0 <= i < self.stats@.len() ==> (#[trigger] self.stats@[i]).dogs_vaccinated
                == expense_animal_count(
                self.expenses@,
                (i + 1) as u64,
                ExpenseCategory::Vaccination,
            )
        &&& forall|i: int|
            0 <= i < self.stats@.len() ==> (#[trigger] self.stats@[i]).dogs_spayed
                == expense_animal_count(self.expenses@, (i + 1) as u64, ExpenseCategory::Spaying)
        &&& forall|i: int|
            0 <= i < self.stats@.len() ==> (#[trigger] self.stats@[i]).dogs_neutered
                == expense_animal_count(self.expenses@, (i + 1) as u64, ExpenseCategory::Neutering)
        &&& forall|i: int|
            0 <= i < self.stats@.len() ==> (#[trigger] self.stats@[i]).dogs_treated
                == expense_animal_count(self.expenses@, (i + 1) as u64, ExpenseCategory::Treatment)
                + treatment_count(self.treatments@, (i + 1) as u64)
        &&& forall|i: int|
            0 <= i < self.stats@.len() ==> (#[trigger] self.stats@[i]).dogs_rescued
                == dogs_of_feeder(self.dogs@, (i + 1) as u64)
        &&& forall|i: int|
            0 <= i < self.stats@.len() ==> (#[trigger] self.stats@[i]).dogs_adopted == 0
    }

    /// The fresh, uninitialized state: no singletons set, no entities.
    pub fn new() -> (s: Self)
        ensures
            s.wf(),
            s.admin is None,
            s.token is None,
            s.feeders@ == Seq::<FeederProfile>::empty(),
            s.stats@ == Seq::<ActivityStats>::empty(),
            s.dogs@ == Seq::<DogProfile>::empty(),
            s.donations@ == Seq::<Donation>::empty(),
            s.expenses@ == Seq::<ExpenseRecord>::empty(),
            s.treatments@ == Seq::<TreatmentRecord>::empty(),
    {
        PawChainContract {
            admin: None,
            token: None,
            feeders: Vec::new(),
            stats: Vec::new(),
            dogs: Vec::new(),
            donations: Vec::new(),
            expenses: Vec::new(),
            treatments: Vec::new(),
        }
    }

    /// The feeder id the caller's wallet resolves to, or the sentinel 0 when
    /// the wallet backs no registered feeder. When wallets are shared, the
    /// first match in id order wins.
    pub fn get_feeder_id_by_address(&self, address: u64) -> (r: u64)
        requires
            self.wf(),
        ensures
            r == resolve_feeder(self.feeders@, address),
            r == 0 || (1 <= r <= self.feeders@.len() && self.feeders@[r - 1].wallet_address
                == address),
    {
        let n = self.feeders.len();
        let mut i: usize = 0;
        proof {
            assert(self.feeders@.skip(0) =~= self.feeders@);
        }
        while i < n
            invariant
                self.wf(),
                n == self.feeders@.len(),
                0 <= i <= n,
                resolve_feeder(self.feeders@, address) == resolve_feeder(
                    self.feeders@.skip(i as int),
                    address,
                ),
                forall|j: int|
                    0 <= j < i ==> (#[trigger] self.feeders@[j]).wallet_address != address,
            decreases n - i,
        {
            if self.feeders[i].wallet_address == address {
                proof {
                    assert(self.feeders@.skip(i as int).first() == self.feeders@[i as int]);
                }
                return self.feeders[i].feeder_id;
            }
            proof {
                assert(self.feeders@.skip(i as int).first() == self.feeders@[i as int]);
                assert(self.feeders@.skip(i as int).drop_first() =~= self.feeders@.skip(
                    i as int + 1,
                ));
            }
            i += 1;
        }
        proof {
            assert(self.feeders@.skip(n as int).len() == 0);
        }
        0
    }

    /// Pure read of a dog profile; `NotFound` outside the allocated range.
    pub fn get_dog(&self, dog_id: u64) -> (r: Result<&DogProfile, Error>)
        ensures
            1 <= dog_id <= self.dogs@.len() ==> (r matches Ok(d) && *d == self.dogs@[dog_id - 1]),
            !(1 <= dog_id <= self.dogs@.len()) ==> r == Err::<&DogProfile, Error>(Error::NotFound),
    {
        if 1 <= dog_id && dog_id <= self.dogs.len() as u64 {
            Ok(&self.dogs[(dog_id - 1) as usize])
        } else {
            Err(Error::NotFound)
        }
    }

    /// Pure read of a feeder profile; `NotFound` outside the allocated range.
    pub fn get_feeder(&self, feeder_id: u64) -> (r: Result<&FeederProfile, Error>)
        ensures
            1 <= feeder_id <= self.feeders@.len() ==> (r matches Ok(f) && *f == self.feeders@[feeder_id - 1]),
            !(1 <= feeder_id <= self.feeders@.len()) ==> r == Err::<&FeederProfile, Error>(
                Error::NotFound,
            ),
    {
        if 1 <= feeder_id && feeder_id <= self.feeders.len() as u64 {
            Ok(&self.feeders[(feeder_id - 1) as usize])
        } else {
            Err(Error::NotFound)
        }
    }

    /// Pure read of a feeder's statistics; `NotFound` outside the range.
    pub fn get_feeder_stats(&self, feeder_id: u64) -> (r: Result<&ActivityStats, Error>)
        ensures
            1 <= feeder_id <= self.stats@.len() ==> (r matches Ok(s) && *s == self.stats@[feeder_id - 1]),
            !(1 <= feeder_id <= self.stats@.len()) ==> r == Err::<&ActivityStats, Error>(
                Error::NotFound,
            ),
    {
        if 1 <= feeder_id && feeder_id <= self.stats.len() as u64 {
            Ok(&self.stats[(feeder_id - 1) as usize])
        } else {
            Err(Error::NotFound)
        }
    }

    /// Pure read of a donation record; `NotFound` outside the range.
    pub fn get_donation(&self, donation_id: u64) -> (r: Result<&Donation, Error>)
        ensures
            1 <= donation_id <= self.donations@.len() ==> (r matches Ok(d) && *d == self.donations@[donation_id - 1]),
            !(1 <= donation_id <= self.donations@.len()) ==> r == Err::<&Donation, Error>(
                Error::NotFound,
            ),
    {
        if 1 <= donation_id && donation_id <= self.donations.len() as u64 {
            Ok(&self.donations[(donation_id - 1) as usize])
        } else {
            Err(Error::NotFound)
        }
    }

    /// Pure read of an expense record; `NotFound` outside the range.
    pub fn get_expense(&self, expense_id: u64) -> (r: Result<&ExpenseRecord, Error>)
        ensures
            1 <= expense_id <= self.expenses@.len() ==> (r matches Ok(e) && *e == self.expenses@[expense_id - 1]),
            !(1 <= expense_id <= self.expenses@.len()) ==> r == Err::<&ExpenseRecord, Error>(
                Error::NotFound,
            ),
    {
        if 1 <= expense_id && expense_id <= self.expenses.len() as u64 {
            Ok(&self.expenses[(expense_id - 1) as usize])
        } else {
            Err(Error::NotFound)
        }
    }

    /// Pure read of a treatment record; `NotFound` outside the range.
    pub fn get_treatment(&self, treatment_id: u64) -> (r: Result<&TreatmentRecord, Error>)
        ensures
            1 <= treatment_id <= self.treatments@.len() ==> (r matches Ok(t) && *t == self.treatments@[treatment_id - 1]),
            !(1 <= treatment_id <= self.treatments@.len()) ==> r == Err::<&TreatmentRecord, Error>(
                Error::NotFound,
            ),
    {
        if 1 <= treatment_id && treatment_id <= self.treatments.len() as u64 {
            Ok(&self.treatments[(treatment_id - 1) as usize])
        } else {
            Err(Error::NotFound)
        }
    }

    /// The dog counter: how many dogs have ever been registered.
    pub fn get_total_dogs(&self) -> (r: u64)
        ensures
            r == self.dogs@.len(),
    {
        self.dogs.len() as u64
    }

    /// The feeder counter: how many feeders have ever been registered.
    pub fn get_total_feeders(&self) -> (r: u64)
        ensures
            r == self.feeders@.len(),
    {
        self.feeders.len() as u64
    }

    /// The donation counter: how many donations have been recorded.
    pub fn get_total_donations(&self) -> (r: u64)
        ensures
            r == self.donations@.len(),
    {
        self.donations.len() as u64
    }

    /// The expense counter: how many expenses have been recorded.
    pub fn get_total_expenses(&self) -> (r: u64)
        ensures
            r == self.expenses@.len(),
    {
        self.expenses.len() as u64
    }
}

/// The entity registries of the two states are identical.
pub open spec fn unchanged_entities(pre: PawChainContract, post: PawChainContract) -> bool {
    &&& post.feeders@ == pre.feeders@
    &&& post.stats@ == pre.stats@
    &&& post.dogs@ == pre.dogs@
    &&& post.donations@ == pre.donations@
    &&& post.expenses@ == pre.expenses@
    &&& post.treatments@ == pre.treatments@
}

/// The two states agree on everything observable: singletons and registries.
pub open spec fn state_eq(pre: PawChainContract, post: PawChainContract) -> bool {
    &&& unchanged_entities(pre, post)
    &&& post.admin == pre.admin
    &&& post.token == pre.token
}

} // verus!
