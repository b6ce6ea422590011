//! Registry operations: one-time initialization, feeder self-registration,
//! administrator verification of feeders, dog registration, and dog health
//! updates.
//!
//! The singletons follow an explicit lifecycle: until `initialize` has run,
//! every mutating operation fails with `NotFound` for the missing
//! administrator singleton, so a successful `initialize` always finds the
//! counters at zero and leaves them there.
//!
//! Each operation's contract is a transition predicate relating the state
//! before the call, the state after it, the arguments and the result; the
//! proof functions in [`crate::laws`] are stated over these predicates.

use vstd::prelude::*;

use crate::model::{
    bumped_stats, dogs_of_feeder, lemma_dogs_of_feeder_absent, lemma_dogs_of_feeder_push,
    lemma_dogs_of_feeder_update, lemma_donation_total_absent, lemma_expense_animal_count_absent,
    lemma_expense_total_absent, lemma_treatment_count_absent, resolve_feeder, stat_value,
};
use crate::state::{state_eq, PawChainContract};
use crate::types::{
    ActivityStats, Donation, DogProfile, Error, ExpenseRecord, FeederProfile, StatTag,
    TreatmentRecord,
};

verus! {

/// What `initialize` does: the first call records the administrator and the
/// value-transfer service and sets all five entity counters to zero; every
/// later call fails with `AlreadyInitialized` whatever its arguments, and
/// changes nothing.
pub open spec fn initialize_transition(
    pre: PawChainContract,
    post: PawChainContract,
    admin: u64,
    token: u64,
    r: Result<(), Error>,
) -> bool {
    if pre.admin is Some {
        &&& r == Err::<(), Error>(Error::AlreadyInitialized)
        &&& state_eq(pre, post)
    } else {
        &&& r == Ok::<(), Error>(())
        &&& post.admin == Some(admin)
        &&& post.token == Some(token)
        &&& post.feeders@ == Seq::<FeederProfile>::empty()
        &&& post.stats@ == Seq::<ActivityStats>::empty()
        &&& post.dogs@ == Seq::<DogProfile>::empty()
        &&& post.donations@ == Seq::<Donation>::empty()
        &&& post.expenses@ == Seq::<ExpenseRecord>::empty()
        &&& post.treatments@ == Seq::<TreatmentRecord>::empty()
    }
}

/// What `register_feeder` does: before initialization the call fails with
/// `NotFound`; otherwise the next feeder id is allocated, the profile is
/// stored unverified with zero totals, and a zero-valued statistics record
/// is created with it; nothing else changes.
pub open spec fn register_feeder_transition(
    pre: PawChainContract,
    post: PawChainContract,
    wallet_address: u64,
    name: String,
    organization_type: String,
    location: String,
    registration_number: String,
    contact_info: String,
    now: u64,
    r: Result<u64, Error>,
) -> bool {
    if pre.admin is None {
        &&& r == Err::<u64, Error>(Error::NotFound)
        &&& state_eq(pre, post)
    } else {
        &&& r is Ok
        &&& r->Ok_0 == pre.feeders@.len() + 1
        &&& post.feeders@ == pre.feeders@.push(
            FeederProfile {
                feeder_id: r->Ok_0,
                name,
                organization_type,
                location,
                wallet_address,
                registration_number,
                contact_info,
                registered_date: now,
                is_verified: false,
                total_received: 0,
                total_spent: 0,
            },
        )
        &&& post.stats@ == pre.stats@.push(
            ActivityStats {
                feeder_id: r->Ok_0,
                dogs_fed: 0,
                dogs_vaccinated: 0,
                dogs_spayed: 0,
                dogs_neutered: 0,
                dogs_treated: 0,
                dogs_rescued: 0,
                dogs_adopted: 0,
                last_updated: now,
            },
        )
        &&& post.dogs@ == pre.dogs@
        &&& post.donations@ == pre.donations@
        &&& post.expenses@ == pre.expenses@
        &&& post.treatments@ == pre.treatments@
        &&& post.admin == pre.admin
        &&& post.token == pre.token
    }
}

/// What `verify_feeder` does: with no administrator set the call fails with
/// `NotFound`; a caller other than the administrator is `Unauthorized`; an
/// unallocated feeder id is `NotFound`; otherwise the one feeder's verified
/// flag is set, and nothing else changes. A second call is harmless.
pub open spec fn verify_feeder_transition(
    pre: PawChainContract,
    post: PawChainContract,
    admin: u64,
    feeder_id: u64,
    r: Result<(), Error>,
) -> bool {
    if pre.admin is None {
        &&& r == Err::<(), Error>(Error::NotFound)
        &&& state_eq(pre, post)
    } else if pre.admin != Some(admin) {
        &&& r == Err::<(), Error>(Error::Unauthorized)
        &&& state_eq(pre, post)
    } else if !(1 <= feeder_id <= pre.feeders@.len()) {
        &&& r == Err::<(), Error>(Error::NotFound)
        &&& state_eq(pre, post)
    } else {
        &&& r == Ok::<(), Error>(())
        &&& post.feeders@ == pre.feeders@.update(
            feeder_id - 1,
            (FeederProfile { is_verified: true, ..pre.feeders@[feeder_id - 1] }),
        )
        &&& post.stats@ == pre.stats@
        &&& post.dogs@ == pre.dogs@
        &&& post.donations@ == pre.donations@
        &&& post.expenses@ == pre.expenses@
        &&& post.treatments@ == pre.treatments@
        &&& post.admin == pre.admin
        &&& post.token == pre.token
    }
}

/// What `register_dog` does: before initialization the call fails with
/// `NotFound`; a caller whose wallet resolves to no feeder is rejected with
/// `FeederNotRegistered`; otherwise the next dog id is allocated, the
/// profile is stored active with both timestamps set to now, and the owning
/// feeder's rescued counter grows by one.
pub open spec fn register_dog_transition(
    pre: PawChainContract,
    post: PawChainContract,
    feeder: u64,
    name: String,
    age: u32,
    breed: String,
    location: String,
    health_status: String,
    sickness: String,
    now: u64,
    r: Result<u64, Error>,
) -> bool {
    let feeder_id = resolve_feeder(pre.feeders@, feeder);
    if pre.admin is None {
        &&& r == Err::<u64, Error>(Error::NotFound)
        &&& state_eq(pre, post)
    } else if feeder_id == 0 {
        &&& r == Err::<u64, Error>(Error::FeederNotRegistered)
        &&& state_eq(pre, post)
    } else {
        &&& r is Ok
        &&& r->Ok_0 == pre.dogs@.len() + 1
        &&& post.dogs@ == pre.dogs@.push(
            DogProfile {
                dog_id: r->Ok_0,
                name,
                age,
                breed,
                location,
                health_status,
                sickness,
                feeder_id,
                registered_date: now,
                last_updated: now,
                is_active: true,
            },
        )
        &&& post.stats@ == pre.stats@.update(
            feeder_id - 1,
            bumped_stats(pre.stats@[feeder_id - 1], StatTag::Rescued, 1, now),
        )
        &&& post.feeders@ == pre.feeders@
        &&& post.donations@ == pre.donations@
        &&& post.expenses@ == pre.expenses@
        &&& post.treatments@ == pre.treatments@
        &&& post.admin == pre.admin
        &&& post.token == pre.token
    }
}

/// What `update_dog_health` does: before initialization the call fails with
/// `NotFound`, as does an unallocated dog id; a caller whose wallet does not
/// resolve to the dog's owning feeder is `Unauthorized`; otherwise exactly
/// the health status, the sickness description and the update timestamp are
/// overwritten.
pub open spec fn update_dog_health_transition(
    pre: PawChainContract,
    post: PawChainContract,
    feeder: u64,
    dog_id: u64,
    health_status: String,
    sickness: String,
    now: u64,
    r: Result<(), Error>,
) -> bool {
    if pre.admin is None {
        &&& r == Err::<(), Error>(Error::NotFound)
        &&& state_eq(pre, post)
    } else if !(1 <= dog_id <= pre.dogs@.len()) {
        &&& r == Err::<(), Error>(Error::NotFound)
        &&& state_eq(pre, post)
    } else if resolve_feeder(pre.feeders@, feeder) != pre.dogs@[dog_id - 1].feeder_id {
        &&& r == Err::<(), Error>(Error::Unauthorized)
        &&& state_eq(pre, post)
    } else {
        &&& r == Ok::<(), Error>(())
        &&& post.dogs@ == pre.dogs@.update(
            dog_id - 1,
            (DogProfile {
                health_status,
                sickness,
                last_updated: now,
                ..pre.dogs@[dog_id - 1]
            }),
        )
        &&& post.feeders@ == pre.feeders@
        &&& post.stats@ == pre.stats@
        &&& post.donations@ == pre.donations@
        &&& post.expenses@ == pre.expenses@
        &&& post.treatments@ == pre.treatments@
        &&& post.admin == pre.admin
        &&& post.token == pre.token
    }
}

impl PawChainContract {
    /// One-time setup: records the administrator identity and the
    /// value-transfer service reference, and sets all five entity counters
    /// to zero. Fails with `AlreadyInitialized` on any later call, leaving
    /// everything untouched.
    pub fn initialize(&mut self, admin: u64, token: u64) -> (r: Result<(), Error>)
        requires
            old(self).wf(),
        ensures
            final(self).wf(),
            initialize_transition(*old(self), *final(self), admin, token, r),
    {
        if self.admin.is_some() {
            return Err(Error::AlreadyInitialized);
        }
        self.admin = Some(admin);
        self.token = Some(token);
        self.feeders = Vec::new();
        self.stats = Vec::new();
        self.dogs = Vec::new();
        self.donations = Vec::new();
        self.expenses = Vec::new();
        self.treatments = Vec::new();
        Ok(())
    }

    /// Self-registration of a feeder, once the engine is initialized. The
    /// caller has proven control of `wallet_address`; no duplicate-wallet
    /// check is performed. Returns the newly allocated feeder id.
    pub fn register_feeder(
        &mut self,
        wallet_address: u64,
        name: String,
        organization_type: String,
        location: String,
        registration_number: String,
        contact_info: String,
        now: u64,
    ) -> (r: Result<u64, Error>)
        requires
            old(self).wf(),
            old(self).admin is Some ==> old(self).feeders@.len() < u64::MAX,
        ensures
            final(self).wf(),
            register_feeder_transition(
                *old(self),
                *final(self),
                wallet_address,
                name,
                organization_type,
                location,
                registration_number,
                contact_info,
                now,
                r,
            ),
    {
        if self.admin.is_none() {
            return Err(Error::NotFound);
        }
        let feeder_id = self.feeders.len() as u64 + 1;
        let feeder = FeederProfile {
            feeder_id,
            name,
            organization_type,
            location,
            wallet_address,
            registration_number,
            contact_info,
            registered_date: now,
            is_verified: false,
            total_received: 0,
            total_spent: 0,
        };
        self.feeders.push(feeder);
        let stats = ActivityStats {
            feeder_id,
            dogs_fed: 0,
            dogs_vaccinated: 0,
            dogs_spayed: 0,
            dogs_neutered: 0,
            dogs_treated: 0,
            dogs_rescued: 0,
            dogs_adopted: 0,
            last_updated: now,
        };
        self.stats.push(stats);
        proof {
            lemma_donation_total_absent(self.donations@, feeder_id);
            lemma_expense_total_absent(self.expenses@, feeder_id);
            lemma_expense_animal_count_absent(
                self.expenses@,
                feeder_id,
                crate::types::ExpenseCategory::Food,
            );
            lemma_expense_animal_count_absent(
                self.expenses@,
                feeder_id,
                crate::types::ExpenseCategory::Vaccination,
            );
            lemma_expense_animal_count_absent(
                self.expenses@,
                feeder_id,
                crate::types::ExpenseCategory::Spaying,
            );
            lemma_expense_animal_count_absent(
                self.expenses@,
                feeder_id,
                crate::types::ExpenseCategory::Neutering,
            );
            lemma_expense_animal_count_absent(
                self.expenses@,
                feeder_id,
                crate::types::ExpenseCategory::Treatment,
            );
            lemma_treatment_count_absent(self.treatments@, feeder_id);
            lemma_dogs_of_feeder_absent(self.dogs@, feeder_id);
        }
        Ok(feeder_id)
    }

    /// Administrator verification of a feeder: only the stored administrator
    /// may flip the verified flag, and only for an allocated feeder id.
    /// Idempotent: verifying twice is harmless.
    pub fn verify_feeder(&mut self, admin: u64, feeder_id: u64) -> (r: Result<(), Error>)
        requires
            old(self).wf(),
        ensures
            final(self).wf(),
            verify_feeder_transition(*old(self), *final(self), admin, feeder_id, r),
    {
        match self.admin {
            None => {
                return Err(Error::NotFound);
            },
            Some(stored_admin) => {
                if admin != stored_admin {
                    return Err(Error::Unauthorized);
                }
            },
        }
        let n = self.feeders.len();
        if feeder_id < 1 || feeder_id > n as u64 {
            return Err(Error::NotFound);
        }
        let idx = (feeder_id - 1) as usize;
        let feeder = &mut self.feeders[idx];
        feeder.is_verified = true;
        proof {
            assert(self.feeders@[feeder_id - 1] =~= (FeederProfile {
                is_verified: true,
                ..old(self).feeders@[feeder_id - 1]
            }));
            assert(self.feeders@ =~= old(self).feeders@.update(
                feeder_id - 1,
                (FeederProfile { is_verified: true, ..old(self).feeders@[feeder_id - 1] }),
            ));
        }
        Ok(())
    }

    /// Registers a dog for the feeder the caller's wallet resolves to, once
    /// the engine is initialized; rejects a wallet that backs no feeder with
    /// `FeederNotRegistered`. The newcomer counts as rescued in the owner's
    /// statistics.
    pub fn register_dog(
        &mut self,
        feeder: u64,
        name: String,
        age: u32,
        breed: String,
        location: String,
        health_status: String,
        sickness: String,
        now: u64,
    ) -> (r: Result<u64, Error>)
        requires
            old(self).wf(),
            old(self).admin is Some && resolve_feeder(old(self).feeders@, feeder) != 0
                ==> old(self).dogs@.len() < u64::MAX && stat_value(
                old(self).stats@[resolve_feeder(old(self).feeders@, feeder) - 1],
                StatTag::Rescued,
            ) < u64::MAX,
        ensures
            final(self).wf(),
            register_dog_transition(
                *old(self),
                *final(self),
                feeder,
                name,
                age,
                breed,
                location,
                health_status,
                sickness,
                now,
                r,
            ),
    {
        if self.admin.is_none() {
            return Err(Error::NotFound);
        }
        let feeder_id = self.get_feeder_id_by_address(feeder);
        if feeder_id == 0 {
            return Err(Error::FeederNotRegistered);
        }
        let dog_id = self.dogs.len() as u64 + 1;
        let dog = DogProfile {
            dog_id,
            name,
            age,
            breed,
            location,
            health_status,
            sickness,
            feeder_id,
            registered_date: now,
            last_updated: now,
            is_active: true,
        };
        self.dogs.push(dog);
        proof {
            assert forall|fid: int| 1 <= fid <= self.stats@.len() implies #[trigger] dogs_of_feeder(
                self.dogs@,
                fid as u64,
            ) == dogs_of_feeder(old(self).dogs@, fid as u64) + (if feeder_id == fid as u64 {
                1int
            } else {
                0int
            }) by {
                lemma_dogs_of_feeder_push(old(self).dogs@, dog, fid as u64);
            }
        }
        self.increment_stat(feeder_id, StatTag::Rescued, now);
        Ok(dog_id)
    }

    /// Overwrites a dog's health status and sickness description, stamping
    /// the update time, once the engine is initialized. Only the wallet that
    /// resolves to the dog's owning feeder may do so; every other
    /// authenticated wallet is `Unauthorized`.
    pub fn update_dog_health(
        &mut self,
        feeder: u64,
        dog_id: u64,
        health_status: String,
        sickness: String,
        now: u64,
    ) -> (r: Result<(), Error>)
        requires
            old(self).wf(),
        ensures
            final(self).wf(),
            update_dog_health_transition(
                *old(self),
                *final(self),
                feeder,
                dog_id,
                health_status,
                sickness,
                now,
                r,
            ),
    {
        if self.admin.is_none() {
            return Err(Error::NotFound);
        }
        let n = self.dogs.len();
        if dog_id < 1 || dog_id > n as u64 {
            return Err(Error::NotFound);
        }
        let feeder_id = self.get_feeder_id_by_address(feeder);
        let idx = (dog_id - 1) as usize;
        if self.dogs[idx].feeder_id != feeder_id {
            return Err(Error::Unauthorized);
        }
        let dog = &mut self.dogs[idx];
        dog.health_status = health_status;
        dog.sickness = sickness;
        dog.last_updated = now;
        proof {
            assert(self.dogs@[dog_id - 1] =~= (DogProfile {
                health_status,
                sickness,
                last_updated: now,
                ..old(self).dogs@[dog_id - 1]
            }));
            assert(self.dogs@ =~= old(self).dogs@.update(
                dog_id - 1,
                (DogProfile {
                    health_status,
                    sickness,
                    last_updated: now,
                    ..old(self).dogs@[dog_id - 1]
                }),
            ));
            assert forall|fid: int| 1 <= fid <= self.stats@.len() implies #[trigger] dogs_of_feeder(
                self.dogs@,
                fid as u64,
            ) == dogs_of_feeder(old(self).dogs@, fid as u64) by {
                lemma_dogs_of_feeder_update(
                    old(self).dogs@,
                    dog_id - 1,
                    self.dogs@[dog_id - 1],
                    fid as u64,
                );
            }
        }
        Ok(())
    }
}

} // verus!
