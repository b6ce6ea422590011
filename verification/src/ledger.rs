//! Ledger operations: donation and expense recording, and medical treatment
//! records. These update the feeders' running totals atomically with record
//! creation and drive the per-feeder statistics.
//!
//! The value transfer behind a donation belongs to the external
//! value-transfer service: the host performs it between resolving the
//! recipient and committing the donation, and reports its outcome through
//! `donate`'s `transfer_ok` argument. On any failure — including a rejected
//! transfer — nothing is persisted.

use vstd::prelude::*;

use crate::model::{
    bumped_stats, donation_total, expense_animal_count, expense_total,
    lemma_donation_total_push, lemma_expense_animal_count_push, lemma_expense_total_push,
    lemma_treatment_count_push, resolve_feeder, stat_tag_of_category, stat_value, treatment_count,
};
use crate::state::{state_eq, PawChainContract};
use crate::types::{
    Donation, Error, ExpenseCategory, ExpenseRecord, FeederProfile, StatTag, TreatmentRecord,
};

verus! {

/// The donation record `donate` appends: field by field, with the transfer
/// handle pinned by its text.
pub open spec fn donation_matches(
    d: Donation,
    donation_id: u64,
    donor: u64,
    feeder_id: u64,
    amount: i128,
    purpose: String,
    dog_id: Option<u64>,
    now: u64,
) -> bool {
    &&& d.donation_id == donation_id
    &&& d.donor_address == donor
    &&& d.feeder_id == feeder_id
    &&& d.amount == amount
    &&& d.timestamp == now
    &&& d.purpose == purpose
    &&& d.dog_id == dog_id
    &&& d.transaction_hash@ == "tx_hash_placeholder"@
}

/// What `donate` does: it fails with `NotFound` when the engine was never
/// initialized (the administrator or value-transfer singleton is missing)
/// or the feeder id is unallocated, and with `TransferFailed` when the
/// transfer did not succeed — in every failure the state is untouched.
/// Otherwise the donation is recorded and exactly the recipient's
/// `total_received` grows by the amount.
pub open spec fn donate_transition(
    pre: PawChainContract,
    post: PawChainContract,
    donor: u64,
    feeder_id: u64,
    amount: i128,
    purpose: String,
    dog_id: Option<u64>,
    transfer_ok: bool,
    now: u64,
    r: Result<u64, Error>,
) -> bool {
    if pre.admin is None || pre.token is None {
        &&& r == Err::<u64, Error>(Error::NotFound)
        &&& state_eq(pre, post)
    } else if !(1 <= feeder_id <= pre.feeders@.len()) {
        &&& r == Err::<u64, Error>(Error::NotFound)
        &&& state_eq(pre, post)
    } else if !transfer_ok {
        &&& r == Err::<u64, Error>(Error::TransferFailed)
        &&& state_eq(pre, post)
    } else {
        &&& r is Ok
        &&& r->Ok_0 == pre.donations@.len() + 1
        &&& post.donations@.len() == pre.donations@.len() + 1
        &&& post.donations@.drop_last() == pre.donations@
        &&& donation_matches(
            post.donations@.last(),
            r->Ok_0,
            donor,
            feeder_id,
            amount,
            purpose,
            dog_id,
            now,
        )
        &&& post.feeders@ == pre.feeders@.update(
            feeder_id - 1,
            (FeederProfile {
                total_received: (pre.feeders@[feeder_id - 1].total_received + amount) as i128,
                ..pre.feeders@[feeder_id - 1]
            }),
        )
        &&& post.stats@ == pre.stats@
        &&& post.dogs@ == pre.dogs@
        &&& post.expenses@ == pre.expenses@
        &&& post.treatments@ == pre.treatments@
        &&& post.admin == pre.admin
        &&& post.token == pre.token
    }
}

/// What `record_expense` does: before initialization the call fails with
/// `NotFound`; a caller whose wallet resolves to no feeder is rejected with
/// `FeederNotRegistered`; otherwise the expense is recorded
/// unverified, the feeder's `total_spent` grows by the amount, and — for the
/// five recognized categories — the matching statistic grows by the number
/// of dogs the expense benefited. Unrecognized categories update no
/// statistic, silently.
pub open spec fn record_expense_transition(
    pre: PawChainContract,
    post: PawChainContract,
    feeder: u64,
    amount: i128,
    category: ExpenseCategory,
    description: String,
    receipt_hash: String,
    dogs_affected: Vec<u64>,
    now: u64,
    r: Result<u64, Error>,
) -> bool {
    let feeder_id = resolve_feeder(pre.feeders@, feeder);
    if pre.admin is None {
        &&& r == Err::<u64, Error>(Error::NotFound)
        &&& state_eq(pre, post)
    } else if feeder_id == 0 {
        &&& r == Err::<u64, Error>(Error::FeederNotRegistered)
        &&& state_eq(pre, post)
    } else {
        &&& r is Ok
        &&& r->Ok_0 == pre.expenses@.len() + 1
        &&& post.expenses@ == pre.expenses@.push(
            ExpenseRecord {
                expense_id: r->Ok_0,
                feeder_id,
                amount,
                category,
                description,
                timestamp: now,
                receipt_hash,
                dogs_affected,
                verified: false,
            },
        )
        &&& post.feeders@ == pre.feeders@.update(
            feeder_id - 1,
            (FeederProfile {
                total_spent: (pre.feeders@[feeder_id - 1].total_spent + amount) as i128,
                ..pre.feeders@[feeder_id - 1]
            }),
        )
        &&& post.stats@ == (match stat_tag_of_category(category) {
            Some(tag) => pre.stats@.update(
                feeder_id - 1,
                bumped_stats(pre.stats@[feeder_id - 1], tag, dogs_affected@.len() as u64, now),
            ),
            None => pre.stats@,
        })
        &&& post.dogs@ == pre.dogs@
        &&& post.donations@ == pre.donations@
        &&& post.treatments@ == pre.treatments@
        &&& post.admin == pre.admin
        &&& post.token == pre.token
    }
}

/// What `record_treatment` does: before initialization the call fails with
/// `NotFound`; a caller whose wallet resolves to no feeder is rejected with
/// `FeederNotRegistered`; otherwise the treatment is
/// recorded and the feeder's treated counter grows by one. The dog id is
/// stored as given: it is deliberately not checked against the feeder, nor
/// for existence.
pub open spec fn record_treatment_transition(
    pre: PawChainContract,
    post: PawChainContract,
    feeder: u64,
    dog_id: u64,
    treatment_type: String,
    description: String,
    cost: i128,
    veterinarian: String,
    outcome: String,
    now: u64,
    r: Result<u64, Error>,
) -> bool {
    let feeder_id = resolve_feeder(pre.feeders@, feeder);
    if pre.admin is None {
        &&& r == Err::<u64, Error>(Error::NotFound)
        &&& state_eq(pre, post)
    } else if feeder_id == 0 {
        &&& r == Err::<u64, Error>(Error::FeederNotRegistered)
        &&& state_eq(pre, post)
    } else {
        &&& r is Ok
        &&& r->Ok_0 == pre.treatments@.len() + 1
        &&& post.treatments@ == pre.treatments@.push(
            TreatmentRecord {
                treatment_id: r->Ok_0,
                dog_id,
                feeder_id,
                treatment_type,
                description,
                cost,
                date: now,
                veterinarian,
                outcome,
            },
        )
        &&& post.stats@ == pre.stats@.update(
            feeder_id - 1,
            bumped_stats(pre.stats@[feeder_id - 1], StatTag::Treated, 1, now),
        )
        &&& post.feeders@ == pre.feeders@
        &&& post.dogs@ == pre.dogs@
        &&& post.donations@ == pre.donations@
        &&& post.expenses@ == pre.expenses@
        &&& post.admin == pre.admin
        &&& post.token == pre.token
    }
}

/// The machine bounds `record_expense` needs on its success path alone:
/// room in the expense counter, in the feeder's spending total and in the
/// statistic counter the category drives. A call the engine rejects needs
/// none of them.
pub open spec fn record_expense_fits(
    pre: PawChainContract,
    feeder: u64,
    amount: i128,
    category: ExpenseCategory,
    n_dogs: int,
) -> bool {
    let feeder_id = resolve_feeder(pre.feeders@, feeder);
    pre.admin is Some && feeder_id != 0 ==> {
        &&& pre.expenses@.len() < u64::MAX
        &&& i128::MIN <= pre.feeders@[feeder_id - 1].total_spent + amount <= i128::MAX
        &&& (match stat_tag_of_category(category) {
            Some(tag) => stat_value(pre.stats@[feeder_id - 1], tag) + n_dogs <= u64::MAX,
            None => true,
        })
    }
}

/// The statistic tag an expense category drives, as executable code.
fn category_stat_tag(category: ExpenseCategory) -> (r: Option<StatTag>)
    ensures
        r == stat_tag_of_category(category),
{
    match category {
        ExpenseCategory::Food => Some(StatTag::Fed),
        ExpenseCategory::Vaccination => Some(StatTag::Vaccinated),
        ExpenseCategory::Spaying => Some(StatTag::Spayed),
        ExpenseCategory::Neutering => Some(StatTag::Neutered),
        ExpenseCategory::Treatment => Some(StatTag::Treated),
        ExpenseCategory::Other => None,
    }
}

impl PawChainContract {
    /// Records a donation from `donor` to the feeder `feeder_id`. The host
    /// has already asked the value-transfer service to move `amount` from
    /// the donor to the feeder's wallet and reports the outcome in
    /// `transfer_ok`; on failure nothing is persisted. Returns the new
    /// donation id.
    pub fn donate(
        &mut self,
        donor: u64,
        feeder_id: u64,
        amount: i128,
        purpose: String,
        dog_id: Option<u64>,
        transfer_ok: bool,
        now: u64,
    ) -> (r: Result<u64, Error>)
        requires
            old(self).wf(),
            (old(self).admin is Some && old(self).token is Some && 1 <= feeder_id <= old(
                self,
            ).feeders@.len() && transfer_ok) ==> old(self).donations@.len() < u64::MAX
                && i128::MIN <= old(self).feeders@[feeder_id - 1].total_received + amount
                <= i128::MAX,
        ensures
            final(self).wf(),
            donate_transition(
                *old(self),
                *final(self),
                donor,
                feeder_id,
                amount,
                purpose,
                dog_id,
                transfer_ok,
                now,
                r,
            ),
    {
        if self.admin.is_none() || self.token.is_none() {
            return Err(Error::NotFound);
        }
        let n = self.feeders.len();
        if feeder_id < 1 || feeder_id > n as u64 {
            return Err(Error::NotFound);
        }
        if !transfer_ok {
            return Err(Error::TransferFailed);
        }
        let donation_id = self.donations.len() as u64 + 1;
        let donation = Donation {
            donation_id,
            donor_address: donor,
            feeder_id,
            amount,
            timestamp: now,
            purpose,
            dog_id,
            transaction_hash: "tx_hash_placeholder".to_owned(),
        };
        self.donations.push(donation);
        let idx = (feeder_id - 1) as usize;
        let feeder = &mut self.feeders[idx];
        feeder.total_received = feeder.total_received + amount;
        proof {
            assert(self.feeders@[feeder_id - 1] =~= (FeederProfile {
                total_received: (old(self).feeders@[feeder_id - 1].total_received + amount) as i128,
                ..old(self).feeders@[feeder_id - 1]
            }));
            assert(self.feeders@ =~= old(self).feeders@.update(
                feeder_id - 1,
                (FeederProfile {
                    total_received: (old(self).feeders@[feeder_id - 1].total_received
                        + amount) as i128,
                    ..old(self).feeders@[feeder_id - 1]
                }),
            ));
            assert(self.donations@.drop_last() =~= old(self).donations@);
            assert forall|fid: int| 1 <= fid <= self.feeders@.len() implies #[trigger] donation_total(
                self.donations@,
                fid as u64,
            ) == donation_total(old(self).donations@, fid as u64) + (if fid == feeder_id {
                amount as int
            } else {
                0int
            }) by {
                assert(self.donations@ =~= old(self).donations@.push(self.donations@.last()));
                lemma_donation_total_push(
                    old(self).donations@,
                    self.donations@.last(),
                    fid as u64,
                );
            }
        }
        Ok(donation_id)
    }

    /// Records an expense for the feeder the caller's wallet resolves to,
    /// growing its spending total and, for a recognized category, the
    /// matching statistic by the number of dogs benefited. Returns the new
    /// expense id.
    pub fn record_expense(
        &mut self,
        feeder: u64,
        amount: i128,
        category: ExpenseCategory,
        description: String,
        receipt_hash: String,
        dogs_affected: Vec<u64>,
        now: u64,
    ) -> (r: Result<u64, Error>)
        requires
            old(self).wf(),
            record_expense_fits(*old(self), feeder, amount, category, dogs_affected@.len() as int),
        ensures
            final(self).wf(),
            record_expense_transition(
                *old(self),
                *final(self),
                feeder,
                amount,
                category,
                description,
                receipt_hash,
                dogs_affected,
                now,
                r,
            ),
    {
        if self.admin.is_none() {
            return Err(Error::NotFound);
        }
        let feeder_id = self.get_feeder_id_by_address(feeder);
        if feeder_id == 0 {
            return Err(Error::FeederNotRegistered);
        }
        let n_dogs = dogs_affected.len() as u64;
        let expense_id = self.expenses.len() as u64 + 1;
        let expense = ExpenseRecord {
            expense_id,
            feeder_id,
            amount,
            category,
            description,
            timestamp: now,
            receipt_hash,
            dogs_affected,
            verified: false,
        };
        self.expenses.push(expense);
        let n = self.feeders.len();
        let idx = (feeder_id - 1) as usize;
        let feeder_rec = &mut self.feeders[idx];
        feeder_rec.total_spent = feeder_rec.total_spent + amount;
        proof {
            assert(self.feeders@[feeder_id - 1] =~= (FeederProfile {
                total_spent: (old(self).feeders@[feeder_id - 1].total_spent + amount) as i128,
                ..old(self).feeders@[feeder_id - 1]
            }));
            assert(self.feeders@ =~= old(self).feeders@.update(
                feeder_id - 1,
                (FeederProfile {
                    total_spent: (old(self).feeders@[feeder_id - 1].total_spent + amount) as i128,
                    ..old(self).feeders@[feeder_id - 1]
                }),
            ));
            let e = self.expenses@.last();
            assert(self.expenses@ =~= old(self).expenses@.push(e));
            assert forall|fid: int| 1 <= fid <= self.feeders@.len() implies #[trigger] expense_total(
                self.expenses@,
                fid as u64,
            ) == expense_total(old(self).expenses@, fid as u64) + (if fid == feeder_id {
                amount as int
            } else {
                0int
            }) by {
                lemma_expense_total_push(old(self).expenses@, e, fid as u64);
            }
            assert forall|fid: int, cat: ExpenseCategory|
                1 <= fid <= self.feeders@.len() implies #[trigger] expense_animal_count(
                self.expenses@,
                fid as u64,
                cat,
            ) == expense_animal_count(old(self).expenses@, fid as u64, cat) + (if fid == feeder_id
                && cat == category {
                e.dogs_affected@.len() as int
            } else {
                0int
            }) by {
                lemma_expense_animal_count_push(old(self).expenses@, e, fid as u64, cat);
            }
        }
        match category_stat_tag(category) {
            Some(tag) => self.increment_stat_by(feeder_id, tag, n_dogs, now),
            None => {},
        }
        Ok(expense_id)
    }

    /// Records a medical treatment for the feeder the caller's wallet
    /// resolves to, counting one more treated animal. The dog id is stored
    /// as given, deliberately unchecked against the feeder and against the
    /// dog registry. Returns the new treatment id.
    pub fn record_treatment(
        &mut self,
        feeder: u64,
        dog_id: u64,
        treatment_type: String,
        description: String,
        cost: i128,
        veterinarian: String,
        outcome: String,
        now: u64,
    ) -> (r: Result<u64, Error>)
        requires
            old(self).wf(),
            old(self).admin is Some && resolve_feeder(old(self).feeders@, feeder) != 0 ==> old(
                self,
            ).treatments@.len() < u64::MAX && stat_value(
                old(self).stats@[resolve_feeder(old(self).feeders@, feeder) - 1],
                StatTag::Treated,
            ) < u64::MAX,
        ensures
            final(self).wf(),
            record_treatment_transition(
                *old(self),
                *final(self),
                feeder,
                dog_id,
                treatment_type,
                description,
                cost,
                veterinarian,
                outcome,
                now,
                r,
            ),
    {
        if self.admin.is_none() {
            return Err(Error::NotFound);
        }
        let feeder_id = self.get_feeder_id_by_address(feeder);
        if feeder_id == 0 {
            return Err(Error::FeederNotRegistered);
        }
        let treatment_id = self.treatments.len() as u64 + 1;
        let treatment = TreatmentRecord {
            treatment_id,
            dog_id,
            feeder_id,
            treatment_type,
            description,
            cost,
            date: now,
            veterinarian,
            outcome,
        };
        self.treatments.push(treatment);
        proof {
            assert(self.feeders.len() == self.feeders@.len());
            let t = self.treatments@.last();
            assert(self.treatments@ =~= old(self).treatments@.push(t));
            assert forall|fid: int| 1 <= fid <= self.feeders@.len() implies #[trigger] treatment_count(
                self.treatments@,
                fid as u64,
            ) == treatment_count(old(self).treatments@, fid as u64) + (if fid == feeder_id {
                1int
            } else {
                0int
            }) by {
                lemma_treatment_count_push(old(self).treatments@, t, fid as u64);
            }
        }
        self.increment_stat(feeder_id, StatTag::Treated, now);
        Ok(treatment_id)
    }
}

} // verus!
