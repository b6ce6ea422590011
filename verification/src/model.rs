//! The mathematical model the contracts are stated over: the address-to-feeder
//! resolution function, the ledger sums, the per-category animal counts, and
//! the statistic-update functions, with the lemmas the operations need.

use vstd::prelude::*;

use crate::types::{
    ActivityStats, Donation, DogProfile, ExpenseCategory, ExpenseRecord, FeederProfile, StatTag,
    TreatmentRecord,
};

verus! {

/// The feeder id that a wallet resolves to: the first feeder (in id order)
/// whose controlling wallet equals `wallet`, or the sentinel 0 when none
/// matches.
pub open spec fn resolve_feeder(feeders: Seq<FeederProfile>, wallet: u64) -> u64
    decreases feeders.len(),
{
    if feeders.len() == 0 {
        0
    } else if feeders.first().wallet_address == wallet {
        feeders.first().feeder_id
    } else {
        resolve_feeder(feeders.drop_first(), wallet)
    }
}

/// The sum of the amounts of all donations addressed to `feeder_id`.
pub open spec fn donation_total(donations: Seq<Donation>, feeder_id: u64) -> int
    decreases donations.len(),
{
    if donations.len() == 0 {
        0
    } else {
        donation_total(donations.drop_last(), feeder_id) + if donations.last().feeder_id
            == feeder_id {
            donations.last().amount as int
        } else {
            0
        }
    }
}

/// The sum of the amounts of all expenses recorded by `feeder_id`.
pub open spec fn expense_total(expenses: Seq<ExpenseRecord>, feeder_id: u64) -> int
    decreases expenses.len(),
{
    if expenses.len() == 0 {
        0
    } else {
        expense_total(expenses.drop_last(), feeder_id) + if expenses.last().feeder_id == feeder_id {
            expenses.last().amount as int
        } else {
            0
        }
    }
}

/// How many animals the expenses of `feeder_id` with the given category have
/// benefited: the sum of the lengths of their `dogs_affected` lists.
pub open spec fn expense_animal_count(
    expenses: Seq<ExpenseRecord>,
    feeder_id: u64,
    category: ExpenseCategory,
) -> int
    decreases expenses.len(),
{
    if expenses.len() == 0 {
        0
    } else {
        expense_animal_count(expenses.drop_last(), feeder_id, category) + if expenses.last().feeder_id
            == feeder_id && expenses.last().category == category {
            expenses.last().dogs_affected@.len() as int
        } else {
            0
        }
    }
}

/// How many treatment records `feeder_id` has created.
pub open spec fn treatment_count(treatments: Seq<TreatmentRecord>, feeder_id: u64) -> int
    decreases treatments.len(),
{
    if treatments.len() == 0 {
        0
    } else {
        treatment_count(treatments.drop_last(), feeder_id) + if treatments.last().feeder_id
            == feeder_id {
            1int
        } else {
            0int
        }
    }
}

/// How many dogs are registered under `feeder_id`.
pub open spec fn dogs_of_feeder(dogs: Seq<DogProfile>, feeder_id: u64) -> int
    decreases dogs.len(),
{
    if dogs.len() == 0 {
        0
    } else {
        dogs_of_feeder(dogs.drop_last(), feeder_id) + if dogs.last().feeder_id == feeder_id {
            1int
        } else {
            0int
        }
    }
}

/// The counter that a statistic tag selects.
pub open spec fn stat_value(stats: ActivityStats, tag: StatTag) -> u64 {
    match tag {
        StatTag::Fed => stats.dogs_fed,
        StatTag::Vaccinated => stats.dogs_vaccinated,
        StatTag::Spayed => stats.dogs_spayed,
        StatTag::Neutered => stats.dogs_neutered,
        StatTag::Treated => stats.dogs_treated,
        StatTag::Rescued => stats.dogs_rescued,
        StatTag::Adopted => stats.dogs_adopted,
    }
}

/// The statistics record after adding `count` to the counter that `tag`
/// selects and stamping the update time.
pub open spec fn bumped_stats(stats: ActivityStats, tag: StatTag, count: u64, now: u64) -> ActivityStats {
    let stamped = ActivityStats { last_updated: now, ..stats };
    match tag {
        StatTag::Fed => ActivityStats { dogs_fed: (stats.dogs_fed + count) as u64, ..stamped },
        StatTag::Vaccinated => ActivityStats {
            dogs_vaccinated: (stats.dogs_vaccinated + count) as u64,
            ..stamped
        },
        StatTag::Spayed => ActivityStats { dogs_spayed: (stats.dogs_spayed + count) as u64, ..stamped },
        StatTag::Neutered => ActivityStats {
            dogs_neutered: (stats.dogs_neutered + count) as u64,
            ..stamped
        },
        StatTag::Treated => ActivityStats { dogs_treated: (stats.dogs_treated + count) as u64, ..stamped },
        StatTag::Rescued => ActivityStats { dogs_rescued: (stats.dogs_rescued + count) as u64, ..stamped },
        StatTag::Adopted => ActivityStats { dogs_adopted: (stats.dogs_adopted + count) as u64, ..stamped },
    }
}

/// The statistic tag that an expense category drives, if any.
pub open spec fn stat_tag_of_category(category: ExpenseCategory) -> Option<StatTag> {
    match category {
        ExpenseCategory::Food => Some(StatTag::Fed),
        ExpenseCategory::Vaccination => Some(StatTag::Vaccinated),
        ExpenseCategory::Spaying => Some(StatTag::Spayed),
        ExpenseCategory::Neutering => Some(StatTag::Neutered),
        ExpenseCategory::Treatment => Some(StatTag::Treated),
        ExpenseCategory::Other => None,
    }
}

/// Resolution never invents an id: it returns 0 or the `feeder_id` of some
/// feeder whose wallet matches.
pub proof fn lemma_resolve_valid(feeders: Seq<FeederProfile>, wallet: u64)
    ensures
        resolve_feeder(feeders, wallet) == 0 || exists|i: int|
            0 <= i < feeders.len() && (#[trigger] feeders[i]).wallet_address == wallet
                && feeders[i].feeder_id == resolve_feeder(feeders, wallet),
    decreases feeders.len(),
{
    if feeders.len() > 0 && feeders.first().wallet_address != wallet {
        lemma_resolve_valid(feeders.drop_first(), wallet);
        let r = resolve_feeder(feeders, wallet);
        if r != 0 {
            let j = choose|j: int|
                0 <= j < feeders.drop_first().len() && (#[trigger] feeders.drop_first()[j]).wallet_address
                    == wallet && feeders.drop_first()[j].feeder_id == r;
            assert(feeders[j + 1] == feeders.drop_first()[j]);
        }
    }
}

/// The donation sum after appending one donation.
pub proof fn lemma_donation_total_push(donations: Seq<Donation>, d: Donation, feeder_id: u64)
    ensures
        donation_total(donations.push(d), feeder_id) == donation_total(donations, feeder_id) + if d.feeder_id
            == feeder_id {
            d.amount as int
        } else {
            0
        },
{
    assert(donations.push(d).drop_last() =~= donations);
    assert(donations.push(d).last() == d);
}

/// The expense sum after appending one expense.
pub proof fn lemma_expense_total_push(expenses: Seq<ExpenseRecord>, e: ExpenseRecord, feeder_id: u64)
    ensures
        expense_total(expenses.push(e), feeder_id) == expense_total(expenses, feeder_id) + if e.feeder_id
            == feeder_id {
            e.amount as int
        } else {
            0
        },
{
    assert(expenses.push(e).drop_last() =~= expenses);
    assert(expenses.push(e).last() == e);
}

/// The per-category animal count after appending one expense.
pub proof fn lemma_expense_animal_count_push(
    expenses: Seq<ExpenseRecord>,
    e: ExpenseRecord,
    feeder_id: u64,
    category: ExpenseCategory,
)
    ensures
        expense_animal_count(expenses.push(e), feeder_id, category) == expense_animal_count(
            expenses,
            feeder_id,
            category,
        ) + if e.feeder_id == feeder_id && e.category == category {
            e.dogs_affected@.len() as int
        } else {
            0
        },
{
    assert(expenses.push(e).drop_last() =~= expenses);
    assert(expenses.push(e).last() == e);
}

/// The treatment count after appending one treatment.
pub proof fn lemma_treatment_count_push(
    treatments: Seq<TreatmentRecord>,
    t: TreatmentRecord,
    feeder_id: u64,
)
    ensures
        treatment_count(treatments.push(t), feeder_id) == treatment_count(treatments, feeder_id)
            + if t.feeder_id == feeder_id {
            1int
        } else {
            0int
        },
{
    assert(treatments.push(t).drop_last() =~= treatments);
    assert(treatments.push(t).last() == t);
}

/// The dog count after appending one dog.
pub proof fn lemma_dogs_of_feeder_push(dogs: Seq<DogProfile>, d: DogProfile, feeder_id: u64)
    ensures
        dogs_of_feeder(dogs.push(d), feeder_id) == dogs_of_feeder(dogs, feeder_id) + if d.feeder_id
            == feeder_id {
            1int
        } else {
            0int
        },
{
    assert(dogs.push(d).drop_last() =~= dogs);
    assert(dogs.push(d).last() == d);
}

/// Replacing a dog with one owned by the same feeder leaves every feeder's
/// dog count unchanged.
pub proof fn lemma_dogs_of_feeder_update(dogs: Seq<DogProfile>, j: int, d: DogProfile, feeder_id: u64)
    requires
        0 <= j < dogs.len(),
        d.feeder_id == dogs[j].feeder_id,
    ensures
        dogs_of_feeder(dogs.update(j, d), feeder_id) == dogs_of_feeder(dogs, feeder_id),
    decreases dogs.len(),
{
    if j == dogs.len() - 1 {
        assert(dogs.update(j, d).drop_last() =~= dogs.drop_last());
        assert(dogs.update(j, d).last() == d);
    } else {
        assert(dogs.update(j, d).drop_last() =~= dogs.drop_last().update(j, d));
        assert(dogs.update(j, d).last() == dogs.last());
        lemma_dogs_of_feeder_update(dogs.drop_last(), j, d, feeder_id);
    }
}

/// A feeder no donation references has donation sum 0.
pub proof fn lemma_donation_total_absent(donations: Seq<Donation>, feeder_id: u64)
    requires
        forall|i: int| 0 <= i < donations.len() ==> (#[trigger] donations[i]).feeder_id != feeder_id,
    ensures
        donation_total(donations, feeder_id) == 0,
    decreases donations.len(),
{
    if donations.len() > 0 {
        assert(forall|i: int|
            0 <= i < donations.drop_last().len() ==> (#[trigger] donations.drop_last()[i]).feeder_id
                != feeder_id);
        lemma_donation_total_absent(donations.drop_last(), feeder_id);
    }
}

/// A feeder no expense references has expense sum 0.
pub proof fn lemma_expense_total_absent(expenses: Seq<ExpenseRecord>, feeder_id: u64)
    requires
        forall|i: int| 0 <= i < expenses.len() ==> (#[trigger] expenses[i]).feeder_id != feeder_id,
    ensures
        expense_total(expenses, feeder_id) == 0,
    decreases expenses.len(),
{
    if expenses.len() > 0 {
        assert(forall|i: int|
            0 <= i < expenses.drop_last().len() ==> (#[trigger] expenses.drop_last()[i]).feeder_id
                != feeder_id);
        lemma_expense_total_absent(expenses.drop_last(), feeder_id);
    }
}

/// A feeder no expense references has animal count 0 in every category.
pub proof fn lemma_expense_animal_count_absent(
    expenses: Seq<ExpenseRecord>,
    feeder_id: u64,
    category: ExpenseCategory,
)
    requires
        forall|i: int| 0 <= i < expenses.len() ==> (#[trigger] expenses[i]).feeder_id != feeder_id,
    ensures
        expense_animal_count(expenses, feeder_id, category) == 0,
    decreases expenses.len(),
{
    if expenses.len() > 0 {
        assert(forall|i: int|
            0 <= i < expenses.drop_last().len() ==> (#[trigger] expenses.drop_last()[i]).feeder_id
                != feeder_id);
        lemma_expense_animal_count_absent(expenses.drop_last(), feeder_id, category);
    }
}

/// A feeder no treatment references has treatment count 0.
pub proof fn lemma_treatment_count_absent(treatments: Seq<TreatmentRecord>, feeder_id: u64)
    requires
        forall|i: int|
            0 <= i < treatments.len() ==> (#[trigger] treatments[i]).feeder_id != feeder_id,
    ensures
        treatment_count(treatments, feeder_id) == 0,
    decreases treatments.len(),
{
    if treatments.len() > 0 {
        assert(forall|i: int|
            0 <= i < treatments.drop_last().len() ==> (#[trigger] treatments.drop_last()[i]).feeder_id
                != feeder_id);
        lemma_treatment_count_absent(treatments.drop_last(), feeder_id);
    }
}

/// A feeder no dog references has dog count 0.
pub proof fn lemma_dogs_of_feeder_absent(dogs: Seq<DogProfile>, feeder_id: u64)
    requires
        forall|i: int| 0 <= i < dogs.len() ==> (#[trigger] dogs[i]).feeder_id != feeder_id,
    ensures
        dogs_of_feeder(dogs, feeder_id) == 0,
    decreases dogs.len(),
{
    if dogs.len() > 0 {
        assert(forall|i: int|
            0 <= i < dogs.drop_last().len() ==> (#[trigger] dogs.drop_last()[i]).feeder_id
                != feeder_id);
        lemma_dogs_of_feeder_absent(dogs.drop_last(), feeder_id);
    }
}

} // verus!
