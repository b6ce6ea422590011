//! The statistics aggregator: applies a tagged increment to a feeder's
//! running activity counters. The record must exist — it is created
//! atomically with its feeder, so its absence would be an invariant
//! violation, not a user error; callers establish the index bound.

use vstd::prelude::*;

use crate::model::{bumped_stats, stat_value};
use crate::state::PawChainContract;
use crate::types::StatTag;

verus! {

impl PawChainContract {
    /// Adds `count` to the counter `stat_type` selects in the statistics
    /// record of `feeder_id` and stamps the update time. No other record,
    /// registry or singleton changes.
    pub(crate) fn increment_stat_by(
        &mut self,
        feeder_id: u64,
        stat_type: StatTag,
        count: u64,
        now: u64,
    )
        requires
            1 <= feeder_id <= old(self).stats@.len(),
            stat_value(old(self).stats@[feeder_id - 1], stat_type) + count <= u64::MAX,
        ensures
            final(self).stats@ == old(self).stats@.update(
                feeder_id - 1,
                bumped_stats(old(self).stats@[feeder_id - 1], stat_type, count, now),
            ),
            final(self).feeders == old(self).feeders,
            final(self).dogs == old(self).dogs,
            final(self).donations == old(self).donations,
            final(self).expenses == old(self).expenses,
            final(self).treatments == old(self).treatments,
            final(self).admin == old(self).admin,
            final(self).token == old(self).token,
    {
        let n = self.stats.len();
        let idx = (feeder_id - 1) as usize;
        let stats = &mut self.stats[idx];
        match stat_type {
            StatTag::Fed => {
                stats.dogs_fed = stats.dogs_fed + count;
            },
            StatTag::Vaccinated => {
                stats.dogs_vaccinated = stats.dogs_vaccinated + count;
            },
            StatTag::Spayed => {
                stats.dogs_spayed = stats.dogs_spayed + count;
            },
            StatTag::Neutered => {
                stats.dogs_neutered = stats.dogs_neutered + count;
            },
            StatTag::Treated => {
                stats.dogs_treated = stats.dogs_treated + count;
            },
            StatTag::Rescued => {
                stats.dogs_rescued = stats.dogs_rescued + count;
            },
            StatTag::Adopted => {
                stats.dogs_adopted = stats.dogs_adopted + count;
            },
        }
        stats.last_updated = now;
        proof {
            assert(self.stats@[feeder_id - 1] =~= bumped_stats(
                old(self).stats@[feeder_id - 1],
                stat_type,
                count,
                now,
            ));
            assert(self.stats@ =~= old(self).stats@.update(
                feeder_id - 1,
                bumped_stats(old(self).stats@[feeder_id - 1], stat_type, count, now),
            ));
        }
    }

    /// Adds one to the counter `stat_type` selects; see `increment_stat_by`.
    pub(crate) fn increment_stat(&mut self, feeder_id: u64, stat_type: StatTag, now: u64)
        requires
            1 <= feeder_id <= old(self).stats@.len(),
            stat_value(old(self).stats@[feeder_id - 1], stat_type) + 1 <= u64::MAX,
        ensures
            final(self).stats@ == old(self).stats@.update(
                feeder_id - 1,
                bumped_stats(old(self).stats@[feeder_id - 1], stat_type, 1, now),
            ),
            final(self).feeders == old(self).feeders,
            final(self).dogs == old(self).dogs,
            final(self).donations == old(self).donations,
            final(self).expenses == old(self).expenses,
            final(self).treatments == old(self).treatments,
            final(self).admin == old(self).admin,
            final(self).token == old(self).token,
    {
        self.increment_stat_by(feeder_id, stat_type, 1, now);
    }
}

} // verus!
