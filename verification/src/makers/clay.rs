use vstd::prelude::*;

use crate::cache::Cache;
use crate::error::MarketError;
use crate::id::{ID_ASTRAL_RUNE, ID_CLAY, ID_SOFT_CLAY};
use crate::makers::{
    avg_result, high_result, item_result, lemma_mul_le, limit_result, low_result, Maker,
};
use crate::report::{entries_view, entry_of, EntrySpec, Report, ReportEntry};
use crate::table::{LIMIT_CAP, PRICE_CAP};

verus! {

/// Softening clay with a spellbook swap: buy clay low, cast, sell soft
/// clay high.
pub struct Clay;

/// The one entry this strategy owes: soft clay sold high against clay
/// bought low plus the casts' rune cost, scaled by clay's buy limit;
/// or the first thing the snapshot cannot supply.
pub open spec fn clay_plan(c: Cache) -> Result<Seq<EntrySpec>, MarketError> {
    match item_result(c, ID_CLAY) {
        Err(e) => Err(e),
        Ok(_) => match item_result(c, ID_SOFT_CLAY) {
            Err(e) => Err(e),
            Ok(soft) => match item_result(c, ID_ASTRAL_RUNE) {
                Err(e) => Err(e),
                Ok(_) => match limit_result(c, ID_CLAY) {
                    Err(e) => Err(e),
                    Ok(limit) => match avg_result(c, ID_ASTRAL_RUNE) {
                        Err(e) => Err(e),
                        Ok(astral) => match low_result(c, ID_CLAY) {
                            Err(e) => Err(e),
                            Ok(lo) => match high_result(c, ID_SOFT_CLAY) {
                                Err(e) => Err(e),
                                Ok(hi) => Ok(
                                    seq![
                                        entry_of(
                                            soft.name@,
                                            hi * limit,
                                            lo * limit + astral * ((limit / 27) + 1),
                                            limit as int,
                                            c.volume_at(ID_SOFT_CLAY) as int,
                                        ),
                                    ],
                                ),
                            },
                        },
                    },
                },
            },
        },
    }
}

impl Maker for Clay {
    fn run(cache: &Cache) -> (r: Result<Report, MarketError>)
        ensures
            r matches Ok(v) ==> clay_plan(*cache) == Ok::<_, MarketError>(entries_view(v@)),
            r matches Err(e) ==> clay_plan(*cache) == Err::<Seq<EntrySpec>, _>(e),
    {
        let mut report: Report = Vec::new();

        let clay = match cache.get(ID_CLAY) {
            Ok(v) => v,
            Err(e) => return Err(e),
        };
        let soft_clay = match cache.get(ID_SOFT_CLAY) {
            Ok(v) => v,
            Err(e) => return Err(e),
        };
        let astral = match cache.get(ID_ASTRAL_RUNE) {
            Ok(v) => v,
            Err(e) => return Err(e),
        };

        let limit = match clay.item.limit {
            Some(l) => l,
            None => return Err(MarketError::MissingLimit(ID_CLAY)),
        };
        let astral_avg = match astral.avg() {
            Ok(v) => v,
            Err(e) => return Err(e),
        };
        let lo = match clay.low() {
            Ok(v) => v,
            Err(e) => return Err(e),
        };
        let hi = match soft_clay.high() {
            Ok(v) => v,
            Err(e) => return Err(e),
        };

        proof {
            lemma_mul_le(lo as int, limit as int, PRICE_CAP as int, LIMIT_CAP as int);
            lemma_mul_le(
                astral_avg as int,
                limit as int / 27 + 1,
                PRICE_CAP as int,
                LIMIT_CAP as int / 27 + 1,
            );
            lemma_mul_le(hi as int, limit as int, PRICE_CAP as int, LIMIT_CAP as int);
        }
        let cast_cost = astral_avg * (limit / 27 + 1);
        let cost = lo * limit + cast_cost;
        let gross = hi * limit;

        let entry = ReportEntry::new(
            soft_clay.item.name.as_str(),
            gross,
            cost,
            limit,
            soft_clay.volume,
        );
        report.push(entry);
        proof {
            assert(entries_view(report@) =~= seq![entry@]);
        }
        Ok(report)
    }
}

} // verus!
