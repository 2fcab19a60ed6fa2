use vstd::prelude::*;

use crate::cache::Cache;
use crate::error::MarketError;
use crate::id::{
    ID_ASTRAL_RUNE, ID_BLACK_DRAGONHIDE, ID_BLACK_DRAGON_LEATHER, ID_NATURE_RUNE,
    ID_RED_DRAGONHIDE, ID_RED_DRAGON_LEATHER,
};
use crate::makers::{avg_result, high_result, item_result, lemma_mul_le, low_result, Maker};
use crate::report::{entries_view, entry_of, EntrySpec, Report, ReportEntry};
use crate::table::PRICE_CAP;

verus! {

/// Tanning dragonhide with a spellbook swap: buy hides low, cast, sell
/// leather high, three thousand at a time.
pub struct Leather;

/// How many hides one run works through; the recipe is not bounded by
/// a buy limit but by this fixed batch.
pub const LEATHER_BATCH: u64 = 3000;

/// One hide's entry: leather sold high against hides bought low plus
/// the casts' rune cost; or the first thing the snapshot cannot supply.
pub open spec fn leather_variant(c: Cache, hide: u64, leather: u64, cast_cost: int) -> Result<
    Seq<EntrySpec>,
    MarketError,
> {
    match item_result(c, hide) {
        Err(e) => Err(e),
        Ok(_) => match item_result(c, leather) {
            Err(e) => Err(e),
            Ok(leather_it) => match low_result(c, hide) {
                Err(e) => Err(e),
                Ok(lo) => match high_result(c, leather) {
                    Err(e) => Err(e),
                    Ok(hi) => Ok(
                        seq![
                            entry_of(
                                leather_it.name@,
                                hi * LEATHER_BATCH,
                                lo * LEATHER_BATCH + cast_cost,
                                LEATHER_BATCH as int,
                                c.volume_at(leather) as int,
                            ),
                        ],
                    ),
                },
            },
        },
    }
}

/// Everything this strategy owes: the rune outlay priced first, then
/// black and red dragonhide in turn.
pub open spec fn leather_plan(c: Cache) -> Result<Seq<EntrySpec>, MarketError> {
    match item_result(c, ID_ASTRAL_RUNE) {
        Err(e) => Err(e),
        Ok(_) => match item_result(c, ID_NATURE_RUNE) {
            Err(e) => Err(e),
            Ok(_) => match avg_result(c, ID_ASTRAL_RUNE) {
                Err(e) => Err(e),
                Ok(astral) => match avg_result(c, ID_NATURE_RUNE) {
                    Err(e) => Err(e),
                    Ok(nature) => {
                        let cast_cost = (astral * 2 + nature) * ((LEATHER_BATCH / 5) as int);
                        match leather_variant(
                            c,
                            ID_BLACK_DRAGONHIDE,
                            ID_BLACK_DRAGON_LEATHER,
                            cast_cost,
                        ) {
                            Err(e) => Err(e),
                            Ok(v1) => match leather_variant(
                                c,
                                ID_RED_DRAGONHIDE,
                                ID_RED_DRAGON_LEATHER,
                                cast_cost,
                            ) {
                                Err(e) => Err(e),
                                Ok(v2) => Ok(v1 + v2),
                            },
                        }
                    },
                },
            },
        },
    }
}

fn run_variant(cache: &Cache, report: &mut Report, hide_id: u64, leather_id: u64, cast_cost: u64)
    -> (r: Result<(), MarketError>)
    requires
        cache.wf(),
        cast_cost <= 3 * PRICE_CAP * 600,
    ensures
        r matches Ok(_) ==> leather_variant(*cache, hide_id, leather_id, cast_cost as int)
            matches Ok(es) && entries_view(final(report)@) == entries_view(old(report)@) + es,
        r matches Err(e) ==> leather_variant(*cache, hide_id, leather_id, cast_cost as int)
            == Err::<Seq<EntrySpec>, _>(e),
{
    let hide = match cache.get(hide_id) {
        Ok(v) => v,
        Err(e) => return Err(e),
    };
    let leather = match cache.get(leather_id) {
        Ok(v) => v,
        Err(e) => return Err(e),
    };
    let lo = match hide.low() {
        Ok(v) => v,
        Err(e) => return Err(e),
    };
    let hi = match leather.high() {
        Ok(v) => v,
        Err(e) => return Err(e),
    };
    proof {
        lemma_mul_le(lo as int, LEATHER_BATCH as int, PRICE_CAP as int, LEATHER_BATCH as int);
        lemma_mul_le(hi as int, LEATHER_BATCH as int, PRICE_CAP as int, LEATHER_BATCH as int);
    }
    let cost = lo * LEATHER_BATCH + cast_cost;
    let gross = hi * LEATHER_BATCH;
    let entry = ReportEntry::new(
        leather.item.name.as_str(),
        gross,
        cost,
        LEATHER_BATCH,
        leather.volume,
    );
    report.push(entry);
    proof {
        assert(entries_view(report@) =~= entries_view(old(report)@) + seq![entry@]);
    }
    Ok(())
}

impl Maker for Leather {
    fn run(cache: &Cache) -> (r: Result<Report, MarketError>)
        ensures
            r matches Ok(v) ==> leather_plan(*cache) == Ok::<_, MarketError>(entries_view(v@)),
            r matches Err(e) ==> leather_plan(*cache) == Err::<Seq<EntrySpec>, _>(e),
    {
        let mut report: Report = Vec::new();

        let astral = match cache.get(ID_ASTRAL_RUNE) {
            Ok(v) => v,
            Err(e) => return Err(e),
        };
        let nature = match cache.get(ID_NATURE_RUNE) {
            Ok(v) => v,
            Err(e) => return Err(e),
        };
        let astral_avg = match astral.avg() {
            Ok(v) => v,
            Err(e) => return Err(e),
        };
        let nature_avg = match nature.avg() {
            Ok(v) => v,
            Err(e) => return Err(e),
        };
        let rune_cast_cost = astral_avg * 2 + nature_avg;
        let ncasts = LEATHER_BATCH / 5;
        let cast_cost = rune_cast_cost * ncasts;

        proof {
            assert(entries_view(report@) =~= Seq::<EntrySpec>::empty());
        }
        match run_variant(cache, &mut report, ID_BLACK_DRAGONHIDE, ID_BLACK_DRAGON_LEATHER, cast_cost) {
            Ok(_) => {},
            Err(e) => return Err(e),
        };
        let ghost v1 = entries_view(report@);
        match run_variant(cache, &mut report, ID_RED_DRAGONHIDE, ID_RED_DRAGON_LEATHER, cast_cost) {
            Ok(_) => {},
            Err(e) => return Err(e),
        };
        proof {
            let es1 = leather_variant(
                *cache,
                ID_BLACK_DRAGONHIDE,
                ID_BLACK_DRAGON_LEATHER,
                cast_cost as int,
            )->Ok_0;
            let es2 = leather_variant(
                *cache,
                ID_RED_DRAGONHIDE,
                ID_RED_DRAGON_LEATHER,
                cast_cost as int,
            )->Ok_0;
            assert(v1 =~= es1);
            assert(entries_view(report@) =~= es1 + es2);
            assert forall|i: int| 0 <= i < report@.len() implies (#[trigger] report@[i]@).profit
                == report@[i]@.gross - report@[i]@.cost by {
                assert(entries_view(report@)[i] == report@[i]@);
            }
        }
        Ok(report)
    }
}

} // verus!
