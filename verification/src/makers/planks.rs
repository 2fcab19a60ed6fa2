use vstd::prelude::*;

use crate::cache::Cache;
use crate::error::MarketError;
use crate::id::{
    ID_ASTRAL_RUNE, ID_MAHOGANY_LOG, ID_MAHOGANY_PLANK, ID_NATURE_RUNE, ID_TEAK_LOG, ID_TEAK_PLANK,
};
use crate::makers::{avg_result, high_result, item_result, lemma_mul_le, low_result, Maker};
use crate::report::{entries_view, entry_of, EntrySpec, Report, ReportEntry};
use crate::table::PRICE_CAP;

verus! {

/// Making planks with a spellbook swap: buy logs low, cast per log,
/// sell planks high, three thousand at a time.
pub struct Plank;

/// How many logs one run works through.
pub const PLANK_BATCH: u64 = 3000;

/// The sawmill fee the plank-make spell charges per mahogany log.
pub const MAHOGANY_CAST_PRICE: u64 = 1050;

/// The sawmill fee the plank-make spell charges per teak log.
pub const TEAK_CAST_PRICE: u64 = 350;

/// One wood's entry: planks sold high against, per log, the log bought
/// low plus runes plus the sawmill fee; or the first thing the
/// snapshot cannot supply.
pub open spec fn plank_variant(
    c: Cache,
    plank: u64,
    log: u64,
    rune_cast_cost: int,
    log_cast_price: int,
) -> Result<Seq<EntrySpec>, MarketError> {
    match item_result(c, plank) {
        Err(e) => Err(e),
        Ok(plank_it) => match item_result(c, log) {
            Err(e) => Err(e),
            Ok(_) => match low_result(c, log) {
                Err(e) => Err(e),
                Ok(lo) => match high_result(c, plank) {
                    Err(e) => Err(e),
                    Ok(hi) => Ok(
                        seq![
                            entry_of(
                                plank_it.name@,
                                hi * PLANK_BATCH,
                                (rune_cast_cost + lo + log_cast_price) * (PLANK_BATCH as int),
                                PLANK_BATCH as int,
                                c.volume_at(plank) as int,
                            ),
                        ],
                    ),
                },
            },
        },
    }
}

/// Everything this strategy owes: the rune outlay priced first, then
/// mahogany and teak in turn.
pub open spec fn plank_plan(c: Cache) -> Result<Seq<EntrySpec>, MarketError> {
    match item_result(c, ID_ASTRAL_RUNE) {
        Err(e) => Err(e),
        Ok(_) => match item_result(c, ID_NATURE_RUNE) {
            Err(e) => Err(e),
            Ok(_) => match avg_result(c, ID_ASTRAL_RUNE) {
                Err(e) => Err(e),
                Ok(astral) => match avg_result(c, ID_NATURE_RUNE) {
                    Err(e) => Err(e),
                    Ok(nature) => {
                        let rune_cast_cost = astral * 2 + nature;
                        match plank_variant(
                            c,
                            ID_MAHOGANY_PLANK,
                            ID_MAHOGANY_LOG,
                            rune_cast_cost,
                            MAHOGANY_CAST_PRICE as int,
                        ) {
                            Err(e) => Err(e),
                            Ok(v1) => match plank_variant(
                                c,
                                ID_TEAK_PLANK,
                                ID_TEAK_LOG,
                                rune_cast_cost,
                                TEAK_CAST_PRICE as int,
                            ) {
                                Err(e) => Err(e),
                                Ok(v2) => Ok(v1 + v2),
                            },
                        }
                    },
                },
            },
        },
    }
}

fn run_variant(
    cache: &Cache,
    report: &mut Report,
    plank_id: u64,
    log_id: u64,
    rune_cast_cost: u64,
    log_cast_price: u64,
) -> (r: Result<(), MarketError>)
    requires
        cache.wf(),
        rune_cast_cost <= 3 * PRICE_CAP,
        log_cast_price <= 2000,
    ensures
        r matches Ok(_) ==> plank_variant(
            *cache,
            plank_id,
            log_id,
            rune_cast_cost as int,
            log_cast_price as int,
        ) matches Ok(es) && entries_view(final(report)@) == entries_view(old(report)@) + es,
        r matches Err(e) ==> plank_variant(
            *cache,
            plank_id,
            log_id,
            rune_cast_cost as int,
            log_cast_price as int,
        ) == Err::<Seq<EntrySpec>, _>(e),
{
    let plank = match cache.get(plank_id) {
        Ok(v) => v,
        Err(e) => return Err(e),
    };
    let log = match cache.get(log_id) {
        Ok(v) => v,
        Err(e) => return Err(e),
    };
    let lo = match log.low() {
        Ok(v) => v,
        Err(e) => return Err(e),
    };
    let hi = match plank.high() {
        Ok(v) => v,
        Err(e) => return Err(e),
    };
    proof {
        lemma_mul_le(hi as int, PLANK_BATCH as int, PRICE_CAP as int, PLANK_BATCH as int);
    }
    let single_cast_cost = rune_cast_cost + lo + log_cast_price;
    let cost = single_cast_cost * PLANK_BATCH;
    let gross = hi * PLANK_BATCH;
    let entry = ReportEntry::new(
        plank.item.name.as_str(),
        gross,
        cost,
        PLANK_BATCH,
        plank.volume,
    );
    report.push(entry);
    proof {
        assert(entries_view(report@) =~= entries_view(old(report)@) + seq![entry@]);
    }
    Ok(())
}

impl Maker for Plank {
    fn run(cache: &Cache) -> (r: Result<Report, MarketError>)
        ensures
            r matches Ok(v) ==> plank_plan(*cache) == Ok::<_, MarketError>(entries_view(v@)),
            r matches Err(e) ==> plank_plan(*cache) == Err::<Seq<EntrySpec>, _>(e),
    {
        let mut report: Report = Vec::new();

        let astral = match cache.get(ID_ASTRAL_RUNE) {
            Ok(v) => v,
            Err(e) => return Err(e),
        };
        let nature = match cache.get(ID_NATURE_RUNE) {
            Ok(v) => v,
            Err(e) => return Err(e),
        };
        let astral_avg = match astral.avg() {
            Ok(v) => v,
            Err(e) => return Err(e),
        };
        let nature_avg = match nature.avg() {
            Ok(v) => v,
            Err(e) => return Err(e),
        };
        let rune_cast_cost = astral_avg * 2 + nature_avg;

        proof {
            assert(entries_view(report@) =~= Seq::<EntrySpec>::empty());
        }
        match run_variant(
            cache,
            &mut report,
            ID_MAHOGANY_PLANK,
            ID_MAHOGANY_LOG,
            rune_cast_cost,
            MAHOGANY_CAST_PRICE,
        ) {
            Ok(_) => {},
            Err(e) => return Err(e),
        };
        let ghost v1 = entries_view(report@);
        match run_variant(
            cache,
            &mut report,
            ID_TEAK_PLANK,
            ID_TEAK_LOG,
            rune_cast_cost,
            TEAK_CAST_PRICE,
        ) {
            Ok(_) => {},
            Err(e) => return Err(e),
        };
        proof {
            let es1 = plank_variant(
                *cache,
                ID_MAHOGANY_PLANK,
                ID_MAHOGANY_LOG,
                rune_cast_cost as int,
                MAHOGANY_CAST_PRICE as int,
            )->Ok_0;
            let es2 = plank_variant(
                *cache,
                ID_TEAK_PLANK,
                ID_TEAK_LOG,
                rune_cast_cost as int,
                TEAK_CAST_PRICE as int,
            )->Ok_0;
            assert(v1 =~= es1);
            assert(entries_view(report@) =~= es1 + es2);
            assert forall|i: int| 0 <= i < report@.len() implies (#[trigger] report@[i]@).profit
                == report@[i]@.gross - report@[i]@.cost by {
                assert(entries_view(report@)[i] == report@[i]@);
            }
        }
        Ok(report)
    }
}

} // verus!
