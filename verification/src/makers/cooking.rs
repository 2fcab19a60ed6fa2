use vstd::prelude::*;

use vstd::string::StringExecFns;

use crate::cache::Cache;
use crate::error::MarketError;
use crate::makers::{
    compose_plan, high_result, item_result, lemma_mul_le, limit_result, low_result, Maker,
};
use crate::report::{entries_view, entry_of, EntrySpec, Report, ReportEntry};
use crate::table::{LIMIT_CAP, PRICE_CAP};

verus! {

/// Cooking raw fish: buy raw low, sell cooked high, one entry per dish.
pub struct Cooking;

/// The raw/cooked id pairs this strategy works through, in order.
pub open spec fn cooking_pairs() -> Seq<(u64, u64)> {
    seq![
        (377u64, 379u64),
        (371u64, 373u64),
        (7944u64, 7946u64),
        (383u64, 385u64),
        (3142u64, 3144u64),
        (389u64, 391u64),
    ]
}

/// One dish's entry: cooked sold high against raw bought low, scaled by
/// the raw fish's buy limit; or the first thing the snapshot cannot
/// supply for the pair.
pub open spec fn cook_step(c: Cache, pair: (u64, u64)) -> Result<Seq<EntrySpec>, MarketError> {
    match item_result(c, pair.0) {
        Err(e) => Err(e),
        Ok(_) => match item_result(c, pair.1) {
            Err(e) => Err(e),
            Ok(cooked) => match limit_result(c, pair.0) {
                Err(e) => Err(e),
                Ok(limit) => match low_result(c, pair.0) {
                    Err(e) => Err(e),
                    Ok(lo) => match high_result(c, pair.1) {
                        Err(e) => Err(e),
                        Ok(hi) => Ok(
                            seq![
                                entry_of(
                                    "Cooking "@ + cooked.name@,
                                    hi * limit,
                                    lo * limit,
                                    limit as int,
                                    c.volume_at(pair.1) as int,
                                ),
                            ],
                        ),
                    },
                },
            },
        },
    }
}

/// What the dishes from index `i` on still owe.
pub open spec fn cooking_plan_from(c: Cache, i: int) -> Result<Seq<EntrySpec>, MarketError>
    decreases cooking_pairs().len() - i,
    when 0 <= i <= cooking_pairs().len()
{
    if i >= cooking_pairs().len() {
        Ok(Seq::empty())
    } else {
        match cook_step(c, cooking_pairs()[i]) {
            Err(e) => Err(e),
            Ok(head) => match cooking_plan_from(c, i + 1) {
                Err(e) => Err(e),
                Ok(rest) => Ok(head + rest),
            },
        }
    }
}

/// Everything this strategy owes.
pub open spec fn cooking_plan(c: Cache) -> Result<Seq<EntrySpec>, MarketError> {
    cooking_plan_from(c, 0)
}

impl Maker for Cooking {
    fn run(cache: &Cache) -> (r: Result<Report, MarketError>)
        ensures
            r matches Ok(v) ==> cooking_plan(*cache) == Ok::<_, MarketError>(entries_view(v@)),
            r matches Err(e) ==> cooking_plan(*cache) == Err::<Seq<EntrySpec>, _>(e),
    {
        let pairs: Vec<(u64, u64)> = vec![
            (377, 379),
            (371, 373),
            (7944, 7946),
            (383, 385),
            (3142, 3144),
            (389, 391),
        ];
        proof {
            assert(pairs@ =~= cooking_pairs());
        }
        let mut report: Report = Vec::new();
        let mut i: usize = 0;
        proof {
            assert(entries_view(report@) =~= Seq::<EntrySpec>::empty());
        }
        while i < pairs.len()
            invariant
                cache.wf(),
                pairs@ == cooking_pairs(),
                i <= pairs@.len(),
                cooking_plan(*cache) == compose_plan(
                    entries_view(report@),
                    cooking_plan_from(*cache, i as int),
                ),
                forall|k: int|
                    0 <= k < report@.len() ==> (#[trigger] report@[k]@).profit == report@[k]@.gross
                        - report@[k]@.cost,
            decreases pairs@.len() - i,
        {
            let raw_id = pairs[i].0;
            let cooked_id = pairs[i].1;

            let raw = match cache.get(raw_id) {
                Ok(v) => v,
                Err(e) => return Err(e),
            };
            let cooked = match cache.get(cooked_id) {
                Ok(v) => v,
                Err(e) => return Err(e),
            };
            let limit = match raw.item.limit {
                Some(l) => l,
                None => return Err(MarketError::MissingLimit(raw_id)),
            };
            let lo = match raw.low() {
                Ok(v) => v,
                Err(e) => return Err(e),
            };
            let hi = match cooked.high() {
                Ok(v) => v,
                Err(e) => return Err(e),
            };

            proof {
                lemma_mul_le(lo as int, limit as int, PRICE_CAP as int, LIMIT_CAP as int);
                lemma_mul_le(hi as int, limit as int, PRICE_CAP as int, LIMIT_CAP as int);
            }
            let cost = lo * limit;
            let gross = hi * limit;

            let mut name = "Cooking ".to_owned();
            name.append(cooked.item.name.as_str());
            let entry = ReportEntry::new(name.as_str(), gross, cost, limit, cooked.volume);

            let ghost prev = entries_view(report@);
            report.push(entry);
            proof {
                assert(entries_view(report@) =~= prev + seq![entry@]);
                assert(cook_step(*cache, cooking_pairs()[i as int]) == Ok::<_, MarketError>(
                    seq![entry@],
                ));
                match cooking_plan_from(*cache, i as int + 1) {
                    Err(_) => {},
                    Ok(rest) => {
                        assert(prev + (seq![entry@] + rest) =~= entries_view(report@) + rest);
                    },
                }
            }
            i += 1;
        }
        proof {
            assert(entries_view(report@) + Seq::<EntrySpec>::empty() =~= entries_view(report@));
        }
        Ok(report)
    }
}

} // verus!
