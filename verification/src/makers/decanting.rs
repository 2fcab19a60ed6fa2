use vstd::prelude::*;

use crate::cache::Cache;
use crate::error::MarketError;
use crate::makers::{
    compose_plan, high_result, item_result, lemma_mul_le, limit_result, low_result, Maker,
};
use crate::report::{entries_view, entry_of, EntrySpec, Report, ReportEntry};
use crate::table::{LIMIT_CAP, PRICE_CAP};

verus! {

/// Decanting potions: buy three-dose low, combine, sell four-dose high.
pub struct Decanting;

/// The three-dose/four-dose id pairs this strategy works through.
pub open spec fn potion_pairs() -> Seq<(u64, u64)> {
    seq![
        (3034u64, 3032u64),
        (2454u64, 2452u64),
        (121u64, 2428u64),
        (22464u64, 22461u64),
        (22452u64, 22449u64),
        (9741u64, 9739u64),
        (6472u64, 6470u64),
        (133u64, 2432u64),
        (24638u64, 24635u64),
        (24626u64, 24623u64),
        (23748u64, 23745u64),
        (23736u64, 23733u64),
        (23700u64, 23697u64),
        (23688u64, 23685u64),
        (23724u64, 23721u64),
        (23712u64, 23709u64),
        (3010u64, 3008u64),
        (151u64, 2438u64),
        (10000u64, 9998u64),
        (3042u64, 3040u64),
        (139u64, 2434u64),
        (169u64, 2444u64),
        (127u64, 2430u64),
        (12627u64, 12625u64),
        (115u64, 113u64),
        (21981u64, 21978u64),
        (12697u64, 12695u64),
    ]
}

/// One potion's entry: four-dose sold high on three quarters of the
/// limit against three-dose bought low on the whole limit — kept only
/// when the four-dose form moves more than a hundred thousand units.
pub open spec fn decant_step(c: Cache, pair: (u64, u64)) -> Result<Seq<EntrySpec>, MarketError> {
    match item_result(c, pair.0) {
        Err(e) => Err(e),
        Ok(three) => match item_result(c, pair.1) {
            Err(e) => Err(e),
            Ok(_) => match limit_result(c, pair.0) {
                Err(e) => Err(e),
                Ok(limit) => match low_result(c, pair.0) {
                    Err(e) => Err(e),
                    Ok(lo) => match high_result(c, pair.1) {
                        Err(e) => Err(e),
                        Ok(hi) => if c.volume_at(pair.1) > 100000 {
                            Ok(
                                seq![
                                    entry_of(
                                        three.name@,
                                        hi * ((limit * 3) / 4),
                                        lo * limit,
                                        limit as int,
                                        c.volume_at(pair.1) as int,
                                    ),
                                ],
                            )
                        } else {
                            Ok(Seq::empty())
                        },
                    },
                },
            },
        },
    }
}

/// What the potions from index `i` on still owe.
pub open spec fn decanting_plan_from(c: Cache, i: int) -> Result<Seq<EntrySpec>, MarketError>
    decreases potion_pairs().len() - i,
    when 0 <= i <= potion_pairs().len()
{
    if i >= potion_pairs().len() {
        Ok(Seq::empty())
    } else {
        match decant_step(c, potion_pairs()[i]) {
            Err(e) => Err(e),
            Ok(head) => match decanting_plan_from(c, i + 1) {
                Err(e) => Err(e),
                Ok(rest) => Ok(head + rest),
            },
        }
    }
}

/// Everything this strategy owes.
pub open spec fn decanting_plan(c: Cache) -> Result<Seq<EntrySpec>, MarketError> {
    decanting_plan_from(c, 0)
}

impl Maker for Decanting {
    fn run(cache: &Cache) -> (r: Result<Report, MarketError>)
        ensures
            r matches Ok(v) ==> decanting_plan(*cache) == Ok::<_, MarketError>(entries_view(v@)),
            r matches Err(e) ==> decanting_plan(*cache) == Err::<Seq<EntrySpec>, _>(e),
    {
        let pairs: Vec<(u64, u64)> = vec![
            (3034, 3032),
            (2454, 2452),
            (121, 2428),
            (22464, 22461),
            (22452, 22449),
            (9741, 9739),
            (6472, 6470),
            (133, 2432),
            (24638, 24635),
            (24626, 24623),
            (23748, 23745),
            (23736, 23733),
            (23700, 23697),
            (23688, 23685),
            (23724, 23721),
            (23712, 23709),
            (3010, 3008),
            (151, 2438),
            (10000, 9998),
            (3042, 3040),
            (139, 2434),
            (169, 2444),
            (127, 2430),
            (12627, 12625),
            (115, 113),
            (21981, 21978),
            (12697, 12695),
        ];
        proof {
            assert(pairs@ =~= potion_pairs());
        }
        let mut report: Report = Vec::new();
        let mut i: usize = 0;
        proof {
            assert(entries_view(report@) =~= Seq::<EntrySpec>::empty());
        }
        while i < pairs.len()
            invariant
                cache.wf(),
                pairs@ == potion_pairs(),
                i <= pairs@.len(),
                decanting_plan(*cache) == compose_plan(
                    entries_view(report@),
                    decanting_plan_from(*cache, i as int),
                ),
                forall|k: int|
                    0 <= k < report@.len() ==> (#[trigger] report@[k]@).profit == report@[k]@.gross
                        - report@[k]@.cost,
            decreases pairs@.len() - i,
        {
            let id_3 = pairs[i].0;
            let id_4 = pairs[i].1;

            let item_3 = match cache.get(id_3) {
                Ok(v) => v,
                Err(e) => return Err(e),
            };
            let item_4 = match cache.get(id_4) {
                Ok(v) => v,
                Err(e) => return Err(e),
            };
            let limit = match item_3.item.limit {
                Some(l) => l,
                None => return Err(MarketError::MissingLimit(id_3)),
            };
            let lo = match item_3.low() {
                Ok(v) => v,
                Err(e) => return Err(e),
            };
            let hi = match item_4.high() {
                Ok(v) => v,
                Err(e) => return Err(e),
            };

            let decant_total = (limit * 3) / 4;
            proof {
                lemma_mul_le(lo as int, limit as int, PRICE_CAP as int, LIMIT_CAP as int);
                lemma_mul_le(hi as int, decant_total as int, PRICE_CAP as int, LIMIT_CAP as int);
            }
            let cost = lo * limit;
            let gross = hi * decant_total;

            let ghost prev = entries_view(report@);
            if item_4.volume > 100000 {
                let entry = ReportEntry::new(
                    item_3.item.name.as_str(),
                    gross,
                    cost,
                    limit,
                    item_4.volume,
                );
                report.push(entry);
                proof {
                    assert(entries_view(report@) =~= prev + seq![entry@]);
                    assert(decant_step(*cache, potion_pairs()[i as int]) == Ok::<_, MarketError>(
                        seq![entry@],
                    ));
                }
            } else {
                proof {
                    assert(decant_step(*cache, potion_pairs()[i as int]) == Ok::<_, MarketError>(
                        Seq::<EntrySpec>::empty(),
                    ));
                    assert(prev + Seq::<EntrySpec>::empty() =~= prev);
                }
            }
            proof {
                match decanting_plan_from(*cache, i as int + 1) {
                    Err(_) => {},
                    Ok(rest) => {
                        let head = decant_step(*cache, potion_pairs()[i as int])->Ok_0;
                        assert(prev + (head + rest) =~= (prev + head) + rest);
                        assert(prev + head =~= entries_view(report@));
                    },
                }
            }
            i += 1;
        }
        proof {
            assert(entries_view(report@) + Seq::<EntrySpec>::empty() =~= entries_view(report@));
        }
        Ok(report)
    }
}

} // verus!
