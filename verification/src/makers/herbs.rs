use vstd::prelude::*;

use vstd::string::StringExecFns;

use crate::cache::Cache;
use crate::error::MarketError;
use crate::makers::{
    compose_plan, high_result, item_result, lemma_mul_le, limit_result, low_result, Maker,
};
use crate::report::{entries_view, entry_of, EntrySpec, Report, ReportEntry};
use crate::table::{LIMIT_CAP, PRICE_CAP};

verus! {

/// Herb work: cleaning grimy herbs, and brewing unfinished potions
/// from the clean herb.
pub struct Herbs;

/// The grimy herb, clean herb, seed and unfinished-potion ids this
/// strategy works through. The seed is looked up with the others but
/// priced by no entry.
pub open spec fn herb_rows() -> Seq<(u64, u64, u64, u64)> {
    seq![
        (219u64, 269u64, 5304u64, 111u64),
        (213u64, 263u64, 213u64, 105u64),
        (2485u64, 2481u64, 5302u64, 2483u64),
        (207u64, 257u64, 5295u64, 99u64),
        (199u64, 249u64, 5291u64, 91u64),
        (211u64, 261u64, 5298u64, 103u64),
        (3049u64, 2998u64, 5296u64, 3002u64),
        (201u64, 251u64, 5292u64, 93u64),
        (215u64, 265u64, 5301u64, 107u64),
        (205u64, 255u64, 5294u64, 97u64),
        (3051u64, 3000u64, 5300u64, 3004u64),
        (217u64, 267u64, 5303u64, 109u64),
        (209u64, 259u64, 5297u64, 101u64),
        (203u64, 253u64, 5293u64, 95u64),
    ]
}

/// One herb's entries: a cleaning entry, kept only when its profit
/// reaches a million and its outlay stays under twenty million, then
/// the unfinished-potion entry; or the first thing the snapshot cannot
/// supply for the row.
pub open spec fn herb_step(c: Cache, row: (u64, u64, u64, u64)) -> Result<
    Seq<EntrySpec>,
    MarketError,
> {
    match item_result(c, row.0) {
        Err(e) => Err(e),
        Ok(grimy) => match item_result(c, row.1) {
            Err(e) => Err(e),
            Ok(_) => match item_result(c, row.2) {
                Err(e) => Err(e),
                Ok(_) => match item_result(c, row.3) {
                    Err(e) => Err(e),
                    Ok(unf) => match limit_result(c, row.0) {
                        Err(e) => Err(e),
                        Ok(clean_limit) => match low_result(c, row.0) {
                            Err(e) => Err(e),
                            Ok(grimy_lo) => match high_result(c, row.1) {
                                Err(e) => Err(e),
                                Ok(herb_hi) => match limit_result(c, row.3) {
                                    Err(e) => Err(e),
                                    Ok(unf_limit) => match low_result(c, row.1) {
                                        Err(e) => Err(e),
                                        Ok(herb_lo) => match high_result(c, row.3) {
                                            Err(e) => Err(e),
                                            Ok(unf_hi) => {
                                                let clean_gross = herb_hi * clean_limit;
                                                let clean_cost = grimy_lo * clean_limit;
                                                let cleaning = if clean_gross - clean_cost
                                                    >= 1000000 && clean_cost < 20000000 {
                                                    seq![
                                                        entry_of(
                                                            "Cleaning "@ + grimy.name@,
                                                            clean_gross,
                                                            clean_cost,
                                                            clean_limit as int,
                                                            c.volume_at(row.1) as int,
                                                        ),
                                                    ]
                                                } else {
                                                    Seq::<EntrySpec>::empty()
                                                };
                                                Ok(
                                                    cleaning + seq![
                                                        entry_of(
                                                            unf.name@,
                                                            unf_hi * unf_limit,
                                                            herb_lo * unf_limit,
                                                            unf_limit as int,
                                                            c.volume_at(row.1) as int,
                                                        ),
                                                    ],
                                                )
                                            },
                                        },
                                    },
                                },
                            },
                        },
                    },
                },
            },
        },
    }
}

/// What the herbs from index `i` on still owe.
pub open spec fn herbs_plan_from(c: Cache, i: int) -> Result<Seq<EntrySpec>, MarketError>
    decreases herb_rows().len() - i,
    when 0 <= i <= herb_rows().len()
{
    if i >= herb_rows().len() {
        Ok(Seq::empty())
    } else {
        match herb_step(c, herb_rows()[i]) {
            Err(e) => Err(e),
            Ok(head) => match herbs_plan_from(c, i + 1) {
                Err(e) => Err(e),
                Ok(rest) => Ok(head + rest),
            },
        }
    }
}

/// Everything this strategy owes.
pub open spec fn herbs_plan(c: Cache) -> Result<Seq<EntrySpec>, MarketError> {
    herbs_plan_from(c, 0)
}

impl Maker for Herbs {
    fn run(cache: &Cache) -> (r: Result<Report, MarketError>)
        ensures
            r matches Ok(v) ==> herbs_plan(*cache) == Ok::<_, MarketError>(entries_view(v@)),
            r matches Err(e) ==> herbs_plan(*cache) == Err::<Seq<EntrySpec>, _>(e),
    {
        let rows: Vec<(u64, u64, u64, u64)> = vec![
            (219, 269, 5304, 111),
            (213, 263, 213, 105),
            (2485, 2481, 5302, 2483),
            (207, 257, 5295, 99),
            (199, 249, 5291, 91),
            (211, 261, 5298, 103),
            (3049, 2998, 5296, 3002),
            (201, 251, 5292, 93),
            (215, 265, 5301, 107),
            (205, 255, 5294, 97),
            (3051, 3000, 5300, 3004),
            (217, 267, 5303, 109),
            (209, 259, 5297, 101),
            (203, 253, 5293, 95),
        ];
        proof {
            assert(rows@ =~= herb_rows());
        }
        let mut report: Report = Vec::new();
        let mut i: usize = 0;
        proof {
            assert(entries_view(report@) =~= Seq::<EntrySpec>::empty());
        }
        while i < rows.len()
            invariant
                cache.wf(),
                rows@ == herb_rows(),
                i <= rows@.len(),
                herbs_plan(*cache) == compose_plan(
                    entries_view(report@),
                    herbs_plan_from(*cache, i as int),
                ),
                forall|k: int|
                    0 <= k < report@.len() ==> (#[trigger] report@[k]@).profit == report@[k]@.gross
                        - report@[k]@.cost,
            decreases rows@.len() - i,
        {
            let id_grimy = rows[i].0;
            let id_herb = rows[i].1;
            let id_seed = rows[i].2;
            let id_unf = rows[i].3;

            let grimy = match cache.get(id_grimy) {
                Ok(v) => v,
                Err(e) => return Err(e),
            };
            let herb = match cache.get(id_herb) {
                Ok(v) => v,
                Err(e) => return Err(e),
            };
            let _seed = match cache.get(id_seed) {
                Ok(v) => v,
                Err(e) => return Err(e),
            };
            let unf = match cache.get(id_unf) {
                Ok(v) => v,
                Err(e) => return Err(e),
            };

            // Cleaning the grimy herb.
            let clean_limit = match grimy.item.limit {
                Some(l) => l,
                None => return Err(MarketError::MissingLimit(id_grimy)),
            };
            let grimy_lo = match grimy.low() {
                Ok(v) => v,
                Err(e) => return Err(e),
            };
            let herb_hi = match herb.high() {
                Ok(v) => v,
                Err(e) => return Err(e),
            };
            proof {
                lemma_mul_le(grimy_lo as int, clean_limit as int, PRICE_CAP as int, LIMIT_CAP as int);
                lemma_mul_le(herb_hi as int, clean_limit as int, PRICE_CAP as int, LIMIT_CAP as int);
            }
            let clean_cost = grimy_lo * clean_limit;
            let clean_gross = herb_hi * clean_limit;
            let clean_profit: i64 = clean_gross as i64 - clean_cost as i64;

            // The unfinished potion brewed from the clean herb.
            let unf_limit = match unf.item.limit {
                Some(l) => l,
                None => return Err(MarketError::MissingLimit(id_unf)),
            };
            let herb_lo = match herb.low() {
                Ok(v) => v,
                Err(e) => return Err(e),
            };
            let unf_hi = match unf.high() {
                Ok(v) => v,
                Err(e) => return Err(e),
            };
            proof {
                lemma_mul_le(herb_lo as int, unf_limit as int, PRICE_CAP as int, LIMIT_CAP as int);
                lemma_mul_le(unf_hi as int, unf_limit as int, PRICE_CAP as int, LIMIT_CAP as int);
            }
            let unf_cost = herb_lo * unf_limit;
            let unf_gross = unf_hi * unf_limit;

            let ghost prev = entries_view(report@);
            let ghost cleaning = if clean_gross - clean_cost >= 1000000 && clean_cost < 20000000 {
                seq![
                    entry_of(
                        "Cleaning "@ + grimy.item.name@,
                        clean_gross as int,
                        clean_cost as int,
                        clean_limit as int,
                        cache.volume_at(id_herb) as int,
                    ),
                ]
            } else {
                Seq::<EntrySpec>::empty()
            };

            if clean_profit >= 1000000 && clean_cost < 20000000 {
                let mut clean_name = "Cleaning ".to_owned();
                clean_name.append(grimy.item.name.as_str());
                let entry = ReportEntry::new(
                    clean_name.as_str(),
                    clean_gross,
                    clean_cost,
                    clean_limit,
                    herb.volume,
                );
                report.push(entry);
                proof {
                    assert(cleaning =~= seq![entry@]);
                    assert(entries_view(report@) =~= prev + cleaning);
                }
            } else {
                proof {
                    assert(entries_view(report@) =~= prev + cleaning);
                }
            }

            let unf_entry = ReportEntry::new(
                unf.item.name.as_str(),
                unf_gross,
                unf_cost,
                unf_limit,
                herb.volume,
            );
            let ghost mid = entries_view(report@);
            report.push(unf_entry);
            proof {
                assert(entries_view(report@) =~= mid + seq![unf_entry@]);
                assert(herb_step(*cache, herb_rows()[i as int]) == Ok::<_, MarketError>(
                    cleaning + seq![unf_entry@],
                ));
                match herbs_plan_from(*cache, i as int + 1) {
                    Err(_) => {},
                    Ok(rest) => {
                        assert(prev + ((cleaning + seq![unf_entry@]) + rest) =~= entries_view(
                            report@,
                        ) + rest);
                    },
                }
            }
            i += 1;
        }
        proof {
            assert(entries_view(report@) + Seq::<EntrySpec>::empty() =~= entries_view(report@));
        }
        Ok(report)
    }
}

} // verus!
