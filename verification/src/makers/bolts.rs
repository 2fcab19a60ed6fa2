use vstd::prelude::*;

use crate::cache::Cache;
use crate::error::MarketError;
use crate::id::{
    ID_BLOOD_RUNE, ID_COSMIC_RUNE, ID_DIAMOND_BOLT_TIPS, ID_DIAMOND_DRAGON_BOLT,
    ID_DIAMOND_DRAGON_BOLT_E, ID_DRAGONSTONE_BOLT_TIPS, ID_DRAGONSTONE_DRAGON_BOLT,
    ID_DRAGONSTONE_DRAGON_BOLT_E, ID_DRAGON_BOLT_UNF, ID_LAW_RUNE, ID_OPAL_BOLT_TIPS,
    ID_OPAL_DRAGON_BOLT, ID_OPAL_DRAGON_BOLT_E, ID_RUBY_BOLT_TIPS, ID_RUBY_DRAGON_BOLT,
    ID_RUBY_DRAGON_BOLT_E, ID_SOUL_RUNE,
};
use crate::makers::{
    avg_result, high_result, item_result, lemma_mul_le, limit_result, low_result, Maker,
};
use crate::report::{entries_view, entry_of, EntrySpec, Report, ReportEntry};
use crate::table::{LIMIT_CAP, PRICE_CAP};

verus! {

/// Fletching and enchanting dragon bolts: one entry for the plain
/// bolt, one for its enchanted form, per gem tip.
pub struct Bolts;

/// One gem's two entries: the plain bolt sold high against materials
/// alone, and the enchanted bolt sold high against materials plus the
/// enchantment casts; or the first thing the snapshot cannot supply.
/// `ench_cost` is the rune outlay of one enchantment cast, which
/// covers ten bolts.
pub open spec fn bolt_variant(
    c: Cache,
    unf: u64,
    tips: u64,
    bolt: u64,
    ench: u64,
    ench_cost: int,
) -> Result<Seq<EntrySpec>, MarketError> {
    match item_result(c, unf) {
        Err(e) => Err(e),
        Ok(_) => match item_result(c, tips) {
            Err(e) => Err(e),
            Ok(_) => match item_result(c, bolt) {
                Err(e) => Err(e),
                Ok(bolt_it) => match item_result(c, ench) {
                    Err(e) => Err(e),
                    Ok(ench_it) => match limit_result(c, tips) {
                        Err(e) => Err(e),
                        Ok(limit) => match low_result(c, unf) {
                            Err(e) => Err(e),
                            Ok(unf_lo) => match high_result(c, tips) {
                                Err(e) => Err(e),
                                Ok(tip_hi) => match high_result(c, bolt) {
                                    Err(e) => Err(e),
                                    Ok(bolt_hi) => match high_result(c, ench) {
                                        Err(e) => Err(e),
                                        Ok(ench_hi) => {
                                            let cast_cost = ench_cost * ((limit / 10) as int);
                                            let mat_cost = (unf_lo + tip_hi) * limit;
                                            Ok(
                                                seq![
                                                    entry_of(
                                                        bolt_it.name@,
                                                        bolt_hi * limit,
                                                        mat_cost,
                                                        limit as int,
                                                        c.volume_at(bolt) as int,
                                                    ),
                                                    entry_of(
                                                        ench_it.name@,
                                                        ench_hi * limit,
                                                        cast_cost + mat_cost,
                                                        limit as int,
                                                        c.volume_at(ench) as int,
                                                    ),
                                                ],
                                            )
                                        },
                                    },
                                },
                            },
                        },
                    },
                },
            },
        },
    }
}

/// Everything this strategy owes: the four rune lookups first, then
/// each gem's enchantment runes priced just before its variant runs.
pub open spec fn bolts_plan(c: Cache) -> Result<Seq<EntrySpec>, MarketError> {
    match item_result(c, ID_LAW_RUNE) {
        Err(e) => Err(e),
        Ok(_) => match item_result(c, ID_COSMIC_RUNE) {
            Err(e) => Err(e),
            Ok(_) => match item_result(c, ID_BLOOD_RUNE) {
                Err(e) => Err(e),
                Ok(_) => match item_result(c, ID_SOUL_RUNE) {
                    Err(e) => Err(e),
                    Ok(_) => match avg_result(c, ID_LAW_RUNE) {
                        Err(e) => Err(e),
                        Ok(law) => match avg_result(c, ID_COSMIC_RUNE) {
                            Err(e) => Err(e),
                            Ok(cosmic) => match bolt_variant(
                                c,
                                ID_DRAGON_BOLT_UNF,
                                ID_DIAMOND_BOLT_TIPS,
                                ID_DIAMOND_DRAGON_BOLT,
                                ID_DIAMOND_DRAGON_BOLT_E,
                                law * 2 + cosmic,
                            ) {
                                Err(e) => Err(e),
                                Ok(v1) => match avg_result(c, ID_BLOOD_RUNE) {
                                    Err(e) => Err(e),
                                    Ok(blood) => match bolt_variant(
                                        c,
                                        ID_DRAGON_BOLT_UNF,
                                        ID_RUBY_BOLT_TIPS,
                                        ID_RUBY_DRAGON_BOLT,
                                        ID_RUBY_DRAGON_BOLT_E,
                                        blood + cosmic,
                                    ) {
                                        Err(e) => Err(e),
                                        Ok(v2) => match avg_result(c, ID_SOUL_RUNE) {
                                            Err(e) => Err(e),
                                            Ok(soul) => match bolt_variant(
                                                c,
                                                ID_DRAGON_BOLT_UNF,
                                                ID_DRAGONSTONE_BOLT_TIPS,
                                                ID_DRAGONSTONE_DRAGON_BOLT,
                                                ID_DRAGONSTONE_DRAGON_BOLT_E,
                                                soul + cosmic,
                                            ) {
                                                Err(e) => Err(e),
                                                Ok(v3) => match bolt_variant(
                                                    c,
                                                    ID_DRAGON_BOLT_UNF,
                                                    ID_OPAL_BOLT_TIPS,
                                                    ID_OPAL_DRAGON_BOLT,
                                                    ID_OPAL_DRAGON_BOLT_E,
                                                    cosmic as int,
                                                ) {
                                                    Err(e) => Err(e),
                                                    Ok(v4) => Ok(v1 + v2 + v3 + v4),
                                                },
                                            },
                                        },
                                    },
                                },
                            },
                        },
                    },
                },
            },
        },
    }
}

fn run_variant(
    cache: &Cache,
    report: &mut Report,
    unf: u64,
    tips: u64,
    bolt: u64,
    ench: u64,
    ench_cost: u64,
) -> (r: Result<(), MarketError>)
    requires
        cache.wf(),
        ench_cost <= 3 * PRICE_CAP,
    ensures
        r matches Ok(_) ==> bolt_variant(*cache, unf, tips, bolt, ench, ench_cost as int)
            matches Ok(es) && entries_view(final(report)@) == entries_view(old(report)@) + es,
        r matches Err(e) ==> bolt_variant(*cache, unf, tips, bolt, ench, ench_cost as int)
            == Err::<Seq<EntrySpec>, _>(e),
{
    let unf_item = match cache.get(unf) {
        Ok(v) => v,
        Err(e) => return Err(e),
    };
    let tip = match cache.get(tips) {
        Ok(v) => v,
        Err(e) => return Err(e),
    };
    let bolts = match cache.get(bolt) {
        Ok(v) => v,
        Err(e) => return Err(e),
    };
    let ench_bolt = match cache.get(ench) {
        Ok(v) => v,
        Err(e) => return Err(e),
    };
    let limit = match tip.item.limit {
        Some(l) => l,
        None => return Err(MarketError::MissingLimit(tips)),
    };
    let unf_lo = match unf_item.low() {
        Ok(v) => v,
        Err(e) => return Err(e),
    };
    let tip_hi = match tip.high() {
        Ok(v) => v,
        Err(e) => return Err(e),
    };
    let bolt_hi = match bolts.high() {
        Ok(v) => v,
        Err(e) => return Err(e),
    };
    let ench_hi = match ench_bolt.high() {
        Ok(v) => v,
        Err(e) => return Err(e),
    };

    proof {
        lemma_mul_le(ench_cost as int, limit as int / 10, 3 * PRICE_CAP as int, LIMIT_CAP as int / 10);
        lemma_mul_le(
            unf_lo as int + tip_hi as int,
            limit as int,
            2 * PRICE_CAP as int,
            LIMIT_CAP as int,
        );
        lemma_mul_le(bolt_hi as int, limit as int, PRICE_CAP as int, LIMIT_CAP as int);
        lemma_mul_le(ench_hi as int, limit as int, PRICE_CAP as int, LIMIT_CAP as int);
    }
    let cast_cost = ench_cost * (limit / 10);
    let mat_cost = (unf_lo + tip_hi) * limit;
    let cost = cast_cost + mat_cost;

    let bolt_entry = ReportEntry::new(
        bolts.item.name.as_str(),
        bolt_hi * limit,
        mat_cost,
        limit,
        bolts.volume,
    );
    let ghost prev = entries_view(report@);
    report.push(bolt_entry);
    proof {
        assert(entries_view(report@) =~= prev + seq![bolt_entry@]);
    }
    let ench_entry = ReportEntry::new(
        ench_bolt.item.name.as_str(),
        ench_hi * limit,
        cost,
        limit,
        ench_bolt.volume,
    );
    report.push(ench_entry);
    proof {
        assert(entries_view(report@) =~= prev + seq![bolt_entry@, ench_entry@]);
    }
    Ok(())
}

impl Maker for Bolts {
    fn run(cache: &Cache) -> (r: Result<Report, MarketError>)
        ensures
            r matches Ok(v) ==> bolts_plan(*cache) == Ok::<_, MarketError>(entries_view(v@)),
            r matches Err(e) ==> bolts_plan(*cache) == Err::<Seq<EntrySpec>, _>(e),
    {
        let mut report: Report = Vec::new();

        let law = match cache.get(ID_LAW_RUNE) {
            Ok(v) => v,
            Err(e) => return Err(e),
        };
        let cosmic = match cache.get(ID_COSMIC_RUNE) {
            Ok(v) => v,
            Err(e) => return Err(e),
        };
        let blood = match cache.get(ID_BLOOD_RUNE) {
            Ok(v) => v,
            Err(e) => return Err(e),
        };
        let soul = match cache.get(ID_SOUL_RUNE) {
            Ok(v) => v,
            Err(e) => return Err(e),
        };

        proof {
            assert(entries_view(report@) =~= Seq::<EntrySpec>::empty());
        }

        // Diamond: the enchantment cast is two law and one cosmic rune.
        let law_avg = match law.avg() {
            Ok(v) => v,
            Err(e) => return Err(e),
        };
        let cosmic_avg = match cosmic.avg() {
            Ok(v) => v,
            Err(e) => return Err(e),
        };
        match run_variant(
            cache,
            &mut report,
            ID_DRAGON_BOLT_UNF,
            ID_DIAMOND_BOLT_TIPS,
            ID_DIAMOND_DRAGON_BOLT,
            ID_DIAMOND_DRAGON_BOLT_E,
            law_avg * 2 + cosmic_avg,
        ) {
            Ok(_) => {},
            Err(e) => return Err(e),
        };
        let ghost v1 = entries_view(report@);

        // Ruby: one blood and one cosmic rune.
        let blood_avg = match blood.avg() {
            Ok(v) => v,
            Err(e) => return Err(e),
        };
        match run_variant(
            cache,
            &mut report,
            ID_DRAGON_BOLT_UNF,
            ID_RUBY_BOLT_TIPS,
            ID_RUBY_DRAGON_BOLT,
            ID_RUBY_DRAGON_BOLT_E,
            blood_avg + cosmic_avg,
        ) {
            Ok(_) => {},
            Err(e) => return Err(e),
        };
        let ghost v2 = entries_view(report@);

        // Dragonstone: one soul and one cosmic rune.
        let soul_avg = match soul.avg() {
            Ok(v) => v,
            Err(e) => return Err(e),
        };
        match run_variant(
            cache,
            &mut report,
            ID_DRAGON_BOLT_UNF,
            ID_DRAGONSTONE_BOLT_TIPS,
            ID_DRAGONSTONE_DRAGON_BOLT,
            ID_DRAGONSTONE_DRAGON_BOLT_E,
            soul_avg + cosmic_avg,
        ) {
            Ok(_) => {},
            Err(e) => return Err(e),
        };
        let ghost v3 = entries_view(report@);

        // Opal: one cosmic rune.
        match run_variant(
            cache,
            &mut report,
            ID_DRAGON_BOLT_UNF,
            ID_OPAL_BOLT_TIPS,
            ID_OPAL_DRAGON_BOLT,
            ID_OPAL_DRAGON_BOLT_E,
            cosmic_avg,
        ) {
            Ok(_) => {},
            Err(e) => return Err(e),
        };

        proof {
            let es1 = bolt_variant(
                *cache,
                ID_DRAGON_BOLT_UNF,
                ID_DIAMOND_BOLT_TIPS,
                ID_DIAMOND_DRAGON_BOLT,
                ID_DIAMOND_DRAGON_BOLT_E,
                law_avg as int * 2 + cosmic_avg as int,
            )->Ok_0;
            let es2 = bolt_variant(
                *cache,
                ID_DRAGON_BOLT_UNF,
                ID_RUBY_BOLT_TIPS,
                ID_RUBY_DRAGON_BOLT,
                ID_RUBY_DRAGON_BOLT_E,
                blood_avg as int + cosmic_avg as int,
            )->Ok_0;
            let es3 = bolt_variant(
                *cache,
                ID_DRAGON_BOLT_UNF,
                ID_DRAGONSTONE_BOLT_TIPS,
                ID_DRAGONSTONE_DRAGON_BOLT,
                ID_DRAGONSTONE_DRAGON_BOLT_E,
                soul_avg as int + cosmic_avg as int,
            )->Ok_0;
            let es4 = bolt_variant(
                *cache,
                ID_DRAGON_BOLT_UNF,
                ID_OPAL_BOLT_TIPS,
                ID_OPAL_DRAGON_BOLT,
                ID_OPAL_DRAGON_BOLT_E,
                cosmic_avg as int,
            )->Ok_0;
            assert(v1 =~= es1);
            assert(v2 =~= es1 + es2);
            assert(v3 =~= (es1 + es2) + es3);
            assert(entries_view(report@) =~= ((es1 + es2) + es3) + es4);
            assert(v1 + es2 =~= es1 + es2);
            assert(entries_view(report@) =~= v1 + v2.skip(v1.len() as int) + es3 + es4);
            assert(entries_view(report@) =~= es1 + es2 + es3 + es4);
            assert forall|i: int| 0 <= i < report@.len() implies (#[trigger] report@[i]@).profit
                == report@[i]@.gross - report@[i]@.cost by {
                assert(entries_view(report@)[i] == report@[i]@);
            }
        }
        Ok(report)
    }
}

} // verus!
