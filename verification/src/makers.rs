use vstd::prelude::*;

use crate::cache::Cache;
use crate::error::MarketError;
use crate::item::{avg_of, Item};
use crate::makers::bolts::{bolts_plan, Bolts};
use crate::makers::clay::{clay_plan, Clay};
use crate::makers::cooking::{cooking_plan, Cooking};
use crate::makers::decanting::{decanting_plan, Decanting};
use crate::makers::herbs::{herbs_plan, Herbs};
use crate::makers::leather::{leather_plan, Leather};
use crate::makers::planks::{plank_plan, Plank};
use crate::report::{entries_view, EntrySpec, Report};

pub mod bolts;
pub mod clay;
pub mod cooking;
pub mod decanting;
pub mod herbs;
pub mod leather;
pub mod planks;

verus! {

/// The item a strategy reads, or the configuration error its absence is.
pub open spec fn item_result(c: Cache, id: u64) -> Result<Item, MarketError> {
    if c.items@.contains_key(id) {
        Ok(c.items@[id])
    } else {
        Err(MarketError::MissingItem(id))
    }
}

/// An item's buy limit, demanded by every strategy that scales a recipe.
pub open spec fn limit_result(c: Cache, id: u64) -> Result<u64, MarketError> {
    match item_result(c, id) {
        Err(e) => Err(e),
        Ok(it) => match it.limit {
            Some(l) => Ok(l),
            None => Err(MarketError::MissingLimit(id)),
        },
    }
}

/// An item's average price, demanded where a strategy prices rune casts.
pub open spec fn avg_result(c: Cache, id: u64) -> Result<u64, MarketError> {
    match item_result(c, id) {
        Err(e) => Err(e),
        Ok(_) => match c.price_at(id) {
            None => Err(MarketError::MissingPriceData(id)),
            Some(p) => match avg_of(p) {
                Some(v) => Ok(v),
                None => Err(MarketError::MissingPriceData(id)),
            },
        },
    }
}

/// An item's recent low price, what a strategy pays for its inputs.
pub open spec fn low_result(c: Cache, id: u64) -> Result<u64, MarketError> {
    match item_result(c, id) {
        Err(e) => Err(e),
        Ok(_) => match c.price_at(id) {
            None => Err(MarketError::MissingPriceData(id)),
            Some(p) => match p.low {
                Some(l) => Ok(l),
                None => Err(MarketError::MissingPriceData(id)),
            },
        },
    }
}

/// An item's recent high price, what a strategy takes for its outputs.
pub open spec fn high_result(c: Cache, id: u64) -> Result<u64, MarketError> {
    match item_result(c, id) {
        Err(e) => Err(e),
        Ok(_) => match c.price_at(id) {
            None => Err(MarketError::MissingPriceData(id)),
            Some(p) => match p.high {
                Some(h) => Ok(h),
                None => Err(MarketError::MissingPriceData(id)),
            },
        },
    }
}

/// Entries already emitted, followed by whatever the rest of a run
/// still owes: how a strategy loop accounts for its progress.
pub open spec fn compose_plan(
    done: Seq<EntrySpec>,
    rest: Result<Seq<EntrySpec>, MarketError>,
) -> Result<Seq<EntrySpec>, MarketError> {
    match rest {
        Err(e) => Err(e),
        Ok(r) => Ok(done + r),
    }
}

/// A product of in-range factors stays in range.
pub proof fn lemma_mul_le(a: int, b: int, ca: int, cb: int)
    by (nonlinear_arith)
    requires
        0 <= a <= ca,
        0 <= b <= cb,
    ensures
        a * b <= ca * cb,
{
}

/// One self-contained profit calculation over a fixed set of item ids.
/// A strategy only reads the shared snapshot; it owes entries whose
/// profit is exactly gross minus cost.
pub trait Maker {
    fn run(cache: &Cache) -> (r: Result<Report, MarketError>)
        requires
            cache.wf(),
        ensures
            r matches Ok(v) ==> forall|i: int|
                0 <= i < v@.len() ==> (#[trigger] v@[i]@).profit == v@[i]@.gross - v@[i]@.cost,
    ;
}

/// Everything the pipeline owes: each strategy's entries in a fixed
/// run order, concatenated; or the first strategy failure.
pub open spec fn report_plan(c: Cache) -> Result<Seq<EntrySpec>, MarketError> {
    match bolts_plan(c) {
        Err(e) => Err(e),
        Ok(v1) => match clay_plan(c) {
            Err(e) => Err(e),
            Ok(v2) => match cooking_plan(c) {
                Err(e) => Err(e),
                Ok(v3) => match decanting_plan(c) {
                    Err(e) => Err(e),
                    Ok(v4) => match herbs_plan(c) {
                        Err(e) => Err(e),
                        Ok(v5) => match leather_plan(c) {
                            Err(e) => Err(e),
                            Ok(v6) => match plank_plan(c) {
                                Err(e) => Err(e),
                                Ok(v7) => Ok(v1 + v2 + v3 + v4 + v5 + v6 + v7),
                            },
                        },
                    },
                },
            },
        },
    }
}

/// Runs every strategy against the one shared snapshot and
/// concatenates their entries in run order; strategies never see one
/// another and the first failure aborts the run.
pub fn report(cache: &Cache) -> (r: Result<Report, MarketError>)
    requires
        cache.wf(),
    ensures
        r matches Ok(v) ==> report_plan(*cache) == Ok::<_, MarketError>(entries_view(v@)),
        r matches Err(e) ==> report_plan(*cache) == Err::<Seq<EntrySpec>, _>(e),
        r matches Ok(v) ==> forall|i: int|
            0 <= i < v@.len() ==> (#[trigger] v@[i]@).profit == v@[i]@.gross - v@[i]@.cost,
{
    let mut out = match Bolts::run(cache) {
        Ok(v) => v,
        Err(e) => return Err(e),
    };
    let ghost w1 = out@;
    let mut part = match Clay::run(cache) {
        Ok(v) => v,
        Err(e) => return Err(e),
    };
    let ghost p2 = part@;
    out.append(&mut part);
    let ghost w2 = out@;
    proof {
        assert(entries_view(w2) =~= entries_view(w1) + entries_view(p2));
    }
    let mut part = match Cooking::run(cache) {
        Ok(v) => v,
        Err(e) => return Err(e),
    };
    let ghost p3 = part@;
    out.append(&mut part);
    let ghost w3 = out@;
    proof {
        assert(entries_view(w3) =~= entries_view(w2) + entries_view(p3));
    }
    let mut part = match Decanting::run(cache) {
        Ok(v) => v,
        Err(e) => return Err(e),
    };
    let ghost p4 = part@;
    out.append(&mut part);
    let ghost w4 = out@;
    proof {
        assert(entries_view(w4) =~= entries_view(w3) + entries_view(p4));
    }
    let mut part = match Herbs::run(cache) {
        Ok(v) => v,
        Err(e) => return Err(e),
    };
    let ghost p5 = part@;
    out.append(&mut part);
    let ghost w5 = out@;
    proof {
        assert(entries_view(w5) =~= entries_view(w4) + entries_view(p5));
    }
    let mut part = match Leather::run(cache) {
        Ok(v) => v,
        Err(e) => return Err(e),
    };
    let ghost p6 = part@;
    out.append(&mut part);
    let ghost w6 = out@;
    proof {
        assert(entries_view(w6) =~= entries_view(w5) + entries_view(p6));
    }
    let mut part = match Plank::run(cache) {
        Ok(v) => v,
        Err(e) => return Err(e),
    };
    let ghost p7 = part@;
    out.append(&mut part);
    proof {
        assert(entries_view(out@) =~= entries_view(w6) + entries_view(p7));
        assert forall|i: int| 0 <= i < out@.len() implies (#[trigger] out@[i]@).profit
            == out@[i]@.gross - out@[i]@.cost by {
            assert(entries_view(out@)[i] == out@[i]@);
        }
    }
    Ok(out)
}

} // verus!
