use vstd::prelude::*;

use crate::error::MarketError;
use crate::item::{Item, ItemPrice};

verus! {

/// Largest price (and item value) the engine stores. A fetched record
/// above this is treated as a malformed response; the bound is what
/// lets every strategy's arithmetic stay inside `u64`.
pub const PRICE_CAP: u64 = 1_000_000_000_000;

/// Largest buy limit the engine stores, bounded for the same reason.
pub const LIMIT_CAP: u64 = 1_000_000;

/// The mapping a keyed entry list denotes: later entries for the same
/// id override earlier ones.
pub open spec fn as_map<V>(s: Seq<(u64, V)>) -> Map<u64, V>
    decreases s.len(),
{
    if s.len() == 0 {
        Map::empty()
    } else {
        as_map(s.drop_last()).insert(s.last().0, s.last().1)
    }
}

pub proof fn lemma_as_map_found<V>(s: Seq<(u64, V)>, id: u64, i: int)
    requires
        0 <= i < s.len(),
        s[i].0 == id,
        forall|k: int| i < k < s.len() ==> s[k].0 != id,
    ensures
        as_map(s).contains_key(id),
        as_map(s)[id] == s[i].1,
    decreases s.len(),
{
    if i < s.len() - 1 {
        lemma_as_map_found(s.drop_last(), id, i);
    }
}

pub proof fn lemma_as_map_absent<V>(s: Seq<(u64, V)>, id: u64)
    requires
        forall|k: int| 0 <= k < s.len() ==> s[k].0 != id,
    ensures
        !as_map(s).contains_key(id),
    decreases s.len(),
{
    if s.len() > 0 {
        lemma_as_map_absent(s.drop_last(), id);
    }
}

pub proof fn lemma_as_map_key_has_entry<V>(s: Seq<(u64, V)>, id: u64)
    requires
        as_map(s).contains_key(id),
    ensures
        exists|i: int| 0 <= i < s.len() && s[i].0 == id && s[i].1 == as_map(s)[id],
    decreases s.len(),
{
    if s.last().0 == id {
        assert(s[s.len() - 1].0 == id && s[s.len() - 1].1 == as_map(s)[id]);
    } else {
        lemma_as_map_key_has_entry(s.drop_last(), id);
        let i = choose|i: int|
            0 <= i < s.drop_last().len() && s.drop_last()[i].0 == id && s.drop_last()[i].1
                == as_map(s.drop_last())[id];
        assert(s[i].0 == id && s[i].1 == as_map(s)[id]);
    }
}

/// Whether a price record is inside the ranges the engine stores.
pub open spec fn price_bounded(p: ItemPrice) -> bool {
    &&& (p.high matches Some(h) ==> h <= PRICE_CAP)
    &&& (p.low matches Some(l) ==> l <= PRICE_CAP)
}

/// Whether an item's buy limit is inside the range the engine stores.
pub open spec fn limit_bounded(it: Item) -> bool {
    it.limit matches Some(l) ==> l <= LIMIT_CAP
}

/// The catalog: every item the run knows, keyed by its own id.
pub struct ItemTable {
    items: Vec<Item>,
}

/// An item list keyed by the id each item carries.
pub open spec fn keyed(s: Seq<Item>) -> Seq<(u64, Item)> {
    s.map_values(|it: Item| (it.id, it))
}

impl View for ItemTable {
    type V = Map<u64, Item>;

    closed spec fn view(&self) -> Map<u64, Item> {
        as_map(keyed(self.items@))
    }
}

impl ItemTable {
    pub open spec fn wf(&self) -> bool {
        forall|id: u64|
            self@.contains_key(id) ==> limit_bounded(#[trigger] self@[id]) && self@[id].id == id
    }

    /// Builds the catalog from decoded item records. A record whose buy
    /// limit is outside the stored range marks the whole batch malformed.
    pub fn from_items(items: Vec<Item>) -> (r: Result<ItemTable, MarketError>)
        ensures
            r matches Ok(t) ==> t@ == as_map(keyed(items@)) && t.wf(),
            r is Ok <==> (forall|i: int|
                0 <= i < items@.len() ==> limit_bounded(#[trigger] items@[i])),
            r matches Err(e) ==> e == MarketError::DecodeFailure,
    {
        let mut i: usize = 0;
        while i < items.len()
            invariant
                i <= items@.len(),
                forall|k: int| 0 <= k < i ==> limit_bounded(#[trigger] items@[k]),
            decreases items@.len() - i,
        {
            let bounded = match items[i].limit {
                Some(l) => l <= LIMIT_CAP,
                None => true,
            };
            if !bounded {
                return Err(MarketError::DecodeFailure);
            }
            i += 1;
        }
        let t = ItemTable { items };
        proof {
            assert forall|id: u64| t@.contains_key(id) implies limit_bounded(#[trigger] t@[id])
                && t@[id].id == id by {
                lemma_as_map_key_has_entry(keyed(t.items@), id);
            }
        }
        Ok(t)
    }

    /// Looks an item up by id.
    pub fn get(&self, id: u64) -> (r: Option<&Item>)
        ensures
            match r {
                Some(it) => self@.contains_key(id) && *it == self@[id],
                None => !self@.contains_key(id),
            },
    {
        let mut i: usize = self.items.len();
        while 0 < i
            invariant
                i <= self.items@.len(),
                forall|k: int| i <= k < self.items@.len() ==> keyed(self.items@)[k].0 != id,
            decreases i,
        {
            let j = i - 1;
            if self.items[j].id == id {
                proof {
                    lemma_as_map_found(keyed(self.items@), id, j as int);
                }
                return Some(&self.items[j]);
            }
            i = j;
        }
        proof {
            lemma_as_map_absent(keyed(self.items@), id);
        }
        None
    }
}

/// The price snapshot: one optional price record per item id.
pub struct PriceTable {
    entries: Vec<(u64, ItemPrice)>,
}

impl View for PriceTable {
    type V = Map<u64, ItemPrice>;

    closed spec fn view(&self) -> Map<u64, ItemPrice> {
        as_map(self.entries@)
    }
}

impl PriceTable {
    pub open spec fn wf(&self) -> bool {
        forall|id: u64| self@.contains_key(id) ==> price_bounded(#[trigger] self@[id])
    }

    /// Builds the snapshot from decoded price records. A quote outside
    /// the stored range marks the whole batch malformed.
    pub fn from_entries(entries: Vec<(u64, ItemPrice)>) -> (r: Result<PriceTable, MarketError>)
        ensures
            r matches Ok(t) ==> t@ == as_map(entries@) && t.wf(),
            r is Ok <==> (forall|i: int|
                0 <= i < entries@.len() ==> price_bounded(#[trigger] entries@[i].1)),
            r matches Err(e) ==> e == MarketError::DecodeFailure,
    {
        let mut i: usize = 0;
        while i < entries.len()
            invariant
                i <= entries@.len(),
                forall|k: int| 0 <= k < i ==> price_bounded(#[trigger] entries@[k].1),
            decreases entries@.len() - i,
        {
            let p = entries[i].1;
            let high_ok = match p.high {
                Some(h) => h <= PRICE_CAP,
                None => true,
            };
            let low_ok = match p.low {
                Some(l) => l <= PRICE_CAP,
                None => true,
            };
            if !(high_ok && low_ok) {
                return Err(MarketError::DecodeFailure);
            }
            i += 1;
        }
        let t = PriceTable { entries };
        proof {
            assert forall|id: u64| t@.contains_key(id) implies price_bounded(#[trigger] t@[id]) by {
                lemma_as_map_key_has_entry(t.entries@, id);
            }
        }
        Ok(t)
    }

    /// Looks a price record up by id; absence is a legitimate state.
    pub fn get(&self, id: u64) -> (r: Option<&ItemPrice>)
        ensures
            match r {
                Some(p) => self@.contains_key(id) && *p == self@[id],
                None => !self@.contains_key(id),
            },
    {
        let mut i: usize = self.entries.len();
        while 0 < i
            invariant
                i <= self.entries@.len(),
                forall|k: int| i <= k < self.entries@.len() ==> self.entries@[k].0 != id,
            decreases i,
        {
            let j = i - 1;
            if self.entries[j].0 == id {
                proof {
                    lemma_as_map_found(self.entries@, id, j as int);
                }
                return Some(&self.entries[j].1);
            }
            i = j;
        }
        proof {
            lemma_as_map_absent(self.entries@, id);
        }
        None
    }
}

/// The volume snapshot: units traded per item id.
pub struct VolumeTable {
    entries: Vec<(u64, u64)>,
}

impl View for VolumeTable {
    type V = Map<u64, u64>;

    closed spec fn view(&self) -> Map<u64, u64> {
        as_map(self.entries@)
    }
}

impl VolumeTable {
    /// Builds the snapshot from decoded volume counts.
    pub fn from_entries(entries: Vec<(u64, u64)>) -> (t: VolumeTable)
        ensures
            t@ == as_map(entries@),
    {
        VolumeTable { entries }
    }

    /// The volume recorded for an id, or zero when none was reported.
    pub fn get_or_zero(&self, id: u64) -> (r: u64)
        ensures
            r == if self@.contains_key(id) {
                self@[id]
            } else {
                0u64
            },
    {
        let mut i: usize = self.entries.len();
        while 0 < i
            invariant
                i <= self.entries@.len(),
                forall|k: int| i <= k < self.entries@.len() ==> self.entries@[k].0 != id,
            decreases i,
        {
            let j = i - 1;
            if self.entries[j].0 == id {
                proof {
                    lemma_as_map_found(self.entries@, id, j as int);
                }
                return self.entries[j].1;
            }
            i = j;
        }
        proof {
            lemma_as_map_absent(self.entries@, id);
        }
        0
    }
}

} // verus!
