use vstd::prelude::*;

use crate::error::MarketError;
use crate::item::{ItemPrice, ItemWithPrice};
use crate::table::{ItemTable, PriceTable, VolumeTable};

verus! {

/// One run's consistent snapshot of item, price and volume data. Loaded
/// once, then read-only: strategies share it and never mutate it.
pub struct Cache {
    pub items: ItemTable,
    pub prices: PriceTable,
    pub volumes: VolumeTable,
}

impl Cache {
    /// Both stores in range: what every strategy's arithmetic rests on.
    pub open spec fn wf(&self) -> bool {
        self.items.wf() && self.prices.wf()
    }

    /// The price record the cache holds for an id, if any.
    pub open spec fn price_at(&self, id: u64) -> Option<ItemPrice> {
        if self.prices@.contains_key(id) {
            Some(self.prices@[id])
        } else {
            None
        }
    }

    /// The volume the cache holds for an id, defaulting to zero.
    pub open spec fn volume_at(&self, id: u64) -> u64 {
        if self.volumes@.contains_key(id) {
            self.volumes@[id]
        } else {
            0u64
        }
    }

    /// Assembles a snapshot from its three loaded parts.
    pub fn new(items: ItemTable, prices: PriceTable, volumes: VolumeTable) -> (c: Cache)
        requires
            items.wf(),
            prices.wf(),
        ensures
            c.wf(),
            c.items@ == items@,
            c.prices@ == prices@,
            c.volumes@ == volumes@,
    {
        Cache { items, prices, volumes }
    }

    /// The merged per-item view: the item itself, its price record if
    /// one exists, and its traded volume or zero. An id absent from the
    /// catalog is a configuration error, reported, never absorbed.
    pub fn get(&self, id: u64) -> (r: Result<ItemWithPrice<'_>, MarketError>)
        ensures
            match r {
                Ok(v) => {
                    &&& self.items@.contains_key(id)
                    &&& *v.item == self.items@[id]
                    &&& match v.price {
                        Some(p) => self.price_at(id) == Some(*p),
                        None => self.price_at(id) is None,
                    }
                    &&& v.volume == self.volume_at(id)
                },
                Err(e) => !self.items@.contains_key(id) && e == MarketError::MissingItem(id),
            },
    {
        match self.items.get(id) {
            None => Err(MarketError::MissingItem(id)),
            Some(item) => Ok(
                ItemWithPrice {
                    item,
                    price: self.prices.get(id),
                    volume: self.volumes.get_or_zero(id),
                },
            ),
        }
    }
}

} // verus!
