use vstd::prelude::*;

use crate::error::MarketError;

verus! {

/// An in-game item. Static data only; price data lives in a snapshot.
#[derive(Clone, Debug)]
pub struct Item {
    pub id: u64,
    pub name: String,
    pub examine: String,
    pub members: bool,
    pub low_alch: Option<u64>,
    pub high_alch: Option<u64>,
    pub limit: Option<u64>,
    pub value: u64,
}

/// Current price data for an in-game item. Either side may be absent
/// when the item has not traded recently in that direction.
#[derive(Clone, Copy, Debug)]
pub struct ItemPrice {
    pub high: Option<u64>,
    pub high_time: Option<u64>,
    pub low: Option<u64>,
    pub low_time: Option<u64>,
}

/// The decoded body of the latest-prices endpoint: one price record per
/// item id.
#[derive(Clone, Debug)]
pub struct ItemPriceResponse {
    pub data: Vec<(u64, ItemPrice)>,
}

/// The decoded body of the volumes endpoint: units traded per item id.
#[derive(Clone, Debug)]
pub struct DailyVolumeResponse {
    pub data: Vec<(u64, u64)>,
}

/// An item's static data paired with its current price data and traded
/// volume, as handed out by the cache. `price` is `None` when the item
/// has not traded recently; `volume` defaults to zero when unreported.
#[derive(Clone, Debug)]
pub struct ItemWithPrice<'a> {
    pub item: &'a Item,
    pub price: Option<&'a ItemPrice>,
    pub volume: u64,
}

/// The average of the recent high and low prices: the floored mean when
/// both sides are present, the one side that is present otherwise, and
/// nothing when the item has no quoted price at all.
pub open spec fn avg_of(p: ItemPrice) -> Option<u64> {
    match (p.high, p.low) {
        (Some(h), Some(l)) => Some((((h + l) as int) / 2) as u64),
        (Some(v), None) => Some(v),
        (None, Some(v)) => Some(v),
        (None, None) => None,
    }
}

impl<'a> ItemWithPrice<'a> {
    /// What `avg` must return on this view.
    pub open spec fn avg_plan(self) -> Result<u64, MarketError> {
        match self.price {
            None => Err(MarketError::MissingPriceData(self.item.id)),
            Some(p) => match avg_of(*p) {
                Some(v) => Ok(v),
                None => Err(MarketError::MissingPriceData(self.item.id)),
            },
        }
    }

    /// What `high` must return on this view.
    pub open spec fn high_plan(self) -> Result<u64, MarketError> {
        match self.price {
            None => Err(MarketError::MissingPriceData(self.item.id)),
            Some(p) => match p.high {
                Some(h) => Ok(h),
                None => Err(MarketError::MissingPriceData(self.item.id)),
            },
        }
    }

    /// What `low` must return on this view.
    pub open spec fn low_plan(self) -> Result<u64, MarketError> {
        match self.price {
            None => Err(MarketError::MissingPriceData(self.item.id)),
            Some(p) => match p.low {
                Some(l) => Ok(l),
                None => Err(MarketError::MissingPriceData(self.item.id)),
            },
        }
    }

    /// The average of the recent high and low prices. Fails when the
    /// item carries no price data at all; a single quoted side is
    /// returned as it stands.
    pub fn avg(&self) -> (r: Result<u64, MarketError>)
        ensures
            r == self.avg_plan(),
    {
        match self.price {
            None => Err(MarketError::MissingPriceData(self.item.id)),
            Some(p) => match (p.high, p.low) {
                (Some(h), Some(l)) => {
                    let wide: u128 = (h as u128 + l as u128) / 2;
                    assert(wide <= u64::MAX as u128);
                    Ok(wide as u64)
                },
                (Some(v), None) => Ok(v),
                (None, Some(v)) => Ok(v),
                (None, None) => Err(MarketError::MissingPriceData(self.item.id)),
            },
        }
    }

    /// The recent high price. Fails when no high side is quoted.
    pub fn high(&self) -> (r: Result<u64, MarketError>)
        ensures
            r == self.high_plan(),
    {
        match self.price {
            None => Err(MarketError::MissingPriceData(self.item.id)),
            Some(p) => match p.high {
                Some(h) => Ok(h),
                None => Err(MarketError::MissingPriceData(self.item.id)),
            },
        }
    }

    /// The recent low price. Fails when no low side is quoted.
    pub fn low(&self) -> (r: Result<u64, MarketError>)
        ensures
            r == self.low_plan(),
    {
        match self.price {
            None => Err(MarketError::MissingPriceData(self.item.id)),
            Some(p) => match p.low {
                Some(l) => Ok(l),
                None => Err(MarketError::MissingPriceData(self.item.id)),
            },
        }
    }
}

} // verus!
