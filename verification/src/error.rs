use vstd::prelude::*;

verus! {

/// Every fatal or recoverable condition the engine distinguishes.
///
/// A failed or malformed network fetch is fatal for the run; a corrupted
/// cache file is absorbed by the loader (it falls back to a fetch) and
/// never appears here.
#[derive(Clone, Copy, Debug, PartialEq, Eq)]
pub enum MarketError {
    /// The network transport failed during a required fetch.
    NetworkFailure,
    /// A required fetch returned a response that could not be decoded
    /// into the expected shape, or carried values outside the ranges
    /// the engine stores.
    DecodeFailure,
    /// A freshly fetched snapshot could not be written back to disk.
    CacheWriteFailure,
    /// A strategy asked for an item id that the catalog does not hold.
    MissingItem(u64),
    /// An item a strategy needs has no buy limit recorded.
    MissingLimit(u64),
    /// A strategy read a price field of an item with no trading data.
    MissingPriceData(u64),
}

impl MarketError {
    /// A short description, for the presentation layer.
    pub fn describe(&self) -> (r: &'static str) {
        match self {
            MarketError::NetworkFailure => "network request failed",
            MarketError::DecodeFailure => "response could not be decoded",
            MarketError::CacheWriteFailure => "cache file could not be written",
            MarketError::MissingItem(_) => "item id missing from the catalog",
            MarketError::MissingLimit(_) => "item has no buy limit",
            MarketError::MissingPriceData(_) => "item has no price data",
        }
    }
}

} // verus!
