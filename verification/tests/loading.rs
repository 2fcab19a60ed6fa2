use osrs_mm::cache::Cache;
use osrs_mm::error::MarketError;
use osrs_mm::item::{Item, ItemPrice, ItemWithPrice};
use osrs_mm::loader::{FetchOutcome, LoadPhase};
use osrs_mm::table::{ItemTable, PriceTable, VolumeTable};

fn item(id: u64, name: &str, limit: Option<u64>) -> Item {
    Item {
        id,
        name: name.to_string(),
        examine: String::new(),
        members: false,
        low_alch: None,
        high_alch: None,
        limit,
        value: 0,
    }
}

fn price(high: Option<u64>, low: Option<u64>) -> ItemPrice {
    ItemPrice { high, high_time: None, low, low_time: None }
}

fn small_cache() -> Cache {
    let items = ItemTable::from_items(vec![
        item(1, "rock", Some(100)),
        item(2, "pebble", None),
    ])
    .unwrap();
    let prices = PriceTable::from_entries(vec![(1, price(Some(20), Some(10)))]).unwrap();
    let volumes = VolumeTable::from_entries(vec![(1, 5000)]);
    Cache::new(items, prices, volumes)
}

#[test]
fn get_merges_item_price_and_volume() {
    let cache = small_cache();
    let view = cache.get(1).unwrap();
    assert_eq!(view.item.name, "rock");
    assert_eq!(view.item.limit, Some(100));
    let p = view.price.unwrap();
    assert_eq!(p.high, Some(20));
    assert_eq!(p.low, Some(10));
    assert_eq!(view.volume, 5000);
}

#[test]
fn get_defaults_absent_price_and_volume() {
    let cache = small_cache();
    let view = cache.get(2).unwrap();
    assert!(view.price.is_none());
    assert_eq!(view.volume, 0);
}

#[test]
fn missing_item_is_an_error() {
    let cache = small_cache();
    match cache.get(3) {
        Err(MarketError::MissingItem(3)) => {}
        _ => panic!("an id absent from the catalog must be reported"),
    }
}

#[test]
fn later_record_overrides_earlier_for_same_id() {
    let items = ItemTable::from_items(vec![
        item(7, "first", Some(10)),
        item(7, "second", Some(20)),
    ])
    .unwrap();
    let cache = Cache::new(
        items,
        PriceTable::from_entries(Vec::new()).unwrap(),
        VolumeTable::from_entries(Vec::new()),
    );
    let view = cache.get(7).unwrap();
    assert_eq!(view.item.name, "second");
}

#[test]
fn out_of_range_price_is_a_decode_failure() {
    let r = PriceTable::from_entries(vec![(1, price(Some(2_000_000_000_000), None))]);
    assert_eq!(r.err(), Some(MarketError::DecodeFailure));
}

#[test]
fn out_of_range_limit_is_a_decode_failure() {
    let r = ItemTable::from_items(vec![item(1, "rock", Some(2_000_000))]);
    assert_eq!(r.err(), Some(MarketError::DecodeFailure));
}

#[test]
fn avg_uses_floored_mean_of_both_sides() {
    let it = item(1, "rock", None);
    let p = price(Some(21), Some(10));
    let v = ItemWithPrice { item: &it, price: Some(&p), volume: 0 };
    assert_eq!(v.avg(), Ok(15));
    assert_eq!(v.high(), Ok(21));
    assert_eq!(v.low(), Ok(10));
}

#[test]
fn avg_uses_the_one_side_present() {
    let it = item(1, "rock", None);
    let high_only = price(Some(42), None);
    let v = ItemWithPrice { item: &it, price: Some(&high_only), volume: 0 };
    assert_eq!(v.avg(), Ok(42));
    assert_eq!(v.low(), Err(MarketError::MissingPriceData(1)));
    let low_only = price(None, Some(7));
    let w = ItemWithPrice { item: &it, price: Some(&low_only), volume: 0 };
    assert_eq!(w.avg(), Ok(7));
    assert_eq!(w.high(), Err(MarketError::MissingPriceData(1)));
}

#[test]
fn avg_with_no_price_data_fails() {
    let it = item(9, "ghostly item", None);
    let empty = price(None, None);
    let v = ItemWithPrice { item: &it, price: Some(&empty), volume: 0 };
    assert_eq!(v.avg(), Err(MarketError::MissingPriceData(9)));
    let w = ItemWithPrice { item: &it, price: None, volume: 0 };
    assert_eq!(w.avg(), Err(MarketError::MissingPriceData(9)));
}

#[test]
fn avg_of_huge_prices_does_not_overflow() {
    let it = item(1, "rock", None);
    let p = price(Some(u64::MAX), Some(u64::MAX - 1));
    let v = ItemWithPrice { item: &it, price: Some(&p), volume: 0 };
    assert_eq!(v.avg(), Ok(u64::MAX - 1));
}

#[test]
fn forced_refresh_starts_with_a_fetch() {
    let phase = LoadPhase::<u64>::begin_snapshot(true);
    assert!(matches!(phase, LoadPhase::Fetching));
    let phase = phase.fetched(FetchOutcome::Fetched(7));
    assert!(matches!(phase, LoadPhase::Persisting(7)));
    let phase = phase.persisted(true);
    assert!(matches!(phase, LoadPhase::Done(7)));
}

#[test]
fn unforced_load_uses_cache_verbatim_without_fetch() {
    let phase = LoadPhase::<u64>::begin_snapshot(false);
    assert!(matches!(phase, LoadPhase::ReadingCache));
    let phase = phase.cache_read(Some(42));
    assert!(matches!(phase, LoadPhase::Done(42)));
}

#[test]
fn first_run_fetches_persists_then_second_run_reads_cache() {
    // First run: nothing on disk yet.
    let phase = LoadPhase::<u64>::begin_snapshot(false);
    assert!(matches!(phase, LoadPhase::ReadingCache));
    let phase = phase.cache_read(None);
    assert!(matches!(phase, LoadPhase::Fetching));
    let phase = phase.fetched(FetchOutcome::Fetched(99));
    // The fetched snapshot must be written before the load completes.
    assert!(matches!(phase, LoadPhase::Persisting(99)));
    let phase = phase.persisted(true);
    let first = match phase {
        LoadPhase::Done(t) => t,
        _ => panic!("load should have completed"),
    };
    // Second run: the persisted copy satisfies the load with no fetch.
    let phase = LoadPhase::<u64>::begin_snapshot(false);
    assert!(matches!(phase, LoadPhase::ReadingCache));
    let phase = phase.cache_read(Some(first));
    assert!(matches!(phase, LoadPhase::Done(99)));
}

#[test]
fn catalog_load_ignores_force_and_reads_cache_first() {
    let phase = LoadPhase::<u64>::begin_catalog();
    assert!(matches!(phase, LoadPhase::ReadingCache));
}

#[test]
fn transport_failure_is_fatal() {
    let phase = LoadPhase::<u64>::begin_snapshot(true);
    let phase = phase.fetched(FetchOutcome::TransportFailed);
    assert!(matches!(phase, LoadPhase::Failed(MarketError::NetworkFailure)));
}

#[test]
fn malformed_response_is_fatal() {
    let phase = LoadPhase::<u64>::begin_snapshot(true);
    let phase = phase.fetched(FetchOutcome::Malformed);
    assert!(matches!(phase, LoadPhase::Failed(MarketError::DecodeFailure)));
}

#[test]
fn failed_write_back_is_fatal() {
    let phase = LoadPhase::<u64>::begin_snapshot(true);
    let phase = phase.fetched(FetchOutcome::Fetched(1));
    let phase = phase.persisted(false);
    assert!(matches!(phase, LoadPhase::Failed(MarketError::CacheWriteFailure)));
}
