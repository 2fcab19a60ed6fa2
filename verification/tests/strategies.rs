use osrs_mm::cache::Cache;
use osrs_mm::error::MarketError;
use osrs_mm::item::{Item, ItemPrice};
use osrs_mm::makers::bolts::Bolts;
use osrs_mm::makers::clay::Clay;
use osrs_mm::makers::cooking::Cooking;
use osrs_mm::makers::decanting::Decanting;
use osrs_mm::makers::herbs::Herbs;
use osrs_mm::makers::leather::Leather;
use osrs_mm::makers::planks::Plank;
use osrs_mm::makers::{report, Maker};
use osrs_mm::report::aggregate;
use osrs_mm::table::{ItemTable, PriceTable, VolumeTable};

struct CacheBuilder {
    items: Vec<Item>,
    prices: Vec<(u64, ItemPrice)>,
    volumes: Vec<(u64, u64)>,
}

impl CacheBuilder {
    fn new() -> CacheBuilder {
        CacheBuilder { items: Vec::new(), prices: Vec::new(), volumes: Vec::new() }
    }

    fn item(mut self, id: u64, name: &str, limit: Option<u64>) -> CacheBuilder {
        self.items.push(Item {
            id,
            name: name.to_string(),
            examine: String::new(),
            members: false,
            low_alch: None,
            high_alch: None,
            limit,
            value: 0,
        });
        self
    }

    fn price(mut self, id: u64, high: Option<u64>, low: Option<u64>) -> CacheBuilder {
        self.prices.push((id, ItemPrice { high, high_time: None, low, low_time: None }));
        self
    }

    fn volume(mut self, id: u64, traded: u64) -> CacheBuilder {
        self.volumes.push((id, traded));
        self
    }

    fn build(self) -> Cache {
        Cache::new(
            ItemTable::from_items(self.items).unwrap(),
            PriceTable::from_entries(self.prices).unwrap(),
            VolumeTable::from_entries(self.volumes),
        )
    }
}

fn clay_cache() -> CacheBuilder {
    CacheBuilder::new()
        .item(434, "Clay", Some(100))
        .item(1761, "Soft clay", Some(100))
        .item(9075, "Astral rune", Some(10000))
        .price(434, Some(15), Some(10))
        .price(1761, Some(50), Some(40))
        .price(9075, Some(300), Some(100))
        .volume(1761, 777)
}

#[test]
fn clay_prices_one_entry() {
    let cache = clay_cache().build();
    let entries = Clay::run(&cache).unwrap();
    assert_eq!(entries.len(), 1);
    let e = &entries[0];
    assert_eq!(e.name, "Soft clay");
    // astral avg 200, casts for 100 softenings: 100/27+1 = 4 casts.
    assert_eq!(e.cost, 10 * 100 + 200 * 4);
    assert_eq!(e.gross, 50 * 100);
    assert_eq!(e.profit, 5000 - 1800);
    assert_eq!(e.limit, 100);
    assert_eq!(e.volume, 777);
}

#[test]
fn clay_without_astral_price_fails() {
    let cache = CacheBuilder::new()
        .item(434, "Clay", Some(100))
        .item(1761, "Soft clay", Some(100))
        .item(9075, "Astral rune", Some(10000))
        .price(434, Some(15), Some(10))
        .price(1761, Some(50), Some(40))
        .build();
    assert_eq!(Clay::run(&cache).err(), Some(MarketError::MissingPriceData(9075)));
}

#[test]
fn clay_without_limit_fails() {
    let cache = CacheBuilder::new()
        .item(434, "Clay", None)
        .item(1761, "Soft clay", Some(100))
        .item(9075, "Astral rune", Some(10000))
        .price(434, Some(15), Some(10))
        .price(1761, Some(50), Some(40))
        .price(9075, Some(300), Some(100))
        .build();
    assert_eq!(Clay::run(&cache).err(), Some(MarketError::MissingLimit(434)));
}

#[test]
fn clay_with_missing_item_fails() {
    let cache = CacheBuilder::new().item(434, "Clay", Some(100)).build();
    assert_eq!(Clay::run(&cache).err(), Some(MarketError::MissingItem(1761)));
}

const FISH: [(u64, u64); 6] =
    [(377, 379), (371, 373), (7944, 7946), (383, 385), (3142, 3144), (389, 391)];

fn cooking_cache() -> CacheBuilder {
    let mut b = CacheBuilder::new();
    // The first pair is the profitable one: limit 100, raw low 10,
    // cooked high 50.
    for (i, (raw, cooked)) in FISH.iter().enumerate() {
        let hi = if i == 0 { 50 } else { 12 };
        b = b
            .item(*raw, &format!("Raw fish {i}"), Some(100))
            .item(*cooked, &format!("Fish {i}"), Some(100))
            .price(*raw, Some(11), Some(10))
            .price(*cooked, Some(hi), Some(9))
            .volume(*cooked, 10 + i as u64);
    }
    b
}

#[test]
fn cooking_prices_each_dish() {
    let cache = cooking_cache().build();
    let entries = Cooking::run(&cache).unwrap();
    assert_eq!(entries.len(), 6);
    let e = &entries[0];
    assert_eq!(e.name, "Cooking Fish 0");
    assert_eq!(e.cost, 1000);
    assert_eq!(e.gross, 5000);
    assert_eq!(e.profit, 4000);
    assert_eq!(e.volume, 10);
    for e in &entries[1..] {
        assert_eq!(e.profit, 200);
    }
}

#[test]
fn scenario_entry_is_ranked_first() {
    // End to end: load once, run the pipeline's strategy, rank.
    let cache = cooking_cache().build();
    let entries = Cooking::run(&cache).unwrap();
    let ranked = aggregate(entries);
    assert_eq!(ranked[0].profit, 4000);
    assert_eq!(ranked[0].name, "Cooking Fish 0");
    assert!(ranked[1..].iter().all(|e| e.profit == 200));
    // Ties keep their emission order behind the scenario entry.
    let names: Vec<&str> = ranked[1..].iter().map(|e| e.name.as_str()).collect();
    assert_eq!(names, vec!["Cooking Fish 1", "Cooking Fish 2", "Cooking Fish 3", "Cooking Fish 4", "Cooking Fish 5"]);
}

#[test]
fn cooking_with_missing_cooked_price_fails() {
    let mut b = CacheBuilder::new();
    for (raw, cooked) in FISH.iter() {
        b = b
            .item(*raw, "raw", Some(100))
            .item(*cooked, "cooked", Some(100))
            .price(*raw, Some(11), Some(10));
    }
    let cache = b.build();
    assert_eq!(Cooking::run(&cache).err(), Some(MarketError::MissingPriceData(379)));
}

const POTIONS: [(u64, u64); 27] = [
    (3034, 3032), (2454, 2452), (121, 2428), (22464, 22461), (22452, 22449),
    (9741, 9739), (6472, 6470), (133, 2432), (24638, 24635), (24626, 24623),
    (23748, 23745), (23736, 23733), (23700, 23697), (23688, 23685), (23724, 23721),
    (23712, 23709), (3010, 3008), (151, 2438), (10000, 9998), (3042, 3040),
    (139, 2434), (169, 2444), (127, 2430), (12627, 12625), (115, 113),
    (21981, 21978), (12697, 12695),
];

#[test]
fn decanting_keeps_only_potions_that_move() {
    let mut b = CacheBuilder::new();
    for (i, (p3, p4)) in POTIONS.iter().enumerate() {
        b = b
            .item(*p3, &format!("Potion {i}(3)"), Some(100))
            .item(*p4, &format!("Potion {i}(4)"), Some(100))
            .price(*p3, Some(11), Some(10))
            .price(*p4, Some(50), Some(9))
            .volume(*p4, if i == 0 { 200_000 } else { 1_000 });
    }
    let cache = b.build();
    let entries = Decanting::run(&cache).unwrap();
    assert_eq!(entries.len(), 1);
    let e = &entries[0];
    assert_eq!(e.name, "Potion 0(3)");
    // Three quarters of the limit come out as four-dose potions.
    assert_eq!(e.gross, 50 * 75);
    assert_eq!(e.cost, 10 * 100);
    assert_eq!(e.profit, 2750);
    assert_eq!(e.volume, 200_000);
}

const HERBS: [(u64, u64, u64, u64); 14] = [
    (219, 269, 5304, 111), (213, 263, 213, 105), (2485, 2481, 5302, 2483),
    (207, 257, 5295, 99), (199, 249, 5291, 91), (211, 261, 5298, 103),
    (3049, 2998, 5296, 3002), (201, 251, 5292, 93), (215, 265, 5301, 107),
    (205, 255, 5294, 97), (3051, 3000, 5300, 3004), (217, 267, 5303, 109),
    (209, 259, 5297, 101), (203, 253, 5293, 95),
];

fn herbs_cache(first_herb_high: u64) -> Cache {
    let mut b = CacheBuilder::new();
    for (i, (grimy, herb, seed, unf)) in HERBS.iter().enumerate() {
        let hi = if i == 0 { first_herb_high } else { 50 };
        b = b
            .item(*grimy, &format!("Grimy herb {i}"), Some(100))
            .item(*herb, &format!("Herb {i}"), Some(100))
            .item(*seed, &format!("Seed {i}"), Some(100))
            .item(*unf, &format!("Unf potion {i}"), Some(100))
            .price(*grimy, Some(11), Some(10))
            .price(*herb, Some(hi), Some(30))
            .price(*unf, Some(60), Some(20))
            .volume(*herb, 42);
    }
    b.build()
}

#[test]
fn herbs_price_each_unfinished_potion() {
    let cache = herbs_cache(50);
    let entries = Herbs::run(&cache).unwrap();
    // No cleaning entry clears a million profit here.
    assert_eq!(entries.len(), 14);
    let e = &entries[0];
    assert_eq!(e.name, "Unf potion 0");
    assert_eq!(e.cost, 30 * 100);
    assert_eq!(e.gross, 60 * 100);
    assert_eq!(e.volume, 42);
}

#[test]
fn herbs_report_cleaning_only_above_a_million() {
    // First herb sells high enough that cleaning clears a million.
    let cache = herbs_cache(20_010);
    let entries = Herbs::run(&cache).unwrap();
    assert_eq!(entries.len(), 15);
    let e = &entries[0];
    assert_eq!(e.name, "Cleaning Grimy herb 0");
    assert_eq!(e.cost, 10 * 100);
    assert_eq!(e.gross, 20_010 * 100);
    assert_eq!(e.profit, 2_000_000);
    assert_eq!(entries[1].name, "Unf potion 0");
}

fn leather_cache() -> CacheBuilder {
    CacheBuilder::new()
        .item(9075, "Astral rune", None)
        .item(561, "Nature rune", None)
        .item(1747, "Black dragonhide", None)
        .item(2509, "Black dragon leather", None)
        .item(1749, "Red dragonhide", None)
        .item(2507, "Red dragon leather", None)
        .price(9075, Some(300), Some(100))
        .price(561, Some(400), Some(200))
        .price(1747, Some(3200), Some(3000))
        .price(2509, Some(4000), Some(3900))
        .price(1749, Some(2100), Some(2000))
        .price(2507, Some(2100), Some(2050))
        .volume(2509, 9)
        .volume(2507, 8)
}

#[test]
fn leather_prices_both_hides() {
    let cache = leather_cache().build();
    let entries = Leather::run(&cache).unwrap();
    assert_eq!(entries.len(), 2);
    // Rune cost per cast: astral avg 200 twice, nature avg 300.
    let cast_cost = (200 * 2 + 300) * (3000 / 5);
    let black = &entries[0];
    assert_eq!(black.name, "Black dragon leather");
    assert_eq!(black.cost, 3000 * 3000 + cast_cost);
    assert_eq!(black.gross, 4000 * 3000);
    assert_eq!(black.limit, 3000);
    assert_eq!(black.volume, 9);
    let red = &entries[1];
    assert_eq!(red.name, "Red dragon leather");
    assert_eq!(red.cost, 2000 * 3000 + cast_cost);
    assert_eq!(red.gross, 2100 * 3000);
    // An unprofitable hide still appears, with a negative profit.
    assert!(red.profit < 0);
}

fn planks_cache() -> CacheBuilder {
    CacheBuilder::new()
        .item(9075, "Astral rune", None)
        .item(561, "Nature rune", None)
        .item(6332, "Mahogany logs", None)
        .item(8782, "Mahogany plank", None)
        .item(6333, "Teak logs", None)
        .item(8780, "Teak plank", None)
        .price(9075, Some(300), Some(100))
        .price(561, Some(400), Some(200))
        .price(6332, Some(600), Some(500))
        .price(8782, Some(2500), Some(2400))
        .price(6333, Some(400), Some(300))
        .price(8780, Some(1500), Some(1400))
        .volume(8782, 3)
        .volume(8780, 4)
}

#[test]
fn planks_price_both_woods() {
    let cache = planks_cache().build();
    let entries = Plank::run(&cache).unwrap();
    assert_eq!(entries.len(), 2);
    let rune_cast_cost = 200 * 2 + 300;
    let mahogany = &entries[0];
    assert_eq!(mahogany.name, "Mahogany plank");
    assert_eq!(mahogany.cost, (rune_cast_cost + 500 + 1050) * 3000);
    assert_eq!(mahogany.gross, 2500 * 3000);
    assert_eq!(mahogany.volume, 3);
    let teak = &entries[1];
    assert_eq!(teak.name, "Teak plank");
    assert_eq!(teak.cost, (rune_cast_cost + 300 + 350) * 3000);
    assert_eq!(teak.gross, 1500 * 3000);
}

fn bolts_cache() -> CacheBuilder {
    CacheBuilder::new()
        .item(563, "Law rune", None)
        .item(564, "Cosmic rune", None)
        .item(565, "Blood rune", None)
        .item(566, "Soul rune", None)
        .item(21930, "Dragon bolts (unf)", Some(11000))
        .item(9192, "Diamond bolt tips", Some(100))
        .item(21946, "Diamond dragon bolts", Some(11000))
        .item(21948, "Diamond dragon bolts (e)", Some(11000))
        .item(9191, "Ruby bolt tips", Some(100))
        .item(21944, "Ruby dragon bolts", Some(11000))
        .item(21945, "Ruby dragon bolts (e)", Some(11000))
        .item(9193, "Dragonstone bolt tips", Some(100))
        .item(21950, "Dragonstone dragon bolts", Some(11000))
        .item(21952, "Dragonstone dragon bolts (e)", Some(11000))
        .item(45, "Opal bolt tips", Some(100))
        .item(21932, "Opal dragon bolts", Some(11000))
        .item(21934, "Opal dragon bolts (e)", Some(11000))
        .price(563, Some(120), Some(80))
        .price(564, Some(60), Some(40))
        .price(565, Some(250), Some(150))
        .price(566, Some(350), Some(250))
        .price(21930, Some(520), Some(500))
        .price(9192, Some(300), Some(290))
        .price(21946, Some(1000), Some(990))
        .price(21948, Some(1200), Some(1100))
        .price(9191, Some(250), Some(240))
        .price(21944, Some(900), Some(890))
        .price(21945, Some(1000), Some(990))
        .price(9193, Some(400), Some(390))
        .price(21950, Some(1500), Some(1490))
        .price(21952, Some(1600), Some(1590))
        .price(45, Some(50), Some(40))
        .price(21932, Some(600), Some(590))
        .price(21934, Some(700), Some(690))
        .volume(21946, 11)
        .volume(21948, 12)
}

#[test]
fn bolts_price_plain_and_enchanted_forms() {
    let cache = bolts_cache().build();
    let entries = Bolts::run(&cache).unwrap();
    assert_eq!(entries.len(), 8);
    // Diamond: law avg 100, cosmic avg 50; tips limit 100.
    let ench_cast = (100 * 2 + 50) * (100 / 10);
    let mat_cost = (500 + 300) * 100;
    let plain = &entries[0];
    assert_eq!(plain.name, "Diamond dragon bolts");
    assert_eq!(plain.gross, 1000 * 100);
    assert_eq!(plain.cost, mat_cost);
    assert_eq!(plain.volume, 11);
    let enchanted = &entries[1];
    assert_eq!(enchanted.name, "Diamond dragon bolts (e)");
    assert_eq!(enchanted.gross, 1200 * 100);
    assert_eq!(enchanted.cost, ench_cast + mat_cost);
    assert_eq!(enchanted.volume, 12);
    // Ruby: blood avg 200, cosmic avg 50.
    let ruby_mat = (500 + 250) * 100;
    assert_eq!(entries[2].name, "Ruby dragon bolts");
    assert_eq!(entries[2].cost, ruby_mat);
    assert_eq!(entries[3].cost, (200 + 50) * 10 + ruby_mat);
}

fn full_cache() -> Cache {
    let mut b = CacheBuilder::new();
    // Bolts.
    b = merge(b, bolts_cache());
    // Clay.
    b = merge(b, clay_cache());
    // Cooking.
    b = merge(b, cooking_cache());
    // Decanting.
    for (i, (p3, p4)) in POTIONS.iter().enumerate() {
        b = b
            .item(*p3, &format!("Potion {i}(3)"), Some(100))
            .item(*p4, &format!("Potion {i}(4)"), Some(100))
            .price(*p3, Some(11), Some(10))
            .price(*p4, Some(50), Some(9))
            .volume(*p4, 1_000);
    }
    // Herbs.
    for (i, (grimy, herb, seed, unf)) in HERBS.iter().enumerate() {
        b = b
            .item(*grimy, &format!("Grimy herb {i}"), Some(100))
            .item(*herb, &format!("Herb {i}"), Some(100))
            .item(*seed, &format!("Seed {i}"), Some(100))
            .item(*unf, &format!("Unf potion {i}"), Some(100))
            .price(*grimy, Some(11), Some(10))
            .price(*herb, Some(50), Some(30))
            .price(*unf, Some(60), Some(20))
            .volume(*herb, 42);
    }
    // Leather and planks.
    b = merge(b, leather_cache());
    b = merge(b, planks_cache());
    b.build()
}

fn merge(into: CacheBuilder, from: CacheBuilder) -> CacheBuilder {
    let mut b = into;
    b.items.extend(from.items);
    b.prices.extend(from.prices);
    b.volumes.extend(from.volumes);
    b
}

#[test]
fn report_runs_every_strategy_and_concatenates() {
    let cache = full_cache();
    let entries = report(&cache).unwrap();
    // 8 bolts + 1 clay + 6 cooking + 0 decanting (nothing moves)
    // + 14 herbs + 2 leather + 2 planks.
    assert_eq!(entries.len(), 33);
    assert_eq!(entries[0].name, "Diamond dragon bolts");
    assert_eq!(entries[8].name, "Soft clay");
    assert_eq!(entries[9].name, "Cooking Fish 0");
    assert_eq!(entries[15].name, "Unf potion 0");
    assert_eq!(entries[29].name, "Black dragon leather");
    assert_eq!(entries[31].name, "Mahogany plank");
    for e in &entries {
        assert_eq!(e.profit, e.gross as i64 - e.cost as i64);
    }
}

#[test]
fn report_fails_fatally_on_a_missing_id() {
    let cache = clay_cache().build();
    // The bolts strategy runs first and its law rune is absent.
    assert_eq!(report(&cache).err(), Some(MarketError::MissingItem(563)));
}
