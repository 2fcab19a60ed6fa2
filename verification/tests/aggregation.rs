use osrs_mm::report::{aggregate, filter_material, ReportEntry};

fn entry(name: &str, gross: u64, cost: u64) -> ReportEntry {
    ReportEntry::new(name, gross, cost, 100, 0)
}

#[test]
fn profit_is_gross_minus_cost() {
    let e = entry("soft clay", 5000, 1800);
    assert_eq!(e.gross, 5000);
    assert_eq!(e.cost, 1800);
    assert_eq!(e.profit, 3200);
    assert_eq!(e.limit, 100);
    assert_eq!(e.name, "soft clay");
}

#[test]
fn profit_can_be_negative() {
    let e = entry("red leather", 5, 8);
    assert_eq!(e.profit, -3);
}

#[test]
fn aggregate_sorts_descending_and_stable() {
    let entries = vec![
        entry("a", 5, 0),
        entry("b", 20, 0),
        entry("c", 5, 0),
        entry("d", 0, 3),
    ];
    let sorted = aggregate(entries);
    let profits: Vec<i64> = sorted.iter().map(|e| e.profit).collect();
    assert_eq!(profits, vec![20, 5, 5, -3]);
    // The two profit-5 entries keep their emission order.
    let names: Vec<&str> = sorted.iter().map(|e| e.name.as_str()).collect();
    assert_eq!(names, vec!["b", "a", "c", "d"]);
}

#[test]
fn aggregate_of_empty_report_is_empty() {
    let sorted = aggregate(Vec::new());
    assert!(sorted.is_empty());
}

#[test]
fn entries_compare_by_profit_alone() {
    let a = entry("a", 10, 3);
    let b = entry("b", 9, 2);
    assert!(a == b);
    assert!(entry("c", 10, 2) > a);
    assert!(entry("d", 10, 4) < a);
}

#[test]
fn materiality_filter_drops_small_and_negative() {
    let entries = vec![
        entry("big", 2_000_000, 0),
        entry("small", 10, 0),
        entry("loss", 0, 5),
        entry("edge", 1_000_000, 0),
    ];
    let kept = filter_material(entries, 1_000_000);
    let names: Vec<&str> = kept.iter().map(|e| e.name.as_str()).collect();
    assert_eq!(names, vec!["big", "edge"]);
}

#[test]
fn materiality_filter_keeps_order() {
    let entries = vec![entry("x", 30, 0), entry("y", 10, 0), entry("z", 20, 0)];
    let kept = filter_material(entries, 0);
    let profits: Vec<i64> = kept.iter().map(|e| e.profit).collect();
    assert_eq!(profits, vec![30, 10, 20]);
}
