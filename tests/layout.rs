use rustdock::aggregator::Aggregator;
use rustdock::config::Element;

fn sep(s: &str) -> Element {
    Element::Seperator { sep: s.to_string() }
}

#[test]
fn split_scenario_positions_right_group() {
    let mut agg = Aggregator::new(vec![sep("A"), Element::Right, sep("B")], 10);
    agg.record(0, "A".to_string(), 1);
    let line = agg.record(2, "B".to_string(), 1);
    assert_eq!(line, "A^pa(9)B\n");
}

#[test]
fn initial_line_is_empty_groups() {
    let agg = Aggregator::new(vec![sep("A"), Element::Right, sep("B")], 10);
    assert_eq!(agg.line(), "^pa(10)\n");
}

#[test]
fn truncates_left_group_when_too_wide() {
    let mut agg = Aggregator::new(vec![sep("L"), Element::Right, sep("R")], 400);
    agg.record(0, "a".repeat(500), 400);
    let line = agg.record(2, "R".to_string(), 50);
    let expected = format!("{}…^pa(350)R\n", "a".repeat(351));
    assert_eq!(line, expected);
}

#[test]
fn truncation_counts_characters_not_bytes() {
    let mut agg = Aggregator::new(vec![sep("L"), Element::Right, sep("R")], 5);
    agg.record(0, "éééééééé".to_string(), 10);
    let line = agg.record(2, "R".to_string(), 2);
    assert_eq!(line, "éééé…^pa(3)R\n");
}

#[test]
fn short_left_text_keeps_all_before_ellipsis() {
    let mut agg = Aggregator::new(vec![sep("L"), Element::Right, sep("R")], 100);
    agg.record(0, "abc".to_string(), 200);
    let line = agg.record(2, "R".to_string(), 10);
    assert_eq!(line, "abc…^pa(90)R\n");
}

#[test]
fn exact_fit_is_not_truncated() {
    let mut agg = Aggregator::new(vec![sep("L"), Element::Right, sep("R")], 400);
    agg.record(0, "left".to_string(), 300);
    let line = agg.record(2, "right".to_string(), 100);
    assert_eq!(line, "left^pa(300)right\n");
}

#[test]
fn right_group_wider_than_bar_drops_left_group() {
    let mut agg = Aggregator::new(vec![sep("L"), Element::Right, sep("R")], 100);
    agg.record(0, "left".to_string(), 10);
    let line = agg.record(2, "right".to_string(), 150);
    assert_eq!(line, "^pa(0)right\n");
}

#[test]
fn without_split_everything_is_left() {
    let mut agg = Aggregator::new(vec![sep("x"), sep("y")], 50);
    agg.record(0, "x".to_string(), 5);
    let line = agg.record(1, "y".to_string(), 5);
    assert_eq!(line, "xy^pa(50)\n");
}

#[test]
fn only_first_split_counts() {
    let elems = vec![sep("a"), Element::Right, sep("b"), Element::Right, sep("c")];
    let mut agg = Aggregator::new(elems, 30);
    agg.record(0, "a".to_string(), 1);
    agg.record(2, "b".to_string(), 2);
    let line = agg.record(4, "c".to_string(), 3);
    assert_eq!(line, "a^pa(25)bc\n");
}

#[test]
fn layout_twice_gives_same_line() {
    let mut agg = Aggregator::new(vec![sep("a"), Element::Right, sep("b")], 30);
    agg.record(0, "a".to_string(), 4);
    let first = agg.record(2, "b".to_string(), 6);
    assert_eq!(agg.line(), first);
    assert_eq!(agg.line(), agg.line());
}

#[test]
fn later_update_overwrites_slot() {
    let mut agg = Aggregator::new(vec![sep("a"), Element::Right, sep("b")], 30);
    agg.record(2, "old".to_string(), 10);
    let line = agg.record(2, "new".to_string(), 3);
    assert_eq!(line, "^pa(27)new\n");
    assert_eq!(agg.len(), 3);
}
