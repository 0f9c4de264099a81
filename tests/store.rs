use tally::store::{Counter, CounterList};

fn counts(list: &CounterList) -> Vec<i64> {
    list.counters().iter().map(|c| c.count).collect()
}

fn names(list: &CounterList) -> Vec<String> {
    list.counters().iter().map(|c| c.name.clone()).collect()
}

#[test]
fn new_counter_starts_at_zero() {
    let c = Counter::new("Tea");
    assert_eq!(c.name, "Tea");
    assert_eq!(c.count, 0);
}

#[test]
fn append_keeps_order_and_selection() {
    let mut list = CounterList::new();
    assert_eq!(list.selected(), None);
    list.append("a");
    assert_eq!(list.selected(), None);
    list.select_next();
    assert_eq!(list.selected(), Some(0));
    list.append("b");
    list.append("");
    assert_eq!(names(&list), vec!["a", "b", ""]);
    assert_eq!(counts(&list), vec![0, 0, 0]);
    assert_eq!(list.selected(), Some(0));
    assert_eq!(list.len(), 3);
}

#[test]
fn moving_on_an_empty_list_selects_nothing() {
    let mut list = CounterList::new();
    list.select_next();
    assert_eq!(list.selected(), None);
    list.select_previous();
    assert_eq!(list.selected(), None);
}

#[test]
fn moving_clamps_at_both_ends() {
    let mut list = CounterList::new();
    list.append("a");
    list.append("b");
    list.append("c");
    list.select_previous();
    assert_eq!(list.selected(), Some(2));
    list.select_next();
    assert_eq!(list.selected(), Some(2));
    list.select_previous();
    list.select_previous();
    assert_eq!(list.selected(), Some(0));
    list.select_previous();
    assert_eq!(list.selected(), Some(0));
    list.clear_selection();
    list.select_next();
    assert_eq!(list.selected(), Some(0));
}

#[test]
fn adjust_then_undo_restores_the_count() {
    let mut list = CounterList::new();
    list.append("a");
    list.append("b");
    list.adjust(Some(1), 7);
    assert_eq!(counts(&list), vec![0, 7]);
    list.adjust(Some(1), 25);
    list.adjust(Some(1), -25);
    assert_eq!(counts(&list), vec![0, 7]);
}

#[test]
fn adjust_ignores_missing_index_and_overflow() {
    let mut list = CounterList::new();
    list.append("a");
    list.adjust(None, 3);
    list.adjust(Some(1), 3);
    assert_eq!(counts(&list), vec![0]);
    list.adjust(Some(0), i64::MAX as i128);
    assert_eq!(counts(&list), vec![i64::MAX]);
    list.adjust(Some(0), 1);
    assert_eq!(counts(&list), vec![i64::MAX]);
    list.adjust(Some(0), -(u64::MAX as i128));
    assert_eq!(counts(&list), vec![i64::MIN]);
}

#[test]
fn removing_the_last_selected_counter_moves_the_selection_back() {
    let mut list = CounterList::new();
    list.append("a");
    list.append("b");
    list.append("c");
    list.select_previous();
    list.remove_selected();
    assert_eq!(names(&list), vec!["a", "b"]);
    assert_eq!(list.selected(), Some(1));
}

#[test]
fn removing_a_middle_counter_keeps_the_position() {
    let mut list = CounterList::new();
    list.append("a");
    list.append("b");
    list.append("c");
    list.select_next();
    list.select_next();
    list.remove_selected();
    assert_eq!(names(&list), vec!["a", "c"]);
    assert_eq!(list.selected(), Some(1));
}

#[test]
fn removing_the_only_counter_clears_the_selection() {
    let mut list = CounterList::new();
    list.append("a");
    list.select_next();
    list.remove_selected();
    assert_eq!(list.len(), 0);
    assert_eq!(list.selected(), None);
    list.remove_selected();
    assert_eq!(list.len(), 0);
}

#[test]
fn removing_without_selection_changes_nothing() {
    let mut list = CounterList::from_counters(vec![Counter::new("a"), Counter::new("b")]);
    list.remove_selected();
    assert_eq!(names(&list), vec!["a", "b"]);
    assert_eq!(list.selected(), None);
}
