use uko_todo::text::{chars_of, contains_chars};
use uko_todo::{Item, TimeDelta, Timestamp, TodoError, TodoList, Urgency};

fn breakfast_list() -> TodoList {
    let mut list = TodoList::new();
    list.add(String::from("Eat Breakfast"));
    list.set_urgent(0, Urgency::Low).unwrap();
    list.add(String::from("Shower"));
    list.set_checked(1, true).unwrap();
    list.set_due_at(1, Some(Timestamp { secs: 1_000 + 86_400, nanos: 0 })).unwrap();
    list.set_urgent(1, Urgency::High).unwrap();
    list.add(String::from("Lunch"));
    list
}

fn indices(hits: &[(usize, Item)]) -> Vec<usize> {
    hits.iter().map(|(i, _)| *i).collect()
}

const NOON: Timestamp = Timestamp { secs: 1_000, nanos: 0 };

#[test]
fn get_after_add_gives_default_item() {
    let mut list = TodoList::new();
    list.add(String::from("first"));
    list.add(String::from("second"));
    let item = list.get(1).unwrap();
    assert_eq!(item.text, "second");
    assert!(!item.checked);
    assert_eq!(item.due_at, None);
    assert_eq!(item.urgency, Urgency::Normal);
    assert_eq!(list.get(0).unwrap().text, "first");
}

#[test]
fn substring_search_on_breakfast_list() {
    let list = breakfast_list();
    // "e" occurs in "Eat Breakfast" and in "Shower", not in "Lunch".
    let hits = list.search_at(Some(String::from("e")), None, None, None, None, NOON);
    assert_eq!(indices(&hits), vec![0, 1]);
    assert_eq!(hits[0].1.text, "Eat Breakfast");
    assert_eq!(hits[1].1.text, "Shower");
    let hits = list.search_at(Some(String::from("a")), None, None, None, None, NOON);
    assert_eq!(indices(&hits), vec![0]);
}

#[test]
fn substring_search_is_case_sensitive() {
    let list = breakfast_list();
    let hits = list.search_at(Some(String::from("E")), None, None, None, None, NOON);
    assert_eq!(indices(&hits), vec![0]);
    let hits = list.search_at(Some(String::from("shower")), None, None, None, None, NOON);
    assert!(hits.is_empty());
}

#[test]
fn checked_search_on_breakfast_list() {
    let list = breakfast_list();
    let hits = list.search_at(None, Some(true), None, None, None, NOON);
    assert_eq!(indices(&hits), vec![1]);
    let hits = list.search_at(None, Some(false), None, None, None, NOON);
    assert_eq!(indices(&hits), vec![0, 2]);
}

#[test]
fn least_urgency_search_on_breakfast_list() {
    let list = breakfast_list();
    let hits = list.search_at(None, None, None, Some(Urgency::Normal), None, NOON);
    assert_eq!(indices(&hits), vec![1, 2]);
    assert_eq!(hits[0].1.urgency, Urgency::High);
    assert_eq!(hits[1].1.urgency, Urgency::Normal);
}

#[test]
fn criteria_are_combined_by_and() {
    let list = breakfast_list();
    let hits = list.search_at(Some(String::from("h")), Some(false), None, Some(Urgency::Normal), None, NOON);
    assert_eq!(indices(&hits), vec![2]);
    let hits = list.search_at(Some(String::from("h")), Some(true), None, None, None, NOON);
    assert_eq!(indices(&hits), vec![1]);
    let hits = list.search_at(Some(String::from("a")), Some(true), None, None, None, NOON);
    assert!(hits.is_empty());
}

#[test]
fn full_urgency_range_matches_everything() {
    let list = breakfast_list();
    let hits = list.search_at(None, None, None, Some(Urgency::Low), Some(Urgency::High), NOON);
    assert_eq!(indices(&hits), vec![0, 1, 2]);
}

#[test]
fn unconstrained_search_returns_independent_copies() {
    let list = breakfast_list();
    let mut hits = list.search_at(None, None, None, None, None, NOON);
    assert_eq!(indices(&hits), vec![0, 1, 2]);
    hits[0].1.text.push_str(" and coffee");
    hits[0].1.checked = true;
    let stored = list.get(0).unwrap();
    assert_eq!(stored.text, "Eat Breakfast");
    assert!(!stored.checked);
}

#[test]
fn empty_list_search_with_criteria_is_empty() {
    let list = TodoList::new();
    let limit = TimeDelta { secs: 10, nanos: 0 };
    let hits = list.search_at(Some(String::from("x")), Some(true), Some(limit), Some(Urgency::Low), Some(Urgency::High), NOON);
    assert!(hits.is_empty());
}

#[test]
fn items_without_due_date_never_meet_due_filter() {
    let list = breakfast_list();
    let huge = TimeDelta { secs: i64::MAX, nanos: 999_999_999 };
    let hits = list.search_at(None, None, Some(huge), None, None, NOON);
    assert_eq!(indices(&hits), vec![1]);
}

#[test]
fn due_filter_bound_is_inclusive() {
    let list = breakfast_list();
    let day = TimeDelta { secs: 86_400, nanos: 0 };
    assert_eq!(indices(&list.search_at(None, None, Some(day), None, None, NOON)), vec![1]);
    let just_under = TimeDelta { secs: 86_399, nanos: 999_999_999 };
    assert!(list.search_at(None, None, Some(just_under), None, None, NOON).is_empty());
}

#[test]
fn overdue_item_meets_zero_due_filter() {
    let list = breakfast_list();
    let later = Timestamp { secs: 1_000 + 2 * 86_400, nanos: 0 };
    let zero = TimeDelta { secs: 0, nanos: 0 };
    assert_eq!(indices(&list.search_at(None, None, Some(zero), None, None, later)), vec![1]);
    let minus_half = TimeDelta { secs: -1, nanos: 500_000_000 };
    assert_eq!(indices(&list.search_at(None, None, Some(minus_half), None, None, later)), vec![1]);
}

#[test]
fn negative_due_filter_excludes_items_not_yet_overdue() {
    let list = breakfast_list();
    let minus_one = TimeDelta { secs: -1, nanos: 0 };
    assert!(list.search_at(None, None, Some(minus_one), None, None, NOON).is_empty());
}

#[test]
fn index_equal_to_length_is_out_of_range() {
    let mut list = TodoList::new();
    let err = TodoError::IndexOutOfRange { index: 0, len: 0 };
    assert_eq!(list.get(0).unwrap_err(), err);
    assert_eq!(list.set_checked(0, true), Err(err));
    assert_eq!(list.set_due_at(0, None), Err(err));
    assert_eq!(list.set_text(0, String::from("x")), Err(err));
    assert_eq!(list.set_urgent(0, Urgency::High), Err(err));

    let mut list = breakfast_list();
    let err = TodoError::IndexOutOfRange { index: 3, len: 3 };
    assert_eq!(list.get(3).unwrap_err(), err);
    assert_eq!(list.set_checked(3, true), Err(err));
    assert_eq!(list.set_due_at(3, None), Err(err));
    assert_eq!(list.set_text(3, String::from("x")), Err(err));
    assert_eq!(list.set_urgent(3, Urgency::High), Err(err));
    assert_eq!(list.items.len(), 3);
}

#[test]
fn setters_change_only_their_field() {
    let mut list = breakfast_list();
    list.set_text(1, String::from("Bath")).unwrap();
    let item = list.get(1).unwrap();
    assert_eq!(item.text, "Bath");
    assert!(item.checked);
    assert_eq!(item.urgency, Urgency::High);
    list.set_due_at(1, None).unwrap();
    assert_eq!(list.get(1).unwrap().due_at, None);
    list.set_checked(1, false).unwrap();
    assert!(!list.get(1).unwrap().checked);
    assert_eq!(list.get(1).unwrap().text, "Bath");
}

#[test]
fn add_full_item_keeps_every_field() {
    let mut list = TodoList::new();
    let due = Timestamp { secs: -5, nanos: 7 };
    list.add_full_item(&Item { text: String::from("t"), checked: true, due_at: Some(due), urgency: Urgency::Low });
    let item = list.get(0).unwrap();
    assert_eq!(item.text, "t");
    assert!(item.checked);
    assert_eq!(item.due_at, Some(due));
    assert_eq!(item.urgency, Urgency::Low);
}

#[test]
fn substring_matching_on_characters() {
    let text = chars_of(&String::from("Café au lait"));
    assert_eq!(text.len(), 12);
    assert!(contains_chars(&text, &chars_of(&String::from("é a"))));
    assert!(contains_chars(&text, &chars_of(&String::new())));
    assert!(contains_chars(&text, &text.clone()));
    assert!(!contains_chars(&text, &chars_of(&String::from("lait!"))));
    assert!(!contains_chars(&chars_of(&String::new()), &chars_of(&String::from("a"))));
}

#[test]
fn empty_pattern_matches_every_item() {
    let list = breakfast_list();
    let hits = list.search_at(Some(String::new()), None, None, None, None, NOON);
    assert_eq!(indices(&hits), vec![0, 1, 2]);
}

#[test]
fn urgency_order_and_rank() {
    assert_eq!(Urgency::Low.rank(), 0);
    assert_eq!(Urgency::Normal.rank(), 1);
    assert_eq!(Urgency::High.rank(), 2);
    assert!(Urgency::Low < Urgency::High);
    assert!(Urgency::Normal <= Urgency::Normal);
    assert!(Urgency::High.at_least(&Urgency::Normal));
    assert!(!Urgency::Low.at_least(&Urgency::Normal));
    assert_eq!(Urgency::Low.partial_cmp(&Urgency::Normal), Some(std::cmp::Ordering::Less));
    assert_eq!(Urgency::High.cmp(&Urgency::Low), std::cmp::Ordering::Greater);
}

#[test]
fn time_arithmetic_in_nanoseconds() {
    let t = Timestamp { secs: -2, nanos: 500_000_000 };
    assert_eq!(t.as_nanos(), -1_500_000_000);
    let d = TimeDelta { secs: 3, nanos: 1 };
    assert_eq!(d.as_nanos(), 3_000_000_001);
    let due = Timestamp { secs: 10, nanos: 0 };
    let now = Timestamp { secs: 7, nanos: 0 };
    assert!(due.due_within(&now, &TimeDelta { secs: 3, nanos: 0 }));
    assert!(!due.due_within(&now, &TimeDelta { secs: 2, nanos: 999_999_999 }));
}

#[test]
fn clock_search_agrees_without_due_filter() {
    let list = breakfast_list();
    let a = list.search(Some(String::from("e")), None, None, None, None);
    assert_eq!(indices(&a), vec![0, 1]);
    let b = list.search(None, None, None, Some(Urgency::Normal), None);
    assert_eq!(indices(&b), vec![1, 2]);
}
