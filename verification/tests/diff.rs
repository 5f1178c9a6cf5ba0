//! Tests of the diff engine, over real wire-format messages.

use std::str::FromStr;

use domain::base::message_builder::MessageBuilder;
use domain::base::name::Name;
use domain::rdata::A;

use dnsi::diff::{diff_answers, Action, DiffItem};

fn name(s: &str) -> Name<Vec<u8>> {
    Name::from_str(s).unwrap()
}

/// A message whose answer section holds the given A records.
fn a_message(records: &[(&str, u32, [u8; 4])]) -> Vec<u8> {
    let msg = MessageBuilder::new_vec();
    let mut ans = msg.answer();
    for &(owner, ttl, [a, b, c, d]) in records {
        ans.push((name(owner), ttl, A::from_octets(a, b, c, d))).unwrap();
    }
    ans.finish()
}

fn key_text(item: &DiffItem) -> (String, u16, u16, String) {
    (
        String::from_utf8(item.key.owner.clone()).unwrap(),
        item.key.class,
        item.key.rtype,
        String::from_utf8(item.key.data.clone()).unwrap(),
    )
}

#[test]
fn diff_of_a_message_with_itself_is_no_difference() {
    let m = a_message(&[
        ("example.com", 3600, [93, 184, 216, 34]),
        ("www.example.com", 60, [192, 0, 2, 1]),
    ]);
    assert!(diff_answers(&m, &m).is_none());
}

#[test]
fn one_extra_record_yields_one_added_row_sorted() {
    let left = a_message(&[("example.com", 3600, [93, 184, 216, 34])]);
    let right = a_message(&[
        ("example.com", 3600, [93, 184, 216, 34]),
        ("example.com", 3600, [93, 184, 216, 35]),
    ]);
    let items = diff_answers(&left, &right).expect("an extra record is a difference");
    assert_eq!(items.len(), 2);
    assert_eq!(items[0].action, Action::Unchanged);
    assert_eq!(
        key_text(&items[0]),
        ("example.com".to_string(), 1, 1, "93.184.216.34".to_string())
    );
    assert_eq!(items[1].action, Action::Added);
    assert_eq!(
        key_text(&items[1]),
        ("example.com".to_string(), 1, 1, "93.184.216.35".to_string())
    );
}

#[test]
fn removed_records_are_classified_and_interleaved_by_key() {
    let left = a_message(&[
        ("a.example.com", 60, [10, 0, 0, 1]),
        ("c.example.com", 60, [10, 0, 0, 3]),
    ]);
    let right = a_message(&[
        ("b.example.com", 60, [10, 0, 0, 2]),
        ("c.example.com", 60, [10, 0, 0, 3]),
    ]);
    let items = diff_answers(&left, &right).expect("differences exist");
    assert_eq!(items.len(), 3);
    assert_eq!(items[0].action, Action::Removed);
    assert_eq!(key_text(&items[0]).0, "a.example.com");
    assert_eq!(items[1].action, Action::Added);
    assert_eq!(key_text(&items[1]).0, "b.example.com");
    assert_eq!(items[2].action, Action::Unchanged);
    assert_eq!(key_text(&items[2]).0, "c.example.com");
}

#[test]
fn ttl_only_differences_are_no_difference() {
    let left = a_message(&[
        ("example.com", 3600, [93, 184, 216, 34]),
        ("www.example.com", 3600, [192, 0, 2, 1]),
    ]);
    let right = a_message(&[
        ("example.com", 60, [93, 184, 216, 34]),
        ("www.example.com", 1, [192, 0, 2, 1]),
    ]);
    assert!(diff_answers(&left, &right).is_none());
}

#[test]
fn owner_case_does_not_distinguish_records() {
    let left = a_message(&[("EXAMPLE.com", 3600, [93, 184, 216, 34])]);
    let right = a_message(&[("example.COM", 3600, [93, 184, 216, 34])]);
    assert!(diff_answers(&left, &right).is_none());
}

#[test]
fn duplicate_records_collapse_as_a_set() {
    let left = a_message(&[
        ("example.com", 3600, [93, 184, 216, 34]),
        ("example.com", 3600, [93, 184, 216, 34]),
    ]);
    let right = a_message(&[("example.com", 3600, [93, 184, 216, 34])]);
    assert!(diff_answers(&left, &right).is_none());
}

#[test]
fn an_unparseable_side_counts_as_empty() {
    let garbage = vec![1u8, 2, 3];
    let right = a_message(&[("example.com", 3600, [93, 184, 216, 34])]);
    let items = diff_answers(&garbage, &right).expect("one side holds a record");
    assert_eq!(items.len(), 1);
    assert_eq!(items[0].action, Action::Added);
    assert!(diff_answers(&garbage, &garbage).is_none());
}
