use ticktick::projects::{ColumnID, GroupID, ProjectID};
use ticktick::tasks::{SubtaskID, TaskID};

#[test]
fn default_identifiers_are_empty() {
    assert!(TaskID::default().is_empty());
    assert!(SubtaskID::default().is_empty());
    assert!(ProjectID::default().is_empty());
    assert!(GroupID::default().is_empty());
    assert!(ColumnID::default().is_empty());
}

#[test]
fn nonempty_identifiers_are_not_empty() {
    assert!(!TaskID(String::from("t1")).is_empty());
    assert!(!SubtaskID(String::from("s1")).is_empty());
    assert!(!ProjectID(String::from("p1")).is_empty());
    assert!(!GroupID(String::from("g1")).is_empty());
    assert!(!ColumnID(String::from("c1")).is_empty());
}

#[test]
fn identifiers_pass_the_string_through() {
    assert_eq!(TaskID(String::from("abc")).0, "abc");
    assert_eq!(ProjectID(String::from("inbox")).0, "inbox");
}
