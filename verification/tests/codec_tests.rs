use ticktick::projects::{ProjectKind, ProjectUserPermissions, ProjectViewMode};
use ticktick::tasks::{SubtaskStatus, TaskPriority, TaskStatus};

#[test]
fn priority_round_trip_all_variants() {
    for p in [
        TaskPriority::Unset,
        TaskPriority::Low,
        TaskPriority::Medium,
        TaskPriority::High,
    ] {
        assert_eq!(TaskPriority::decode(p.code()), Some(p));
    }
}

#[test]
fn priority_codes_are_exact() {
    assert_eq!(TaskPriority::Unset.code(), 0);
    assert_eq!(TaskPriority::Low.code(), 1);
    assert_eq!(TaskPriority::Medium.code(), 3);
    assert_eq!(TaskPriority::High.code(), 5);
}

#[test]
fn priority_unknown_codes_fail() {
    assert_eq!(TaskPriority::decode(2), None);
    assert_eq!(TaskPriority::decode(4), None);
    assert_eq!(TaskPriority::decode(6), None);
    assert_eq!(TaskPriority::decode(255), None);
}

#[test]
fn task_status_round_trip_all_variants() {
    for s in [TaskStatus::Normal, TaskStatus::Completed] {
        assert_eq!(TaskStatus::decode(s.code()), Some(s));
    }
    assert_eq!(TaskStatus::Normal.code(), 0);
    assert_eq!(TaskStatus::Completed.code(), 2);
}

#[test]
fn task_status_unknown_codes_fail() {
    assert_eq!(TaskStatus::decode(1), None);
    assert_eq!(TaskStatus::decode(3), None);
}

#[test]
fn subtask_status_round_trip_all_variants() {
    for s in [SubtaskStatus::Normal, SubtaskStatus::Completed] {
        assert_eq!(SubtaskStatus::decode(s.code()), Some(s));
    }
    assert_eq!(SubtaskStatus::Normal.code(), 0);
    assert_eq!(SubtaskStatus::Completed.code(), 1);
}

#[test]
fn subtask_status_unknown_codes_fail() {
    assert_eq!(SubtaskStatus::decode(2), None);
    assert_eq!(SubtaskStatus::decode(200), None);
}

#[test]
fn view_mode_round_trip_all_variants() {
    for v in [
        ProjectViewMode::List,
        ProjectViewMode::Kanban,
        ProjectViewMode::Timeline,
    ] {
        assert_eq!(ProjectViewMode::decode(v.text()), v);
    }
    assert_eq!(ProjectViewMode::List.text(), "list");
    assert_eq!(ProjectViewMode::Kanban.text(), "kanban");
    assert_eq!(ProjectViewMode::Timeline.text(), "timeline");
}

#[test]
fn view_mode_unknown_decodes_to_default() {
    assert_eq!(ProjectViewMode::decode("grid"), ProjectViewMode::List);
    assert_eq!(ProjectViewMode::decode(""), ProjectViewMode::List);
    assert_eq!(ProjectViewMode::decode("LIST"), ProjectViewMode::List);
}

#[test]
fn view_mode_from_string() {
    assert_eq!(
        ProjectViewMode::from(String::from("kanban")),
        ProjectViewMode::Kanban
    );
    assert_eq!(
        ProjectViewMode::from(String::from("anything")),
        ProjectViewMode::List
    );
}

#[test]
fn permission_round_trip_all_variants() {
    for p in [
        ProjectUserPermissions::Read,
        ProjectUserPermissions::Write,
        ProjectUserPermissions::Comment,
    ] {
        assert_eq!(ProjectUserPermissions::decode(p.text()), p);
    }
    assert_eq!(ProjectUserPermissions::Read.text(), "read");
    assert_eq!(ProjectUserPermissions::Write.text(), "write");
    assert_eq!(ProjectUserPermissions::Comment.text(), "comment");
}

#[test]
fn permission_unknown_decodes_to_default() {
    assert_eq!(
        ProjectUserPermissions::decode("admin"),
        ProjectUserPermissions::Read
    );
    assert_eq!(
        ProjectUserPermissions::from(String::from("owner")),
        ProjectUserPermissions::Read
    );
}

#[test]
fn kind_round_trip_all_variants() {
    for k in [ProjectKind::Task, ProjectKind::Note] {
        assert_eq!(ProjectKind::decode(k.text()), k);
    }
    assert_eq!(ProjectKind::Task.text(), "TASK");
    assert_eq!(ProjectKind::Note.text(), "NOTE");
}

#[test]
fn kind_unknown_decodes_to_default() {
    assert_eq!(ProjectKind::decode("task"), ProjectKind::Task);
    assert_eq!(ProjectKind::decode("NOTEBOOK"), ProjectKind::Task);
    assert_eq!(ProjectKind::from(String::from("note")), ProjectKind::Task);
}

#[test]
fn enum_defaults() {
    assert_eq!(TaskPriority::default(), TaskPriority::Unset);
    assert_eq!(TaskStatus::default(), TaskStatus::Normal);
    assert_eq!(SubtaskStatus::default(), SubtaskStatus::Normal);
    assert_eq!(ProjectViewMode::default(), ProjectViewMode::List);
    assert_eq!(ProjectUserPermissions::default(), ProjectUserPermissions::Read);
    assert_eq!(ProjectKind::default(), ProjectKind::Task);
}
