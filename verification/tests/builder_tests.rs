use ticktick::builders::{ProjectBuilder, TaskBuilder};
use ticktick::datetime::Timestamp;
use ticktick::projects::{ProjectID, ProjectKind, ProjectViewMode};
use ticktick::tasks::{Subtask, SubtaskStatus, TaskPriority, TaskStatus};

fn key_count(body: &str) -> usize {
    let v: serde_json::Value = serde_json::from_str(body).unwrap();
    v.as_object().unwrap().len()
}

#[test]
fn minimal_task_builder_serializes_only_the_title() {
    let body = TaskBuilder::new(String::from("Groceries")).to_json_body();
    assert_eq!(body, "{\"title\":\"Groceries\"}");
    assert_eq!(key_count(&body), 1);
}

#[test]
fn each_task_setter_adds_exactly_one_member() {
    let base = TaskBuilder::new(String::from("t"));
    assert_eq!(key_count(&base.clone().to_json_body()), 1);
    let one = base.clone().content("notes");
    assert_eq!(key_count(&one.to_json_body()), 2);
    let two = base
        .clone()
        .project_id(ProjectID(String::from("p1")))
        .priority(TaskPriority::High);
    assert_eq!(key_count(&two.to_json_body()), 3);
    let many = base
        .clone()
        .project_id(ProjectID(String::from("p1")))
        .is_all_day(true)
        .content("c")
        .desc("d")
        .priority(TaskPriority::Low)
        .repeat_flag("RRULE:FREQ=DAILY")
        .sort_order(-5)
        .status(TaskStatus::Completed)
        .time_zone("America/Los_Angeles")
        .tags(vec![String::from("a"), String::from("b")]);
    assert_eq!(key_count(&many.to_json_body()), 11);
}

#[test]
fn task_builder_members_appear_in_wire_order() {
    let body = TaskBuilder::new(String::from("t"))
        .priority(TaskPriority::Medium)
        .project_id(ProjectID(String::from("p1")))
        .to_json_body();
    assert_eq!(body, "{\"title\":\"t\",\"projectId\":\"p1\",\"priority\":3}");
}

#[test]
fn task_builder_serializes_set_values_exactly() {
    let body = TaskBuilder::new(String::from("t"))
        .is_all_day(true)
        .sort_order(-5)
        .status(TaskStatus::Completed)
        .to_json_body();
    assert_eq!(
        body,
        "{\"title\":\"t\",\"isAllDay\":true,\"sortOrder\":-5,\"status\":2}"
    );
}

#[test]
fn task_builder_timestamps_use_the_wire_format() {
    let t = Timestamp {
        year: 2024,
        month: 2,
        day: 29,
        hour: 12,
        minute: 0,
        second: 1,
    };
    let body = TaskBuilder::new(String::from("t")).due_date(t).to_json_body();
    assert_eq!(
        body,
        "{\"title\":\"t\",\"dueDate\":\"2024-02-29T12:00:01+0000\"}"
    );
}

#[test]
fn task_builder_escapes_json_strings() {
    let body = TaskBuilder::new(String::from("a\"b\\c\nd")).to_json_body();
    assert_eq!(body, "{\"title\":\"a\\\"b\\\\c\\nd\"}");
    let v: serde_json::Value = serde_json::from_str(&body).unwrap();
    assert_eq!(v["title"], "a\"b\\c\nd");
}

#[test]
fn task_builder_escapes_control_characters() {
    let body = TaskBuilder::new(String::from("a\u{1}b\tc")).to_json_body();
    assert_eq!(body, "{\"title\":\"a\\u0001b\\tc\"}");
    let v: serde_json::Value = serde_json::from_str(&body).unwrap();
    assert_eq!(v["title"], "a\u{1}b\tc");
}

#[test]
fn task_builder_never_serializes_an_id() {
    let sub = Subtask {
        id: ticktick::tasks::SubtaskID(String::from("s9")),
        title: String::from("part"),
        status: SubtaskStatus::Completed,
        completed_time: Timestamp::default(),
        is_all_day: false,
        sort_order: 1,
        start_date: Timestamp::default(),
        time_zone: String::from("UTC"),
    };
    let body = TaskBuilder::new(String::from("t"))
        .project_id(ProjectID(String::from("p1")))
        .is_all_day(false)
        .completed_time(Timestamp::default())
        .content("c")
        .desc("d")
        .due_date(Timestamp::default())
        .subtasks(vec![sub])
        .priority(TaskPriority::High)
        .reminders(vec![String::from("TRIGGER:PT0S")])
        .repeat_flag("RRULE:FREQ=DAILY")
        .sort_order(7)
        .start_date(Timestamp::default())
        .status(TaskStatus::Normal)
        .time_zone("UTC")
        .tags(vec![String::from("x")])
        .to_json_body();
    let v: serde_json::Value = serde_json::from_str(&body).unwrap();
    assert!(v.as_object().unwrap().get("id").is_none());
    // the full builder sets every field: title plus 15 optionals
    assert_eq!(key_count(&body), 16);
}

#[test]
fn task_builder_subtasks_serialize_under_items() {
    let sub = Subtask {
        id: ticktick::tasks::SubtaskID::default(),
        title: String::from("part"),
        status: SubtaskStatus::Normal,
        completed_time: Timestamp::default(),
        is_all_day: true,
        sort_order: 0,
        start_date: Timestamp::default(),
        time_zone: String::from(""),
    };
    let body = TaskBuilder::new(String::from("t")).subtasks(vec![sub]).to_json_body();
    let v: serde_json::Value = serde_json::from_str(&body).unwrap();
    let items = v["items"].as_array().unwrap();
    assert_eq!(items.len(), 1);
    assert_eq!(items[0]["title"], "part");
    // the subtask's empty identifier is left out as well
    assert!(items[0].as_object().unwrap().get("id").is_none());
}

#[test]
fn empty_collections_are_left_out() {
    let body = TaskBuilder::new(String::from("t"))
        .subtasks(vec![])
        .reminders(vec![])
        .tags(vec![])
        .to_json_body();
    assert_eq!(body, "{\"title\":\"t\"}");
}

#[test]
fn minimal_project_builder_serializes_only_the_name() {
    let body = ProjectBuilder::new(String::from("Work")).to_json_body();
    assert_eq!(body, "{\"name\":\"Work\"}");
}

#[test]
fn each_project_setter_adds_exactly_one_member() {
    let body = ProjectBuilder::new(String::from("Work"))
        .color("#F18181")
        .view_mode(ProjectViewMode::Kanban)
        .kind(ProjectKind::Note)
        .to_json_body();
    assert_eq!(
        body,
        "{\"name\":\"Work\",\"color\":\"#F18181\",\"viewMode\":\"kanban\",\"kind\":\"NOTE\"}"
    );
    assert_eq!(key_count(&body), 4);
}

#[test]
fn builder_create_requests_use_the_collection_endpoints() {
    let tr = TaskBuilder::new(String::from("t")).create_request();
    assert_eq!(tr.url, "https://ticktick.com/open/v1/task");
    assert_eq!(tr.body.unwrap(), "{\"title\":\"t\"}");
    let pr = ProjectBuilder::new(String::from("p")).create_request();
    assert_eq!(pr.url, "https://ticktick.com/open/v1/project");
    assert_eq!(pr.body.unwrap(), "{\"name\":\"p\"}");
}

#[test]
fn builder_method_on_models() {
    let tb = ticktick::tasks::Task::builder("from task");
    assert_eq!(tb.to_json_body(), "{\"title\":\"from task\"}");
    let pb = ticktick::projects::Project::builder(String::from("from project"));
    assert_eq!(pb.to_json_body(), "{\"name\":\"from project\"}");
}

#[test]
fn sort_order_covers_the_full_i64_range() {
    let body = TaskBuilder::new(String::from("t"))
        .sort_order(i64::MIN)
        .to_json_body();
    assert_eq!(body, "{\"title\":\"t\",\"sortOrder\":-9223372036854775808}");
    let body = TaskBuilder::new(String::from("t"))
        .sort_order(i64::MAX)
        .to_json_body();
    assert_eq!(body, "{\"title\":\"t\",\"sortOrder\":9223372036854775807}");
    let body = TaskBuilder::new(String::from("t")).sort_order(0).to_json_body();
    assert_eq!(body, "{\"title\":\"t\",\"sortOrder\":0}");
}
