use ticktick::datetime::Timestamp;
use ticktick::projects::{
    Column, ColumnID, GroupID, Project, ProjectData, ProjectID, ProjectKind,
    ProjectUserPermissions, ProjectViewMode,
};
use ticktick::request::HttpMethod;
use ticktick::tasks::{Subtask, SubtaskID, Task, TaskID, TaskStatus};

fn sample_task() -> Task {
    Task {
        id: TaskID(String::from("t1")),
        project_id: ProjectID(String::from("p1")),
        title: String::from("Groceries"),
        ..Task::default()
    }
}

#[test]
fn default_task_omits_empty_identifiers() {
    let body = Task::default().json_body();
    let v: serde_json::Value = serde_json::from_str(&body).unwrap();
    let obj = v.as_object().unwrap();
    assert!(obj.get("id").is_none());
    assert!(obj.get("projectId").is_none());
    // the 15 always-present members remain
    assert_eq!(obj.len(), 15);
    assert_eq!(v["title"], "");
    assert_eq!(v["status"], 0);
    assert_eq!(v["priority"], 0);
    assert_eq!(v["completedTime"], "1970-01-01T00:00:00+0000");
}

#[test]
fn task_with_identifiers_serializes_them_first() {
    let body = sample_task().json_body();
    assert!(body.starts_with("{\"id\":\"t1\",\"projectId\":\"p1\",\"title\":\"Groceries\""));
    let v: serde_json::Value = serde_json::from_str(&body).unwrap();
    assert_eq!(v.as_object().unwrap().len(), 17);
}

#[test]
fn task_subtasks_serialize_under_items() {
    let mut t = sample_task();
    t.subtasks = vec![Subtask {
        id: SubtaskID(String::from("s1")),
        title: String::from("milk"),
        status: ticktick::tasks::SubtaskStatus::Completed,
        completed_time: Timestamp::default(),
        is_all_day: false,
        sort_order: 2,
        start_date: Timestamp::default(),
        time_zone: String::from("UTC"),
    }];
    let v: serde_json::Value = serde_json::from_str(&t.json_body()).unwrap();
    let items = v["items"].as_array().unwrap();
    assert_eq!(items.len(), 1);
    assert_eq!(items[0]["id"], "s1");
    assert_eq!(items[0]["status"], 1);
    assert_eq!(items[0]["sortOrder"], 2);
}

#[test]
fn task_delete_request_targets_the_task() {
    let r = sample_task().delete_request();
    assert_eq!(r.method, HttpMethod::Delete);
    assert_eq!(r.url, "https://ticktick.com/open/v1/project/p1/task/t1");
    assert!(r.body.is_none());
}

#[test]
fn task_publish_request_posts_full_state() {
    let t = sample_task();
    let r = t.publish_changes_request();
    assert_eq!(r.method, HttpMethod::Post);
    assert_eq!(r.url, "https://ticktick.com/open/v1/task/t1");
    assert_eq!(r.body.unwrap(), t.json_body());
}

#[test]
fn complete_request_sets_local_status_before_sending() {
    let mut t = sample_task();
    assert_eq!(t.status, TaskStatus::Normal);
    let r = t.complete_request();
    assert_eq!(t.status, TaskStatus::Completed);
    assert_eq!(r.method, HttpMethod::Post);
    assert_eq!(
        r.url,
        "https://ticktick.com/open/v1/project/p1/task/t1/complete"
    );
    let v: serde_json::Value = serde_json::from_str(&r.body.unwrap()).unwrap();
    assert_eq!(v["status"], 2);
}

#[test]
fn task_get_id_returns_the_identifier() {
    let t = sample_task();
    assert_eq!(t.get_id().0, "t1");
}

fn sample_project() -> Project {
    Project {
        id: ProjectID(String::from("p1")),
        name: String::from("Work"),
        color: String::from("#F18181"),
        sort_order: 3,
        closed: false,
        group_id: GroupID(String::from("g1")),
        view_mode: ProjectViewMode::Kanban,
        permission: ProjectUserPermissions::Write,
        kind: ProjectKind::Task,
    }
}

#[test]
fn project_serializes_every_field_including_id() {
    let body = sample_project().json_body();
    assert_eq!(
        body,
        "{\"id\":\"p1\",\"name\":\"Work\",\"color\":\"#F18181\",\"sortOrder\":3,\
         \"closed\":false,\"groupId\":\"g1\",\"viewMode\":\"kanban\",\
         \"permission\":\"write\",\"kind\":\"TASK\"}"
    );
}

#[test]
fn default_project_still_serializes_its_empty_id() {
    let v: serde_json::Value =
        serde_json::from_str(&Project::default().json_body()).unwrap();
    assert_eq!(v["id"], "");
    assert_eq!(v["viewMode"], "list");
    assert_eq!(v["permission"], "read");
    assert_eq!(v["kind"], "TASK");
}

#[test]
fn project_publish_request_posts_full_state() {
    let p = sample_project();
    let r = p.publish_changes_request();
    assert_eq!(r.method, HttpMethod::Post);
    assert_eq!(r.url, "https://ticktick.com/open/v1/project/p1");
    assert_eq!(r.body.unwrap(), p.json_body());
}

#[test]
fn project_data_splits_into_tasks_and_columns() {
    let data = ProjectData {
        tasks: vec![sample_task()],
        columns: vec![Column {
            id: ColumnID(String::from("c1")),
            project_id: ProjectID(String::from("p1")),
            name: String::from("Doing"),
            sort_order: 0,
        }],
    };
    let tasks = data.clone().get_tasks();
    assert_eq!(tasks.len(), 1);
    assert_eq!(tasks[0].title, "Groceries");
    let columns = data.get_columns();
    assert_eq!(columns.len(), 1);
    assert_eq!(columns[0].name, "Doing");
}
