use ticktick::projects::{ProjectData, ProjectID};
use ticktick::request::HttpMethod;
use ticktick::tasks::{Task, TaskID};
use ticktick::{AccessToken, TickTick, TickTickError};

fn token(value: &str) -> AccessToken {
    AccessToken {
        value: String::from(value),
        token_type: String::from("bearer"),
        expires_in: 15552000,
        scope: String::from("tasks:read tasks:write"),
    }
}

#[test]
fn new_accepts_a_plain_token() {
    let t = TickTick::new(token("abc123")).unwrap();
    assert_eq!(t.auth_header_value(), "Bearer abc123");
}

#[test]
fn new_rejects_a_token_with_control_characters() {
    let r = TickTick::new(token("abc\ndef"));
    assert!(matches!(r, Err(TickTickError::ClientError(_))));
    let r = TickTick::new(token("abc\u{7f}"));
    assert!(matches!(r, Err(TickTickError::ClientError(_))));
}

#[test]
fn request_urls_are_the_fixed_endpoints() {
    let t = TickTick::new(token("abc")).unwrap();
    let pid = ProjectID(String::from("p1"));
    let tid = TaskID(String::from("t1"));

    let r = t.get_task_request(&pid, &tid);
    assert_eq!(r.method, HttpMethod::Get);
    assert_eq!(r.url, "https://ticktick.com/open/v1/project/p1/task/t1");

    let r = t.get_project_request(&pid);
    assert_eq!(r.url, "https://ticktick.com/open/v1/project/p1");

    let r = t.get_project_data_request(&pid);
    assert_eq!(r.url, "https://ticktick.com/open/v1/project/p1/data");

    let r = t.get_all_projects_request();
    assert_eq!(r.url, "https://ticktick.com/open/v1/project/");
    assert!(r.body.is_none());
}

fn named_task(title: &str) -> Task {
    Task {
        title: String::from(title),
        ..Task::default()
    }
}

#[test]
fn tasks_across_projects_keeps_project_order() {
    let first = ProjectData {
        tasks: vec![named_task("a"), named_task("b"), named_task("c")],
        columns: vec![],
    };
    let second = ProjectData {
        tasks: vec![],
        columns: vec![],
    };
    let all = ticktick::tasks_across_projects(vec![first, second]);
    assert_eq!(all.len(), 3);
    assert_eq!(all[0].title, "a");
    assert_eq!(all[1].title, "b");
    assert_eq!(all[2].title, "c");
}

#[test]
fn tasks_across_projects_interleaves_nothing() {
    let first = ProjectData {
        tasks: vec![named_task("x")],
        columns: vec![],
    };
    let second = ProjectData {
        tasks: vec![named_task("y"), named_task("z")],
        columns: vec![],
    };
    let all = ticktick::tasks_across_projects(vec![first, second]);
    let titles: Vec<&str> = all.iter().map(|t| t.title.as_str()).collect();
    assert_eq!(titles, vec!["x", "y", "z"]);
}

#[test]
fn tasks_across_projects_of_nothing_is_empty() {
    let all = ticktick::tasks_across_projects(vec![]);
    assert!(all.is_empty());
}
