//! Plain descriptions of the HTTP requests the library issues: method,
//! fixed endpoint URL, and an optional JSON body. The library only
//! describes requests; an unverified shell carries them.
use crate::projects::ProjectID;
use crate::tasks::TaskID;
use vstd::prelude::*;
use vstd::string::StringExecFns;

verus! {

/// The HTTP methods the service's endpoints use.
#[derive(Debug, Clone, Copy, PartialEq, Eq, Structural)]
pub enum HttpMethod {
    Get,
    Post,
    Delete,
}

/// One fully-determined HTTP request against the service.
#[derive(Debug, Clone)]
pub struct HttpRequest {
    pub method: HttpMethod,
    pub url: String,
    pub body: Option<String>,
}

/// The task endpoint of one task within a project.
pub open spec fn spec_task_url(pid: Seq<char>, tid: Seq<char>) -> Seq<char> {
    "https://ticktick.com/open/v1/project/"@ + pid + "/task/"@ + tid
}

/// The endpoint of one project.
pub open spec fn spec_project_url(pid: Seq<char>) -> Seq<char> {
    "https://ticktick.com/open/v1/project/"@ + pid
}

/// The project-with-data endpoint of one project.
pub open spec fn spec_project_data_url(pid: Seq<char>) -> Seq<char> {
    "https://ticktick.com/open/v1/project/"@ + pid + "/data"@
}

/// The collection endpoint listing every project.
pub open spec fn spec_all_projects_url() -> Seq<char> {
    "https://ticktick.com/open/v1/project/"@
}

/// The collection endpoint tasks are created against.
pub open spec fn spec_task_create_url() -> Seq<char> {
    "https://ticktick.com/open/v1/task"@
}

/// The update endpoint of one task.
pub open spec fn spec_task_update_url(tid: Seq<char>) -> Seq<char> {
    "https://ticktick.com/open/v1/task/"@ + tid
}

/// The completion endpoint of one task within a project.
pub open spec fn spec_task_complete_url(pid: Seq<char>, tid: Seq<char>) -> Seq<char> {
    "https://ticktick.com/open/v1/project/"@ + pid + "/task/"@ + tid + "/complete"@
}

/// The collection endpoint projects are created against.
pub open spec fn spec_project_create_url() -> Seq<char> {
    "https://ticktick.com/open/v1/project"@
}

pub fn task_url(pid: &ProjectID, tid: &TaskID) -> (r: String)
    ensures
        r@ == spec_task_url(pid.0@, tid.0@),
{
    let mut s = String::from_str("https://ticktick.com/open/v1/project/");
    s.append(pid.0.as_str());
    s.append("/task/");
    s.append(tid.0.as_str());
    s
}

pub fn project_url(pid: &ProjectID) -> (r: String)
    ensures
        r@ == spec_project_url(pid.0@),
{
    let mut s = String::from_str("https://ticktick.com/open/v1/project/");
    s.append(pid.0.as_str());
    s
}

pub fn project_data_url(pid: &ProjectID) -> (r: String)
    ensures
        r@ == spec_project_data_url(pid.0@),
{
    let mut s = String::from_str("https://ticktick.com/open/v1/project/");
    s.append(pid.0.as_str());
    s.append("/data");
    s
}

pub fn all_projects_url() -> (r: String)
    ensures
        r@ == spec_all_projects_url(),
{
    String::from_str("https://ticktick.com/open/v1/project/")
}

pub fn task_create_url() -> (r: String)
    ensures
        r@ == spec_task_create_url(),
{
    String::from_str("https://ticktick.com/open/v1/task")
}

pub fn task_update_url(tid: &TaskID) -> (r: String)
    ensures
        r@ == spec_task_update_url(tid.0@),
{
    let mut s = String::from_str("https://ticktick.com/open/v1/task/");
    s.append(tid.0.as_str());
    s
}

pub fn task_complete_url(pid: &ProjectID, tid: &TaskID) -> (r: String)
    ensures
        r@ == spec_task_complete_url(pid.0@, tid.0@),
{
    let mut s = task_url(pid, tid);
    s.append("/complete");
    s
}

pub fn project_create_url() -> (r: String)
    ensures
        r@ == spec_project_create_url(),
{
    String::from_str("https://ticktick.com/open/v1/project")
}

} // verus!
