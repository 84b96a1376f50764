//! Client library for the TickTick Open API: typed models of remote
//! resources (projects, tasks, subtasks), request builders for the fixed
//! HTTP endpoints, and an OAuth2 authorization-code flow.
//!
//! The library itself performs no I/O: every operation is exposed as a
//! verified function that builds the exact request (URL, method, body) or
//! interprets a response value, so a thin unverified shell can carry the
//! bytes over the network.
use vstd::prelude::*;

pub mod auth;
pub mod builders;
pub mod datetime;
pub mod encoding;
pub mod json;
pub mod projects;
pub mod request;
pub mod tasks;

verus! {

pub use crate::auth::AccessToken;
pub use crate::auth::Authorization;
pub use crate::auth::AuthorizationError;
pub use crate::auth::AwaitingAuthCode;
pub use crate::auth::TokenRequest;

use crate::projects::{ProjectData, ProjectID};
use crate::request::{
    all_projects_url, project_data_url, project_url, spec_all_projects_url, spec_project_data_url,
    spec_project_url, spec_task_url, task_url, HttpMethod, HttpRequest,
};
use crate::tasks::{Task, TaskID};
use vstd::string::StrSliceExecFns;
use vstd::string::StringExecFns;

/// Errors that can occur while calling the TickTick API.
#[derive(Debug)]
pub enum TickTickError {
    /// Network failure, non-2xx response, or a client that could not be built.
    ClientError(String),
    /// A response body that does not match the expected schema.
    ResponseParseError(String),
}

/// Whether a character may appear in an HTTP header value: horizontal
/// tab or anything at or above the space, the delete control excluded.
pub open spec fn valid_header_char(c: char) -> bool {
    c == '\t' || (0x20 <= c as u32 && c as u32 != 0x7f)
}

/// Whether a string can stand in an HTTP header value.
pub open spec fn valid_token_text(s: Seq<char>) -> bool {
    forall|i: int| 0 <= i < s.len() ==> valid_header_char(s[i])
}

/// Handle for making calls to the TickTick API: it carries the access
/// token every request must present as a bearer credential. The
/// unverified shell that sends the requests builds its HTTP client
/// from `auth_header_value`.
#[derive(Debug, Clone)]
pub struct TickTick {
    pub access_token: String,
}

impl TickTick {
    /// Creates the API handle from an access token. The token must be
    /// usable inside an HTTP header; a token with a control character
    /// is rejected here, as no request could ever carry it.
    pub fn new(access_token: AccessToken) -> (r: Result<TickTick, TickTickError>)
        ensures
            valid_token_text(access_token.value@) ==> (r matches Ok(t) && t.access_token
                == access_token.value),
            !valid_token_text(access_token.value@) ==> (r matches Err(e) && e matches
                TickTickError::ClientError(_)),
    {
        let token = access_token.value.clone();
        let len = token.as_str().unicode_len();
        let mut i: usize = 0;
        while i < len
            invariant
                token == access_token.value,
                len == token@.len(),
                i <= len,
                forall|j: int| 0 <= j < i ==> valid_header_char(token@[j]),
            decreases len - i,
        {
            let c = token.as_str().get_char(i);
            let code: u32 = c as u32;
            if !(c == '\t' || (0x20 <= code && code != 0x7f)) {
                proof {
                    assert(!valid_header_char(token@[i as int]));
                    assert(!valid_token_text(access_token.value@));
                }
                return Err(
                    TickTickError::ClientError(
                        String::from_str("access token is not a valid header value"),
                    ),
                );
            }
            i = i + 1;
        }
        Ok(TickTick { access_token: token })
    }

    /// The value of the `Authorization` header every request carries.
    pub fn auth_header_value(&self) -> (r: String)
        ensures
            r@ == "Bearer "@ + self.access_token@,
    {
        let mut s = String::from_str("Bearer ");
        s.append(self.access_token.as_str());
        s
    }

    /// The request that fetches one task by project and task id.
    pub fn get_task_request(&self, project_id: &ProjectID, task_id: &TaskID) -> (r: HttpRequest)
        ensures
            r.method == HttpMethod::Get,
            r.url@ == spec_task_url(project_id.0@, task_id.0@),
            r.body is None,
    {
        HttpRequest { method: HttpMethod::Get, url: task_url(project_id, task_id), body: None }
    }

    /// The request that fetches one project by id.
    pub fn get_project_request(&self, project_id: &ProjectID) -> (r: HttpRequest)
        ensures
            r.method == HttpMethod::Get,
            r.url@ == spec_project_url(project_id.0@),
            r.body is None,
    {
        HttpRequest { method: HttpMethod::Get, url: project_url(project_id), body: None }
    }

    /// The request that fetches one project's tasks and columns.
    pub fn get_project_data_request(&self, project_id: &ProjectID) -> (r: HttpRequest)
        ensures
            r.method == HttpMethod::Get,
            r.url@ == spec_project_data_url(project_id.0@),
            r.body is None,
    {
        HttpRequest { method: HttpMethod::Get, url: project_data_url(project_id), body: None }
    }

    /// The request that lists every project of the account.
    pub fn get_all_projects_request(&self) -> (r: HttpRequest)
        ensures
            r.method == HttpMethod::Get,
            r.url@ == spec_all_projects_url(),
            r.body is None,
    {
        HttpRequest { method: HttpMethod::Get, url: all_projects_url(), body: None }
    }
}

/// The tasks of a list of project-data results, flattened in order:
/// every task of the first project, then of the second, and so on.
pub open spec fn spec_all_tasks(datas: Seq<ProjectData>) -> Seq<Task>
    decreases datas.len(),
{
    if datas.len() == 0 {
        Seq::empty()
    } else {
        datas[0].tasks@ + spec_all_tasks(datas.drop_first())
    }
}

proof fn lemma_spec_all_tasks_drop(datas: Seq<ProjectData>)
    requires
        datas.len() > 0,
    ensures
        spec_all_tasks(datas) == datas[0].tasks@ + spec_all_tasks(datas.drop_first()),
{
}

/// Concatenates the tasks of every fetched project, keeping the
/// project-list order and each project's own task order. This is the
/// collation step of "get all tasks across projects": the fetches
/// themselves happen one project at a time, and any failed fetch
/// aborts the whole operation before this step.
pub fn tasks_across_projects(datas: Vec<ProjectData>) -> (r: Vec<Task>)
    ensures
        r@ == spec_all_tasks(datas@),
{
    let ghost orig: Seq<ProjectData> = datas@;
    let mut rest = datas;
    let mut out: Vec<Task> = Vec::new();
    while rest.len() > 0
        invariant
            spec_all_tasks(orig) == out@ + spec_all_tasks(rest@),
        decreases rest@.len(),
    {
        let ghost before: Seq<ProjectData> = rest@;
        let mut pd = rest.remove(0);
        proof {
            assert(rest@ =~= before.drop_first());
            lemma_spec_all_tasks_drop(before);
        }
        out.append(&mut pd.tasks);
    }
    proof {
        assert(spec_all_tasks(rest@) == Seq::<Task>::empty());
        assert(out@ + Seq::<Task>::empty() =~= out@);
    }
    out
}

} // verus!
