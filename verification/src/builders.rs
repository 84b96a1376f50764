//! Builders for tasks and projects: setters accumulate optional fields,
//! and the creation request serializes exactly the fields that were set,
//! leaving unset optionals and empty collections out of the payload.
use crate::datetime::{format_datetime, wire_format, Timestamp};
use crate::encoding::{dec_int, i64_to_dec, json_string, emit_json_string};
use crate::json::{
    json_array, json_bool, json_object, emit_json_bool, emit_json_object, members_view, JsonMember,
};
use crate::projects::{ProjectID, ProjectKind, ProjectViewMode};
use crate::request::{
    project_create_url, spec_project_create_url, spec_task_create_url, task_create_url, HttpMethod,
    HttpRequest,
};
use crate::tasks::{
    string_array_json, subtask_array_json, subtask_members, Subtask, TaskPriority, TaskStatus,
};
use vstd::prelude::*;
use vstd::string::StringExecFns;

verus! {

/// Builder for a TickTick task; `create_request` yields the request
/// that publishes it.
#[derive(Debug, Clone)]
pub struct TaskBuilder {
    pub title: String,
    pub project_id: Option<ProjectID>,
    pub is_all_day: Option<bool>,
    pub completed_time: Option<Timestamp>,
    pub content: Option<String>,
    pub desc: Option<String>,
    pub due_date: Option<Timestamp>,
    pub subtasks: Vec<Subtask>,
    pub priority: Option<TaskPriority>,
    pub reminders: Vec<String>,
    pub repeat_flag: Option<String>,
    pub sort_order: Option<i64>,
    pub start_date: Option<Timestamp>,
    pub status: Option<TaskStatus>,
    pub time_zone: Option<String>,
    pub tags: Vec<String>,
}

impl TaskBuilder {
    /// Well-formedness: every timestamp that has been set is a real
    /// calendar value.
    pub open spec fn wf(self) -> bool {
        &&& (self.completed_time matches Some(t) ==> t.valid())
        &&& (self.due_date matches Some(t) ==> t.valid())
        &&& (self.start_date matches Some(t) ==> t.valid())
        &&& forall|i: int| 0 <= i < self.subtasks@.len() ==> self.subtasks@[i].wf()
    }

    pub open spec fn member_title(self) -> Seq<JsonMember> {
        seq![("title"@, json_string(self.title@))]
    }

    pub open spec fn member_project_id(self) -> Seq<JsonMember> {
        match self.project_id {
            Some(v) => seq![("projectId"@, json_string(v.0@))],
            None => Seq::empty(),
        }
    }

    pub open spec fn member_is_all_day(self) -> Seq<JsonMember> {
        match self.is_all_day {
            Some(v) => seq![("isAllDay"@, json_bool(v))],
            None => Seq::empty(),
        }
    }

    pub open spec fn member_completed_time(self) -> Seq<JsonMember> {
        match self.completed_time {
            Some(t) => seq![("completedTime"@, json_string(wire_format(t)))],
            None => Seq::empty(),
        }
    }

    pub open spec fn member_content(self) -> Seq<JsonMember> {
        match self.content {
            Some(s) => seq![("content"@, json_string(s@))],
            None => Seq::empty(),
        }
    }

    pub open spec fn member_desc(self) -> Seq<JsonMember> {
        match self.desc {
            Some(s) => seq![("desc"@, json_string(s@))],
            None => Seq::empty(),
        }
    }

    pub open spec fn member_due_date(self) -> Seq<JsonMember> {
        match self.due_date {
            Some(t) => seq![("dueDate"@, json_string(wire_format(t)))],
            None => Seq::empty(),
        }
    }

    pub open spec fn member_subtasks(self) -> Seq<JsonMember> {
        if self.subtasks@.len() > 0 {
            seq![
                (
                    "items"@,
                    json_array(
                        self.subtasks@.map_values(|s: Subtask| json_object(subtask_members(s))),
                    ),
                ),
            ]
        } else {
            Seq::empty()
        }
    }

    pub open spec fn member_priority(self) -> Seq<JsonMember> {
        match self.priority {
            Some(p) => seq![("priority"@, dec_int(p.spec_code() as int))],
            None => Seq::empty(),
        }
    }

    pub open spec fn member_reminders(self) -> Seq<JsonMember> {
        if self.reminders@.len() > 0 {
            seq![("reminders"@, json_array(self.reminders@.map_values(|s: String| json_string(s@))))]
        } else {
            Seq::empty()
        }
    }

    pub open spec fn member_repeat_flag(self) -> Seq<JsonMember> {
        match self.repeat_flag {
            Some(s) => seq![("repeatFlag"@, json_string(s@))],
            None => Seq::empty(),
        }
    }

    pub open spec fn member_sort_order(self) -> Seq<JsonMember> {
        match self.sort_order {
            Some(n) => seq![("sortOrder"@, dec_int(n as int))],
            None => Seq::empty(),
        }
    }

    pub open spec fn member_start_date(self) -> Seq<JsonMember> {
        match self.start_date {
            Some(t) => seq![("startDate"@, json_string(wire_format(t)))],
            None => Seq::empty(),
        }
    }

    pub open spec fn member_status(self) -> Seq<JsonMember> {
        match self.status {
            Some(s) => seq![("status"@, dec_int(s.spec_code() as int))],
            None => Seq::empty(),
        }
    }

    pub open spec fn member_time_zone(self) -> Seq<JsonMember> {
        match self.time_zone {
            Some(s) => seq![("timeZone"@, json_string(s@))],
            None => Seq::empty(),
        }
    }

    pub open spec fn member_tags(self) -> Seq<JsonMember> {
        if self.tags@.len() > 0 {
            seq![("tags"@, json_array(self.tags@.map_values(|s: String| json_string(s@))))]
        } else {
            Seq::empty()
        }
    }
}

/// The members of the JSON object a task builder serializes to, in
/// wire order: the required title, then exactly the optional fields
/// that were set, unset optionals and empty collections left out.
pub open spec fn task_builder_members(b: TaskBuilder) -> Seq<JsonMember> {
    b.member_title() + b.schedule_members() + b.detail_members() + b.trailing_members()
}

/// The number of optional fields of a task builder that are set.
pub open spec fn task_builder_set_count(b: TaskBuilder) -> int {
    (if b.project_id is Some {
        1int
    } else {
        0int
    }) + (if b.is_all_day is Some {
        1int
    } else {
        0int
    }) + (if b.completed_time is Some {
        1int
    } else {
        0int
    }) + (if b.content is Some {
        1int
    } else {
        0int
    }) + (if b.desc is Some {
        1int
    } else {
        0int
    }) + (if b.due_date is Some {
        1int
    } else {
        0int
    }) + (if b.subtasks@.len() > 0 {
        1int
    } else {
        0int
    }) + (if b.priority is Some {
        1int
    } else {
        0int
    }) + (if b.reminders@.len() > 0 {
        1int
    } else {
        0int
    }) + (if b.repeat_flag is Some {
        1int
    } else {
        0int
    }) + (if b.sort_order is Some {
        1int
    } else {
        0int
    }) + (if b.start_date is Some {
        1int
    } else {
        0int
    }) + (if b.status is Some {
        1int
    } else {
        0int
    }) + (if b.time_zone is Some {
        1int
    } else {
        0int
    }) + (if b.tags@.len() > 0 {
        1int
    } else {
        0int
    })
}

proof fn lemma_schedule_members_len(b: TaskBuilder)
    ensures
        b.schedule_members().len() == (if b.project_id is Some {
            1int
        } else {
            0int
        }) + (if b.is_all_day is Some {
            1int
        } else {
            0int
        }) + (if b.completed_time is Some {
            1int
        } else {
            0int
        }) + (if b.content is Some {
            1int
        } else {
            0int
        }) + (if b.desc is Some {
            1int
        } else {
            0int
        }) + (if b.due_date is Some {
            1int
        } else {
            0int
        }),
{
}

proof fn lemma_detail_members_len(b: TaskBuilder)
    ensures
        b.detail_members().len() == (if b.subtasks@.len() > 0 {
            1int
        } else {
            0int
        }) + (if b.priority is Some {
            1int
        } else {
            0int
        }) + (if b.reminders@.len() > 0 {
            1int
        } else {
            0int
        }) + (if b.repeat_flag is Some {
            1int
        } else {
            0int
        }),
{
}

proof fn lemma_trailing_members_len(b: TaskBuilder)
    ensures
        b.trailing_members().len() == (if b.sort_order is Some {
            1int
        } else {
            0int
        }) + (if b.start_date is Some {
            1int
        } else {
            0int
        }) + (if b.status is Some {
            1int
        } else {
            0int
        }) + (if b.time_zone is Some {
            1int
        } else {
            0int
        }) + (if b.tags@.len() > 0 {
            1int
        } else {
            0int
        }),
{
}

/// A task builder serializes to one member for the required title plus
/// one member for each optional field that is set: setting a
/// previously-unset field adds exactly one member to the payload.
#[verifier::rlimit(100)]
pub proof fn lemma_task_builder_member_count(b: TaskBuilder)
    ensures
        task_builder_members(b).len() == 1 + task_builder_set_count(b),
{
    lemma_schedule_members_len(b);
    lemma_detail_members_len(b);
    lemma_trailing_members_len(b);
    assert(b.member_title().len() == 1);
}

/// A task builder with nothing but the required title serializes to an
/// object whose only member is the title.
pub proof fn lemma_task_builder_minimal(b: TaskBuilder)
    requires
        b.project_id is None,
        b.is_all_day is None,
        b.completed_time is None,
        b.content is None,
        b.desc is None,
        b.due_date is None,
        b.subtasks@.len() == 0,
        b.priority is None,
        b.reminders@.len() == 0,
        b.repeat_flag is None,
        b.sort_order is None,
        b.start_date is None,
        b.status is None,
        b.time_zone is None,
        b.tags@.len() == 0,
    ensures
        task_builder_members(b) == seq![("title"@, json_string(b.title@))],
{
    assert(task_builder_members(b) =~= seq![("title"@, json_string(b.title@))]);
}

impl TaskBuilder {
    /// A fresh builder with only the required title set.
    pub fn new(title: String) -> (r: Self)
        ensures
            r.title == title,
            r.project_id is None,
            r.is_all_day is None,
            r.completed_time is None,
            r.content is None,
            r.desc is None,
            r.due_date is None,
            r.subtasks@ == Seq::<Subtask>::empty(),
            r.priority is None,
            r.reminders@ == Seq::<String>::empty(),
            r.repeat_flag is None,
            r.sort_order is None,
            r.start_date is None,
            r.status is None,
            r.time_zone is None,
            r.tags@ == Seq::<String>::empty(),
    {
        TaskBuilder {
            title,
            project_id: None,
            is_all_day: None,
            completed_time: None,
            content: None,
            desc: None,
            due_date: None,
            subtasks: Vec::new(),
            priority: None,
            reminders: Vec::new(),
            repeat_flag: None,
            sort_order: None,
            start_date: None,
            status: None,
            time_zone: None,
            tags: Vec::new(),
        }
    }

    pub fn title(self, value: &str) -> (r: Self)
        ensures
            r == (TaskBuilder { title: r.title, ..self }),
            r.title@ == value@,
    {
        TaskBuilder { title: String::from_str(value), ..self }
    }

    pub fn project_id(self, value: ProjectID) -> (r: Self)
        ensures
            r == (TaskBuilder { project_id: Some(value), ..self }),
    {
        TaskBuilder { project_id: Some(value), ..self }
    }

    pub fn is_all_day(self, value: bool) -> (r: Self)
        ensures
            r == (TaskBuilder { is_all_day: Some(value), ..self }),
    {
        TaskBuilder { is_all_day: Some(value), ..self }
    }

    pub fn completed_time(self, value: Timestamp) -> (r: Self)
        ensures
            r == (TaskBuilder { completed_time: Some(value), ..self }),
    {
        TaskBuilder { completed_time: Some(value), ..self }
    }

    pub fn content(self, value: &str) -> (r: Self)
        ensures
            r == (TaskBuilder { content: r.content, ..self }),
            r.content matches Some(s) && s@ == value@,
    {
        TaskBuilder { content: Some(String::from_str(value)), ..self }
    }

    pub fn desc(self, value: &str) -> (r: Self)
        ensures
            r == (TaskBuilder { desc: r.desc, ..self }),
            r.desc matches Some(s) && s@ == value@,
    {
        TaskBuilder { desc: Some(String::from_str(value)), ..self }
    }

    pub fn due_date(self, value: Timestamp) -> (r: Self)
        ensures
            r == (TaskBuilder { due_date: Some(value), ..self }),
    {
        TaskBuilder { due_date: Some(value), ..self }
    }

    pub fn subtasks(self, value: Vec<Subtask>) -> (r: Self)
        ensures
            r == (TaskBuilder { subtasks: value, ..self }),
    {
        TaskBuilder { subtasks: value, ..self }
    }

    pub fn priority(self, value: TaskPriority) -> (r: Self)
        ensures
            r == (TaskBuilder { priority: Some(value), ..self }),
    {
        TaskBuilder { priority: Some(value), ..self }
    }

    pub fn reminders(self, value: Vec<String>) -> (r: Self)
        ensures
            r == (TaskBuilder { reminders: value, ..self }),
    {
        TaskBuilder { reminders: value, ..self }
    }

    pub fn repeat_flag(self, value: &str) -> (r: Self)
        ensures
            r == (TaskBuilder { repeat_flag: r.repeat_flag, ..self }),
            r.repeat_flag matches Some(s) && s@ == value@,
    {
        TaskBuilder { repeat_flag: Some(String::from_str(value)), ..self }
    }

    pub fn sort_order(self, value: i64) -> (r: Self)
        ensures
            r == (TaskBuilder { sort_order: Some(value), ..self }),
    {
        TaskBuilder { sort_order: Some(value), ..self }
    }

    pub fn start_date(self, value: Timestamp) -> (r: Self)
        ensures
            r == (TaskBuilder { start_date: Some(value), ..self }),
    {
        TaskBuilder { start_date: Some(value), ..self }
    }

    pub fn status(self, value: TaskStatus) -> (r: Self)
        ensures
            r == (TaskBuilder { status: Some(value), ..self }),
    {
        TaskBuilder { status: Some(value), ..self }
    }

    pub fn time_zone(self, value: &str) -> (r: Self)
        ensures
            r == (TaskBuilder { time_zone: r.time_zone, ..self }),
            r.time_zone matches Some(s) && s@ == value@,
    {
        TaskBuilder { time_zone: Some(String::from_str(value)), ..self }
    }

    pub fn tags(self, value: Vec<String>) -> (r: Self)
        ensures
            r == (TaskBuilder { tags: value, ..self }),
    {
        TaskBuilder { tags: value, ..self }
    }

    /// The members contributed by the assignment and scheduling
    /// fields, in wire order.
    pub open spec fn schedule_members(self) -> Seq<JsonMember> {
        self.member_project_id() + self.member_is_all_day() + self.member_completed_time()
            + self.member_content() + self.member_desc() + self.member_due_date()
    }

    /// The members contributed by the subtask, priority and reminder
    /// fields, in wire order.
    pub open spec fn detail_members(self) -> Seq<JsonMember> {
        self.member_subtasks() + self.member_priority() + self.member_reminders()
            + self.member_repeat_flag()
    }

    /// The members contributed by the ordering, status, zone and tag
    /// fields, in wire order.
    pub open spec fn trailing_members(self) -> Seq<JsonMember> {
        self.member_sort_order() + self.member_start_date() + self.member_status()
            + self.member_time_zone() + self.member_tags()
    }

    #[verifier::rlimit(100)]
    fn push_schedule_fields(&self, ps: &mut Vec<(String, String)>)
        requires
            self.wf(),
        ensures
            members_view(final(ps)@) == members_view(old(ps)@) + self.schedule_members(),
    {
        let ghost s1 = members_view(ps@);
        if let Some(v) = &self.project_id {
            ps.push((String::from_str("projectId"), emit_json_string(v.0.as_str())));
        }
        proof {
            assert(members_view(ps@) =~= s1 + self.member_project_id());
        }
        let ghost s2 = members_view(ps@);
        if let Some(v) = &self.is_all_day {
            ps.push((String::from_str("isAllDay"), emit_json_bool(*v)));
        }
        proof {
            assert(members_view(ps@) =~= s2 + self.member_is_all_day());
        }
        let ghost s3 = members_view(ps@);
        if let Some(t) = &self.completed_time {
            ps.push(
                (
                    String::from_str("completedTime"),
                    emit_json_string(format_datetime(*t).as_str()),
                ),
            );
        }
        proof {
            assert(members_view(ps@) =~= s3 + self.member_completed_time());
        }
        let ghost s4 = members_view(ps@);
        if let Some(s) = &self.content {
            ps.push((String::from_str("content"), emit_json_string(s.as_str())));
        }
        proof {
            assert(members_view(ps@) =~= s4 + self.member_content());
        }
        let ghost s5 = members_view(ps@);
        if let Some(s) = &self.desc {
            ps.push((String::from_str("desc"), emit_json_string(s.as_str())));
        }
        proof {
            assert(members_view(ps@) =~= s5 + self.member_desc());
        }
        let ghost s6 = members_view(ps@);
        if let Some(t) = &self.due_date {
            ps.push((String::from_str("dueDate"), emit_json_string(format_datetime(*t).as_str())));
        }
        proof {
            assert(members_view(ps@) =~= s6 + self.member_due_date());
            assert(members_view(ps@) =~= members_view(old(ps)@) + self.schedule_members());
        }
    }

    #[verifier::rlimit(100)]
    fn push_detail_fields(&self, ps: &mut Vec<(String, String)>)
        requires
            self.wf(),
        ensures
            members_view(final(ps)@) == members_view(old(ps)@) + self.detail_members(),
    {
        let ghost s1 = members_view(ps@);
        if self.subtasks.len() > 0 {
            ps.push((String::from_str("items"), subtask_array_json(&self.subtasks)));
        }
        proof {
            assert(members_view(ps@) =~= s1 + self.member_subtasks());
        }
        let ghost s2 = members_view(ps@);
        if let Some(p) = &self.priority {
            ps.push((String::from_str("priority"), i64_to_dec(p.code() as i64)));
        }
        proof {
            assert(members_view(ps@) =~= s2 + self.member_priority());
        }
        let ghost s3 = members_view(ps@);
        if self.reminders.len() > 0 {
            ps.push((String::from_str("reminders"), string_array_json(&self.reminders)));
        }
        proof {
            assert(members_view(ps@) =~= s3 + self.member_reminders());
        }
        let ghost s4 = members_view(ps@);
        if let Some(s) = &self.repeat_flag {
            ps.push((String::from_str("repeatFlag"), emit_json_string(s.as_str())));
        }
        proof {
            assert(members_view(ps@) =~= s4 + self.member_repeat_flag());
            assert(members_view(ps@) =~= members_view(old(ps)@) + self.detail_members());
        }
    }

    #[verifier::rlimit(100)]
    fn push_trailing_fields(&self, ps: &mut Vec<(String, String)>)
        requires
            self.wf(),
        ensures
            members_view(final(ps)@) == members_view(old(ps)@) + self.trailing_members(),
    {
        let ghost s1 = members_view(ps@);
        if let Some(n) = &self.sort_order {
            ps.push((String::from_str("sortOrder"), i64_to_dec(*n)));
        }
        proof {
            assert(members_view(ps@) =~= s1 + self.member_sort_order());
        }
        let ghost s2 = members_view(ps@);
        if let Some(t) = &self.start_date {
            ps.push(
                (String::from_str("startDate"), emit_json_string(format_datetime(*t).as_str())),
            );
        }
        proof {
            assert(members_view(ps@) =~= s2 + self.member_start_date());
        }
        let ghost s3 = members_view(ps@);
        if let Some(s) = &self.status {
            ps.push((String::from_str("status"), i64_to_dec(s.code() as i64)));
        }
        proof {
            assert(members_view(ps@) =~= s3 + self.member_status());
        }
        let ghost s4 = members_view(ps@);
        if let Some(s) = &self.time_zone {
            ps.push((String::from_str("timeZone"), emit_json_string(s.as_str())));
        }
        proof {
            assert(members_view(ps@) =~= s4 + self.member_time_zone());
        }
        let ghost s5 = members_view(ps@);
        if self.tags.len() > 0 {
            ps.push((String::from_str("tags"), string_array_json(&self.tags)));
        }
        proof {
            assert(members_view(ps@) =~= s5 + self.member_tags());
            assert(members_view(ps@) =~= members_view(old(ps)@) + self.trailing_members());
        }
    }

    /// Renders the JSON object this builder serializes to: the title
    /// and exactly the fields that were set, in wire order.
    #[verifier::rlimit(100)]
    pub fn to_json_body(&self) -> (r: String)
        requires
            self.wf(),
        ensures
            r@ == json_object(task_builder_members(*self)),
    {
        let mut ps: Vec<(String, String)> = Vec::new();
        ps.push((String::from_str("title"), emit_json_string(self.title.as_str())));
        proof {
            assert(members_view(ps@) =~= self.member_title());
        }
        self.push_schedule_fields(&mut ps);
        self.push_detail_fields(&mut ps);
        self.push_trailing_fields(&mut ps);
        let r = emit_json_object(&ps);
        proof {
            assert(members_view(ps@) =~= task_builder_members(*self));
        }
        r
    }

    /// The request that creates the task this builder describes.
    pub fn create_request(&self) -> (r: HttpRequest)
        requires
            self.wf(),
        ensures
            r.method == HttpMethod::Post,
            r.url@ == spec_task_create_url(),
            r.body matches Some(b) && b@ == json_object(task_builder_members(*self)),
    {
        HttpRequest { method: HttpMethod::Post, url: task_create_url(), body: Some(
            self.to_json_body(),
        ) }
    }
}

/// Builder for a TickTick project; `create_request` yields the request
/// that publishes it.
#[derive(Debug, Clone)]
pub struct ProjectBuilder {
    pub name: String,
    pub color: Option<String>,
    pub sort_order: Option<i64>,
    pub view_mode: Option<ProjectViewMode>,
    pub kind: Option<ProjectKind>,
}

impl ProjectBuilder {
    pub open spec fn member_name(self) -> Seq<JsonMember> {
        seq![("name"@, json_string(self.name@))]
    }

    pub open spec fn member_color(self) -> Seq<JsonMember> {
        match self.color {
            Some(s) => seq![("color"@, json_string(s@))],
            None => Seq::empty(),
        }
    }

    pub open spec fn member_sort_order(self) -> Seq<JsonMember> {
        match self.sort_order {
            Some(n) => seq![("sortOrder"@, dec_int(n as int))],
            None => Seq::empty(),
        }
    }

    pub open spec fn member_view_mode(self) -> Seq<JsonMember> {
        match self.view_mode {
            Some(v) => seq![("viewMode"@, json_string(v.spec_text()))],
            None => Seq::empty(),
        }
    }

    pub open spec fn member_kind(self) -> Seq<JsonMember> {
        match self.kind {
            Some(k) => seq![("kind"@, json_string(k.spec_text()))],
            None => Seq::empty(),
        }
    }
}

/// The members of the JSON object a project builder serializes to, in
/// wire order: the required name, then exactly the fields that were
/// set.
pub open spec fn project_builder_members(b: ProjectBuilder) -> Seq<JsonMember> {
    b.member_name() + b.member_color() + b.member_sort_order() + b.member_view_mode()
        + b.member_kind()
}

/// The number of optional fields of a project builder that are set.
pub open spec fn project_builder_set_count(b: ProjectBuilder) -> int {
    (if b.color is Some {
        1int
    } else {
        0int
    }) + (if b.sort_order is Some {
        1int
    } else {
        0int
    }) + (if b.view_mode is Some {
        1int
    } else {
        0int
    }) + (if b.kind is Some {
        1int
    } else {
        0int
    })
}

/// A project builder serializes to one member for the required name
/// plus one member for each optional field that is set: setting a
/// previously-unset field adds exactly one member to the payload.
pub proof fn lemma_project_builder_member_count(b: ProjectBuilder)
    ensures
        project_builder_members(b).len() == 1 + project_builder_set_count(b),
{
}

/// A project builder with nothing but the required name serializes to
/// an object whose only member is the name.
pub proof fn lemma_project_builder_minimal(b: ProjectBuilder)
    requires
        b.color is None,
        b.sort_order is None,
        b.view_mode is None,
        b.kind is None,
    ensures
        project_builder_members(b) == seq![("name"@, json_string(b.name@))],
{
    assert(project_builder_members(b) =~= seq![("name"@, json_string(b.name@))]);
}

impl ProjectBuilder {
    /// A fresh builder with only the required name set.
    pub fn new(name: String) -> (r: Self)
        ensures
            r.name == name,
            r.color is None,
            r.sort_order is None,
            r.view_mode is None,
            r.kind is None,
    {
        ProjectBuilder { name, color: None, sort_order: None, view_mode: None, kind: None }
    }

    pub fn name(self, value: &str) -> (r: Self)
        ensures
            r == (ProjectBuilder { name: r.name, ..self }),
            r.name@ == value@,
    {
        ProjectBuilder { name: String::from_str(value), ..self }
    }

    pub fn color(self, value: &str) -> (r: Self)
        ensures
            r == (ProjectBuilder { color: r.color, ..self }),
            r.color matches Some(s) && s@ == value@,
    {
        ProjectBuilder { color: Some(String::from_str(value)), ..self }
    }

    pub fn sort_order(self, value: i64) -> (r: Self)
        ensures
            r == (ProjectBuilder { sort_order: Some(value), ..self }),
    {
        ProjectBuilder { sort_order: Some(value), ..self }
    }

    pub fn view_mode(self, value: ProjectViewMode) -> (r: Self)
        ensures
            r == (ProjectBuilder { view_mode: Some(value), ..self }),
    {
        ProjectBuilder { view_mode: Some(value), ..self }
    }

    pub fn kind(self, value: ProjectKind) -> (r: Self)
        ensures
            r == (ProjectBuilder { kind: Some(value), ..self }),
    {
        ProjectBuilder { kind: Some(value), ..self }
    }

    /// Renders the JSON object this builder serializes to: the name
    /// and exactly the fields that were set, in wire order.
    pub fn to_json_body(&self) -> (r: String)
        ensures
            r@ == json_object(project_builder_members(*self)),
    {
        let mut ps: Vec<(String, String)> = Vec::new();
        ps.push((String::from_str("name"), emit_json_string(self.name.as_str())));
        proof {
            assert(members_view(ps@) =~= self.member_name());
        }
        let ghost s1 = members_view(ps@);
        if let Some(s) = &self.color {
            ps.push((String::from_str("color"), emit_json_string(s.as_str())));
        }
        proof {
            assert(members_view(ps@) =~= s1 + self.member_color());
        }
        let ghost s2 = members_view(ps@);
        if let Some(n) = &self.sort_order {
            ps.push((String::from_str("sortOrder"), i64_to_dec(*n)));
        }
        proof {
            assert(members_view(ps@) =~= s2 + self.member_sort_order());
        }
        let ghost s3 = members_view(ps@);
        if let Some(v) = &self.view_mode {
            ps.push((String::from_str("viewMode"), emit_json_string(v.text())));
        }
        proof {
            assert(members_view(ps@) =~= s3 + self.member_view_mode());
        }
        let ghost s4 = members_view(ps@);
        if let Some(k) = &self.kind {
            ps.push((String::from_str("kind"), emit_json_string(k.text())));
        }
        proof {
            assert(members_view(ps@) =~= s4 + self.member_kind());
        }
        let r = emit_json_object(&ps);
        proof {
            assert(members_view(ps@) == project_builder_members(*self));
        }
        r
    }

    /// The request that creates the project this builder describes.
    pub fn create_request(&self) -> (r: HttpRequest)
        ensures
            r.method == HttpMethod::Post,
            r.url@ == spec_project_create_url(),
            r.body matches Some(b) && b@ == json_object(project_builder_members(*self)),
    {
        HttpRequest { method: HttpMethod::Post, url: project_create_url(), body: Some(
            self.to_json_body(),
        ) }
    }
}

} // verus!
