//! Tasks and subtasks: identifiers, status and priority codes, the data
//! model, and the exact JSON bodies of task-level requests.
use crate::datetime::{epoch, wire_format, format_datetime, Timestamp};
use crate::encoding::{dec_int, i64_to_dec, json_string, emit_json_string};
use crate::json::{
    json_array, json_bool, json_object, emit_json_array, emit_json_bool, emit_json_object,
    members_view, JsonMember,
};
use crate::projects::ProjectID;
use crate::request::{
    spec_task_complete_url, spec_task_update_url, spec_task_url, task_complete_url,
    task_update_url, task_url, HttpMethod, HttpRequest,
};
use vstd::prelude::*;
use vstd::string::StringExecFns;

verus! {

/// ID used to identify Tasks from TickTick.
#[derive(Debug, Clone, PartialEq, Eq)]
pub struct TaskID(pub String);

impl TaskID {
    /// Whether this is the zero-value identifier of a not-yet-created
    /// resource, which outgoing payloads leave out.
    pub fn is_empty(&self) -> (r: bool)
        ensures
            r == (self.0@.len() == 0),
    {
        self.0.as_str().is_empty()
    }
}

impl Default for TaskID {
    fn default() -> (r: Self)
        ensures
            r.0@ == Seq::<char>::empty(),
    {
        TaskID(String::new())
    }
}

/// ID used to identify Subtasks from TickTick.
#[derive(Debug, Clone, PartialEq, Eq)]
pub struct SubtaskID(pub String);

impl SubtaskID {
    /// Whether this is the zero-value identifier of a not-yet-created
    /// resource, which outgoing payloads leave out.
    pub fn is_empty(&self) -> (r: bool)
        ensures
            r == (self.0@.len() == 0),
    {
        self.0.as_str().is_empty()
    }
}

impl Default for SubtaskID {
    fn default() -> (r: Self)
        ensures
            r.0@ == Seq::<char>::empty(),
    {
        SubtaskID(String::new())
    }
}

/// Task priority levels and their numeric wire codes.
#[derive(Debug, Clone, Copy, PartialEq, Eq, Structural)]
pub enum TaskPriority {
    Unset,
    Low,
    Medium,
    High,
}

impl TaskPriority {
    /// The numeric wire code of this priority.
    pub open spec fn spec_code(self) -> u8 {
        match self {
            TaskPriority::Unset => 0,
            TaskPriority::Low => 1,
            TaskPriority::Medium => 3,
            TaskPriority::High => 5,
        }
    }

    /// The priority a numeric wire code denotes; unrecognised codes are
    /// rejected, unlike the string-keyed enumerations.
    pub open spec fn spec_decode(code: u8) -> Option<TaskPriority> {
        if code == 0 {
            Some(TaskPriority::Unset)
        } else if code == 1 {
            Some(TaskPriority::Low)
        } else if code == 3 {
            Some(TaskPriority::Medium)
        } else if code == 5 {
            Some(TaskPriority::High)
        } else {
            None
        }
    }

    pub fn code(self) -> (r: u8)
        ensures
            r == self.spec_code(),
    {
        match self {
            TaskPriority::Unset => 0,
            TaskPriority::Low => 1,
            TaskPriority::Medium => 3,
            TaskPriority::High => 5,
        }
    }

    pub fn decode(code: u8) -> (r: Option<TaskPriority>)
        ensures
            r == Self::spec_decode(code),
    {
        if code == 0 {
            Some(TaskPriority::Unset)
        } else if code == 1 {
            Some(TaskPriority::Low)
        } else if code == 3 {
            Some(TaskPriority::Medium)
        } else if code == 5 {
            Some(TaskPriority::High)
        } else {
            None
        }
    }
}

impl Default for TaskPriority {
    fn default() -> (r: Self)
        ensures
            r == TaskPriority::Unset,
    {
        TaskPriority::Unset
    }
}

/// Decoding a priority's own wire code always restores the priority,
/// and every unlisted code is rejected.
pub proof fn lemma_priority_round_trip(p: TaskPriority)
    ensures
        TaskPriority::spec_decode(p.spec_code()) == Some(p),
{
}

pub proof fn lemma_priority_unknown_code(code: u8)
    requires
        code != 0 && code != 1 && code != 3 && code != 5,
    ensures
        TaskPriority::spec_decode(code) is None,
{
}

/// Task status values and their numeric wire codes.
#[derive(Debug, Clone, Copy, PartialEq, Eq, Structural)]
pub enum TaskStatus {
    Normal,
    Completed,
}

impl TaskStatus {
    /// The numeric wire code of this status.
    pub open spec fn spec_code(self) -> u8 {
        match self {
            TaskStatus::Normal => 0,
            TaskStatus::Completed => 2,
        }
    }

    /// The status a numeric wire code denotes; unrecognised codes are
    /// rejected.
    pub open spec fn spec_decode(code: u8) -> Option<TaskStatus> {
        if code == 0 {
            Some(TaskStatus::Normal)
        } else if code == 2 {
            Some(TaskStatus::Completed)
        } else {
            None
        }
    }

    pub fn code(self) -> (r: u8)
        ensures
            r == self.spec_code(),
    {
        match self {
            TaskStatus::Normal => 0,
            TaskStatus::Completed => 2,
        }
    }

    pub fn decode(code: u8) -> (r: Option<TaskStatus>)
        ensures
            r == Self::spec_decode(code),
    {
        if code == 0 {
            Some(TaskStatus::Normal)
        } else if code == 2 {
            Some(TaskStatus::Completed)
        } else {
            None
        }
    }
}

impl Default for TaskStatus {
    fn default() -> (r: Self)
        ensures
            r == TaskStatus::Normal,
    {
        TaskStatus::Normal
    }
}

/// Decoding a task status's own wire code always restores the status,
/// and every unlisted code is rejected.
pub proof fn lemma_task_status_round_trip(s: TaskStatus)
    ensures
        TaskStatus::spec_decode(s.spec_code()) == Some(s),
{
}

pub proof fn lemma_task_status_unknown_code(code: u8)
    requires
        code != 0 && code != 2,
    ensures
        TaskStatus::spec_decode(code) is None,
{
}

/// Subtask status values and their numeric wire codes.
#[derive(Debug, Clone, Copy, PartialEq, Eq, Structural)]
pub enum SubtaskStatus {
    Normal,
    Completed,
}

impl SubtaskStatus {
    /// The numeric wire code of this status.
    pub open spec fn spec_code(self) -> u8 {
        match self {
            SubtaskStatus::Normal => 0,
            SubtaskStatus::Completed => 1,
        }
    }

    /// The status a numeric wire code denotes; unrecognised codes are
    /// rejected.
    pub open spec fn spec_decode(code: u8) -> Option<SubtaskStatus> {
        if code == 0 {
            Some(SubtaskStatus::Normal)
        } else if code == 1 {
            Some(SubtaskStatus::Completed)
        } else {
            None
        }
    }

    pub fn code(self) -> (r: u8)
        ensures
            r == self.spec_code(),
    {
        match self {
            SubtaskStatus::Normal => 0,
            SubtaskStatus::Completed => 1,
        }
    }

    pub fn decode(code: u8) -> (r: Option<SubtaskStatus>)
        ensures
            r == Self::spec_decode(code),
    {
        if code == 0 {
            Some(SubtaskStatus::Normal)
        } else if code == 1 {
            Some(SubtaskStatus::Completed)
        } else {
            None
        }
    }
}

impl Default for SubtaskStatus {
    fn default() -> (r: Self)
        ensures
            r == SubtaskStatus::Normal,
    {
        SubtaskStatus::Normal
    }
}

/// Decoding a subtask status's own wire code always restores the
/// status, and every unlisted code is rejected.
pub proof fn lemma_subtask_status_round_trip(s: SubtaskStatus)
    ensures
        SubtaskStatus::spec_decode(s.spec_code()) == Some(s),
{
}

pub proof fn lemma_subtask_status_unknown_code(code: u8)
    requires
        code != 0 && code != 1,
    ensures
        SubtaskStatus::spec_decode(code) is None,
{
}

/// TickTick Subtask. The API reference calls this a "ChecklistItem";
/// it is named Subtask here for clarity.
#[derive(Debug, Clone)]
pub struct Subtask {
    pub id: SubtaskID,
    pub title: String,
    pub status: SubtaskStatus,
    pub completed_time: Timestamp,
    pub is_all_day: bool,
    pub sort_order: i64,
    pub start_date: Timestamp,
    pub time_zone: String,
}

impl Subtask {
    /// Well-formedness: the timestamps are real calendar values.
    pub open spec fn wf(self) -> bool {
        self.completed_time.valid() && self.start_date.valid()
    }
}

impl Default for Subtask {
    fn default() -> (r: Self)
        ensures
            r.id.0@ == Seq::<char>::empty(),
            r.title@ == Seq::<char>::empty(),
            r.status == SubtaskStatus::Normal,
            r.completed_time == epoch(),
            r.is_all_day == false,
            r.sort_order == 0,
            r.start_date == epoch(),
            r.time_zone@ == Seq::<char>::empty(),
            r.wf(),
    {
        Subtask {
            id: SubtaskID::default(),
            title: String::new(),
            status: SubtaskStatus::Normal,
            completed_time: Timestamp::default(),
            is_all_day: false,
            sort_order: 0,
            start_date: Timestamp::default(),
            time_zone: String::new(),
        }
    }
}

/// The members of a subtask's JSON object, in wire order; the
/// identifier is left out while it is empty.
pub open spec fn subtask_members(s: Subtask) -> Seq<JsonMember> {
    (if s.id.0@.len() > 0 {
        seq![("id"@, json_string(s.id.0@))]
    } else {
        Seq::empty()
    }) + seq![
        ("title"@, json_string(s.title@)),
        ("status"@, dec_int(s.status.spec_code() as int)),
        ("completedTime"@, json_string(wire_format(s.completed_time))),
        ("isAllDay"@, json_bool(s.is_all_day)),
        ("sortOrder"@, dec_int(s.sort_order as int)),
        ("startDate"@, json_string(wire_format(s.start_date))),
        ("timeZone"@, json_string(s.time_zone@)),
    ]
}

/// Renders the JSON object a subtask serializes to.
pub fn subtask_json_body(s: &Subtask) -> (r: String)
    requires
        s.wf(),
    ensures
        r@ == json_object(subtask_members(*s)),
{
    let mut ps: Vec<(String, String)> = Vec::new();
    if !s.id.is_empty() {
        ps.push((String::from_str("id"), emit_json_string(s.id.0.as_str())));
    }
    ps.push((String::from_str("title"), emit_json_string(s.title.as_str())));
    ps.push((String::from_str("status"), i64_to_dec(s.status.code() as i64)));
    ps.push(
        (
            String::from_str("completedTime"),
            emit_json_string(format_datetime(s.completed_time).as_str()),
        ),
    );
    ps.push((String::from_str("isAllDay"), emit_json_bool(s.is_all_day)));
    ps.push((String::from_str("sortOrder"), i64_to_dec(s.sort_order)));
    ps.push(
        (String::from_str("startDate"), emit_json_string(format_datetime(s.start_date).as_str())),
    );
    ps.push((String::from_str("timeZone"), emit_json_string(s.time_zone.as_str())));
    let r = emit_json_object(&ps);
    proof {
        assert(members_view(ps@) =~= subtask_members(*s));
    }
    r
}

/// Renders a list of strings as a JSON array of string literals.
pub fn string_array_json(items: &Vec<String>) -> (r: String)
    ensures
        r@ == json_array(items@.map_values(|s: String| json_string(s@))),
{
    let mut es: Vec<String> = Vec::new();
    let mut i: usize = 0;
    while i < items.len()
        invariant
            i <= items@.len(),
            es@.len() == i,
            forall|j: int| 0 <= j < i ==> es@[j]@ == json_string(items@[j]@),
        decreases items@.len() - i,
    {
        es.push(emit_json_string(items[i].as_str()));
        i = i + 1;
    }
    let r = emit_json_array(&es);
    proof {
        assert(es@.map_values(|e: String| e@) =~= items@.map_values(|s: String| json_string(s@)));
    }
    r
}

/// Renders a list of subtasks as a JSON array of their objects.
pub fn subtask_array_json(items: &Vec<Subtask>) -> (r: String)
    requires
        forall|i: int| 0 <= i < items@.len() ==> items@[i].wf(),
    ensures
        r@ == json_array(items@.map_values(|s: Subtask| json_object(subtask_members(s)))),
{
    let mut es: Vec<String> = Vec::new();
    let mut i: usize = 0;
    while i < items.len()
        invariant
            i <= items@.len(),
            es@.len() == i,
            forall|j: int| 0 <= j < items@.len() ==> items@[j].wf(),
            forall|j: int| 0 <= j < i ==> es@[j]@ == json_object(subtask_members(items@[j])),
        decreases items@.len() - i,
    {
        es.push(subtask_json_body(&items[i]));
        i = i + 1;
    }
    let r = emit_json_array(&es);
    proof {
        assert(es@.map_values(|e: String| e@) =~= items@.map_values(
            |s: Subtask| json_object(subtask_members(s)),
        ));
    }
    r
}

/// TickTick task.
#[derive(Debug, Clone)]
pub struct Task {
    pub id: TaskID,
    pub project_id: ProjectID,
    pub title: String,
    pub is_all_day: bool,
    pub completed_time: Timestamp,
    pub content: String,
    pub desc: String,
    pub due_date: Timestamp,
    /// Subtasks of the owning Task; the wire calls them "items".
    pub subtasks: Vec<Subtask>,
    pub priority: TaskPriority,
    pub reminders: Vec<String>,
    pub repeat_flag: String,
    pub sort_order: i64,
    pub start_date: Timestamp,
    pub status: TaskStatus,
    pub time_zone: String,
    pub tags: Vec<String>,
}

/// The members of a task's JSON object, in wire order; the task and
/// project identifiers are left out while they are empty.
pub open spec fn task_members(t: Task) -> Seq<JsonMember> {
    (if t.id.0@.len() > 0 {
        seq![("id"@, json_string(t.id.0@))]
    } else {
        Seq::empty()
    }) + (if t.project_id.0@.len() > 0 {
        seq![("projectId"@, json_string(t.project_id.0@))]
    } else {
        Seq::empty()
    }) + seq![
        ("title"@, json_string(t.title@)),
        ("isAllDay"@, json_bool(t.is_all_day)),
        ("completedTime"@, json_string(wire_format(t.completed_time))),
        ("content"@, json_string(t.content@)),
        ("desc"@, json_string(t.desc@)),
        ("dueDate"@, json_string(wire_format(t.due_date))),
        ("items"@, json_array(t.subtasks@.map_values(|s: Subtask| json_object(subtask_members(s))))),
        ("priority"@, dec_int(t.priority.spec_code() as int)),
        ("reminders"@, json_array(t.reminders@.map_values(|s: String| json_string(s@)))),
        ("repeatFlag"@, json_string(t.repeat_flag@)),
        ("sortOrder"@, dec_int(t.sort_order as int)),
        ("startDate"@, json_string(wire_format(t.start_date))),
        ("status"@, dec_int(t.status.spec_code() as int)),
        ("timeZone"@, json_string(t.time_zone@)),
        ("tags"@, json_array(t.tags@.map_values(|s: String| json_string(s@)))),
    ]
}

/// A task whose identifier is still empty — one not yet created on
/// the server — never serializes an `id` member at all.
#[verifier::rlimit(100)]
pub proof fn lemma_task_empty_id_not_serialized(t: Task)
    requires
        t.id.0@.len() == 0,
    ensures
        forall|j: int|
            0 <= j < task_members(t).len() ==> (#[trigger] task_members(t)[j]).0 != "id"@,
{
    reveal_strlit("id");
    reveal_strlit("projectId");
    reveal_strlit("title");
    reveal_strlit("isAllDay");
    reveal_strlit("completedTime");
    reveal_strlit("content");
    reveal_strlit("desc");
    reveal_strlit("dueDate");
    reveal_strlit("items");
    reveal_strlit("priority");
    reveal_strlit("reminders");
    reveal_strlit("repeatFlag");
    reveal_strlit("sortOrder");
    reveal_strlit("startDate");
    reveal_strlit("status");
    reveal_strlit("timeZone");
    reveal_strlit("tags");
    assert("id"@.len() == 2);
    let keys = task_members(t).map_values(|m: JsonMember| m.0);
    if t.project_id.0@.len() > 0 {
        assert(keys =~= seq![
            "projectId"@,
            "title"@,
            "isAllDay"@,
            "completedTime"@,
            "content"@,
            "desc"@,
            "dueDate"@,
            "items"@,
            "priority"@,
            "reminders"@,
            "repeatFlag"@,
            "sortOrder"@,
            "startDate"@,
            "status"@,
            "timeZone"@,
            "tags"@,
        ]);
    } else {
        assert(keys =~= seq![
            "title"@,
            "isAllDay"@,
            "completedTime"@,
            "content"@,
            "desc"@,
            "dueDate"@,
            "items"@,
            "priority"@,
            "reminders"@,
            "repeatFlag"@,
            "sortOrder"@,
            "startDate"@,
            "status"@,
            "timeZone"@,
            "tags"@,
        ]);
    }
    assert forall|j: int| 0 <= j < task_members(t).len() implies (#[trigger] task_members(
        t,
    )[j]).0 != "id"@ by {
        assert(task_members(t)[j].0 == keys[j]);
        assert(keys[j].len() != 2);
    }
}

impl Task {
    /// Well-formedness: every timestamp, the subtasks' included, is a
    /// real calendar value.
    pub open spec fn wf(self) -> bool {
        &&& self.completed_time.valid()
        &&& self.due_date.valid()
        &&& self.start_date.valid()
        &&& forall|i: int| 0 <= i < self.subtasks@.len() ==> self.subtasks@[i].wf()
    }

    pub fn get_id(&self) -> (r: &TaskID)
        ensures
            r == &self.id,
    {
        &self.id
    }

    /// A builder for a new task with the given required title.
    pub fn builder(title: &str) -> (r: crate::builders::TaskBuilder)
        ensures
            r.title@ == title@,
            r.project_id is None,
            r.is_all_day is None,
            r.completed_time is None,
            r.content is None,
            r.desc is None,
            r.due_date is None,
            r.subtasks@ == Seq::<Subtask>::empty(),
            r.priority is None,
            r.reminders@ == Seq::<String>::empty(),
            r.repeat_flag is None,
            r.sort_order is None,
            r.start_date is None,
            r.status is None,
            r.time_zone is None,
            r.tags@ == Seq::<String>::empty(),
    {
        crate::builders::TaskBuilder::new(String::from_str(title))
    }

    /// Renders the JSON object the task serializes to, as sent by a
    /// full-state update.
    #[verifier::rlimit(100)]
    pub fn json_body(&self) -> (r: String)
        requires
            self.wf(),
        ensures
            r@ == json_object(task_members(*self)),
    {
        let mut ps: Vec<(String, String)> = Vec::new();
        if !self.id.is_empty() {
            ps.push((String::from_str("id"), emit_json_string(self.id.0.as_str())));
        }
        if !self.project_id.is_empty() {
            ps.push((String::from_str("projectId"), emit_json_string(self.project_id.0.as_str())));
        }
        ps.push((String::from_str("title"), emit_json_string(self.title.as_str())));
        ps.push((String::from_str("isAllDay"), emit_json_bool(self.is_all_day)));
        ps.push(
            (
                String::from_str("completedTime"),
                emit_json_string(format_datetime(self.completed_time).as_str()),
            ),
        );
        ps.push((String::from_str("content"), emit_json_string(self.content.as_str())));
        ps.push((String::from_str("desc"), emit_json_string(self.desc.as_str())));
        ps.push(
            (String::from_str("dueDate"), emit_json_string(format_datetime(self.due_date).as_str())),
        );
        ps.push((String::from_str("items"), subtask_array_json(&self.subtasks)));
        ps.push((String::from_str("priority"), i64_to_dec(self.priority.code() as i64)));
        ps.push((String::from_str("reminders"), string_array_json(&self.reminders)));
        ps.push((String::from_str("repeatFlag"), emit_json_string(self.repeat_flag.as_str())));
        ps.push((String::from_str("sortOrder"), i64_to_dec(self.sort_order)));
        ps.push(
            (
                String::from_str("startDate"),
                emit_json_string(format_datetime(self.start_date).as_str()),
            ),
        );
        ps.push((String::from_str("status"), i64_to_dec(self.status.code() as i64)));
        ps.push((String::from_str("timeZone"), emit_json_string(self.time_zone.as_str())));
        ps.push((String::from_str("tags"), string_array_json(&self.tags)));
        let r = emit_json_object(&ps);
        proof {
            assert(members_view(ps@) =~= task_members(*self));
        }
        r
    }

    /// The request that deletes the task; issuing it consumes the
    /// instance.
    pub fn delete_request(&self) -> (r: HttpRequest)
        ensures
            r.method == HttpMethod::Delete,
            r.url@ == spec_task_url(self.project_id.0@, self.id.0@),
            r.body is None,
    {
        HttpRequest {
            method: HttpMethod::Delete,
            url: task_url(&self.project_id, &self.id),
            body: None,
        }
    }

    /// The request that publishes the task's full current state to
    /// its update endpoint. Clients require a refresh for server-side
    /// effects to become visible.
    pub fn publish_changes_request(&self) -> (r: HttpRequest)
        requires
            self.wf(),
        ensures
            r.method == HttpMethod::Post,
            r.url@ == spec_task_update_url(self.id.0@),
            r.body matches Some(b) && b@ == json_object(task_members(*self)),
    {
        HttpRequest {
            method: HttpMethod::Post,
            url: task_update_url(&self.id),
            body: Some(self.json_body()),
        }
    }

    /// Marks the task completed locally and returns the request that
    /// reports the completion; the local state changes before the
    /// request is carried, matching the service's update model.
    pub fn complete_request(&mut self) -> (r: HttpRequest)
        requires
            old(self).wf(),
        ensures
            *final(self) == (Task { status: TaskStatus::Completed, ..*old(self) }),
            r.method == HttpMethod::Post,
            r.url@ == spec_task_complete_url(final(self).project_id.0@, final(self).id.0@),
            r.body matches Some(b) && b@ == json_object(task_members(*final(self))),
    {
        self.status = TaskStatus::Completed;
        HttpRequest {
            method: HttpMethod::Post,
            url: task_complete_url(&self.project_id, &self.id),
            body: Some(self.json_body()),
        }
    }
}

impl Default for Task {
    fn default() -> (r: Self)
        ensures
            r.id.0@ == Seq::<char>::empty(),
            r.project_id.0@ == Seq::<char>::empty(),
            r.title@ == Seq::<char>::empty(),
            r.is_all_day == false,
            r.completed_time == epoch(),
            r.content@ == Seq::<char>::empty(),
            r.desc@ == Seq::<char>::empty(),
            r.due_date == epoch(),
            r.subtasks@ == Seq::<Subtask>::empty(),
            r.priority == TaskPriority::Unset,
            r.reminders@ == Seq::<String>::empty(),
            r.repeat_flag@ == Seq::<char>::empty(),
            r.sort_order == 0,
            r.start_date == epoch(),
            r.status == TaskStatus::Normal,
            r.time_zone@ == Seq::<char>::empty(),
            r.tags@ == Seq::<String>::empty(),
            r.wf(),
    {
        Task {
            id: TaskID::default(),
            project_id: ProjectID::default(),
            title: String::new(),
            is_all_day: false,
            completed_time: Timestamp::default(),
            content: String::new(),
            desc: String::new(),
            due_date: Timestamp::default(),
            subtasks: Vec::new(),
            priority: TaskPriority::Unset,
            reminders: Vec::new(),
            repeat_flag: String::new(),
            sort_order: 0,
            start_date: Timestamp::default(),
            status: TaskStatus::Normal,
            time_zone: String::new(),
            tags: Vec::new(),
        }
    }
}

} // verus!
