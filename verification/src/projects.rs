//! Projects: identifiers, string-keyed enumerations with lenient
//! decoding, the project model, and the exact JSON body of a project
//! update.
use crate::encoding::{dec_int, i64_to_dec, json_string, emit_json_string};
use crate::json::{
    json_bool, json_object, emit_json_bool, emit_json_object, members_view, JsonMember,
};
use crate::request::{project_url, spec_project_url, HttpMethod, HttpRequest};
use crate::tasks::Task;
use vstd::prelude::*;
use vstd::string::StringExecFns;

verus! {

/// ID used to identify Projects from TickTick.
#[derive(Debug, Clone, PartialEq, Eq)]
pub struct ProjectID(pub String);

impl ProjectID {
    /// Whether this is the zero-value identifier of a not-yet-created
    /// resource, which outgoing payloads leave out.
    pub fn is_empty(&self) -> (r: bool)
        ensures
            r == (self.0@.len() == 0),
    {
        self.0.as_str().is_empty()
    }
}

impl Default for ProjectID {
    fn default() -> (r: Self)
        ensures
            r.0@ == Seq::<char>::empty(),
    {
        ProjectID(String::new())
    }
}

/// ID used to identify Project Groups from TickTick.
#[derive(Debug, Clone, PartialEq, Eq)]
pub struct GroupID(pub String);

impl GroupID {
    /// Whether this is the zero-value identifier of a not-yet-created
    /// resource, which outgoing payloads leave out.
    pub fn is_empty(&self) -> (r: bool)
        ensures
            r == (self.0@.len() == 0),
    {
        self.0.as_str().is_empty()
    }
}

impl Default for GroupID {
    fn default() -> (r: Self)
        ensures
            r.0@ == Seq::<char>::empty(),
    {
        GroupID(String::new())
    }
}

/// ID used to identify kanban Columns from TickTick.
#[derive(Debug, Clone, PartialEq, Eq)]
pub struct ColumnID(pub String);

impl ColumnID {
    /// Whether this is the zero-value identifier of a not-yet-created
    /// resource, which outgoing payloads leave out.
    pub fn is_empty(&self) -> (r: bool)
        ensures
            r == (self.0@.len() == 0),
    {
        self.0.as_str().is_empty()
    }
}

impl Default for ColumnID {
    fn default() -> (r: Self)
        ensures
            r.0@ == Seq::<char>::empty(),
    {
        ColumnID(String::new())
    }
}

/// Compares two string slices by their character sequences.
pub fn str_eq(a: &str, b: &str) -> (r: bool)
    ensures
        r == (a@ == b@),
{
    let sa = String::from_str(a);
    let sb = String::from_str(b);
    sa == sb
}

/// How a project is displayed; decoding falls back to the default for
/// any unrecognised wire value, for forward compatibility.
#[derive(Debug, Clone, Copy, PartialEq, Eq, Structural)]
pub enum ProjectViewMode {
    List,
    Kanban,
    Timeline,
}

impl ProjectViewMode {
    /// The canonical lowercase wire text of this view mode.
    pub open spec fn spec_text(self) -> Seq<char> {
        match self {
            ProjectViewMode::List => "list"@,
            ProjectViewMode::Kanban => "kanban"@,
            ProjectViewMode::Timeline => "timeline"@,
        }
    }

    /// The view mode a wire string denotes; anything unrecognised is
    /// read as the default, `List`.
    pub open spec fn spec_decode(s: Seq<char>) -> ProjectViewMode {
        if s == "list"@ {
            ProjectViewMode::List
        } else if s == "kanban"@ {
            ProjectViewMode::Kanban
        } else if s == "timeline"@ {
            ProjectViewMode::Timeline
        } else {
            ProjectViewMode::List
        }
    }

    pub fn text(self) -> (r: &'static str)
        ensures
            r@ == self.spec_text(),
    {
        match self {
            ProjectViewMode::List => "list",
            ProjectViewMode::Kanban => "kanban",
            ProjectViewMode::Timeline => "timeline",
        }
    }

    pub fn decode(s: &str) -> (r: ProjectViewMode)
        ensures
            r == Self::spec_decode(s@),
    {
        if str_eq(s, "list") {
            ProjectViewMode::List
        } else if str_eq(s, "kanban") {
            ProjectViewMode::Kanban
        } else if str_eq(s, "timeline") {
            ProjectViewMode::Timeline
        } else {
            ProjectViewMode::List
        }
    }
}

impl Default for ProjectViewMode {
    fn default() -> (r: Self)
        ensures
            r == ProjectViewMode::List,
    {
        ProjectViewMode::List
    }
}

/// Decoding a view mode's own wire text always restores the view mode.
pub proof fn lemma_view_mode_round_trip(v: ProjectViewMode)
    ensures
        ProjectViewMode::spec_decode(v.spec_text()) == v,
{
    reveal_strlit("list");
    reveal_strlit("kanban");
    reveal_strlit("timeline");
    assert("list"@.len() == 4);
    assert("kanban"@.len() == 6);
    assert("timeline"@.len() == 8);
    match v {
        ProjectViewMode::List => {
            assert(v.spec_text() == "list"@);
        },
        ProjectViewMode::Kanban => {
            assert(v.spec_text() == "kanban"@);
        },
        ProjectViewMode::Timeline => {
            assert(v.spec_text() == "timeline"@);
        },
    }
}

/// Every unrecognised wire string decodes to the default view mode.
pub proof fn lemma_view_mode_unknown_text(s: Seq<char>)
    requires
        s != "list"@,
        s != "kanban"@,
        s != "timeline"@,
    ensures
        ProjectViewMode::spec_decode(s) == ProjectViewMode::List,
{
}

impl From<String> for ProjectViewMode {
    fn from(value: String) -> (r: Self) {
        Self::decode(value.as_str())
    }
}

impl vstd::std_specs::convert::FromSpecImpl<String> for ProjectViewMode {
    open spec fn obeys_from_spec() -> bool {
        true
    }

    open spec fn from_spec(v: String) -> Self {
        Self::spec_decode(v@)
    }
}

/// The caller's permission on a shared project; decoding falls back to
/// the default for any unrecognised wire value.
#[derive(Debug, Clone, Copy, PartialEq, Eq, Structural)]
pub enum ProjectUserPermissions {
    Read,
    Write,
    Comment,
}

impl ProjectUserPermissions {
    /// The canonical lowercase wire text of this permission.
    pub open spec fn spec_text(self) -> Seq<char> {
        match self {
            ProjectUserPermissions::Read => "read"@,
            ProjectUserPermissions::Write => "write"@,
            ProjectUserPermissions::Comment => "comment"@,
        }
    }

    /// The permission a wire string denotes; anything unrecognised is
    /// read as the default, `Read`.
    pub open spec fn spec_decode(s: Seq<char>) -> ProjectUserPermissions {
        if s == "read"@ {
            ProjectUserPermissions::Read
        } else if s == "write"@ {
            ProjectUserPermissions::Write
        } else if s == "comment"@ {
            ProjectUserPermissions::Comment
        } else {
            ProjectUserPermissions::Read
        }
    }

    pub fn text(self) -> (r: &'static str)
        ensures
            r@ == self.spec_text(),
    {
        match self {
            ProjectUserPermissions::Read => "read",
            ProjectUserPermissions::Write => "write",
            ProjectUserPermissions::Comment => "comment",
        }
    }

    pub fn decode(s: &str) -> (r: ProjectUserPermissions)
        ensures
            r == Self::spec_decode(s@),
    {
        if str_eq(s, "read") {
            ProjectUserPermissions::Read
        } else if str_eq(s, "write") {
            ProjectUserPermissions::Write
        } else if str_eq(s, "comment") {
            ProjectUserPermissions::Comment
        } else {
            ProjectUserPermissions::Read
        }
    }
}

impl Default for ProjectUserPermissions {
    fn default() -> (r: Self)
        ensures
            r == ProjectUserPermissions::Read,
    {
        ProjectUserPermissions::Read
    }
}

/// Decoding a permission's own wire text always restores the
/// permission.
pub proof fn lemma_permission_round_trip(p: ProjectUserPermissions)
    ensures
        ProjectUserPermissions::spec_decode(p.spec_text()) == p,
{
    reveal_strlit("read");
    reveal_strlit("write");
    reveal_strlit("comment");
    assert("read"@.len() == 4);
    assert("write"@.len() == 5);
    assert("comment"@.len() == 7);
    match p {
        ProjectUserPermissions::Read => {
            assert(p.spec_text() == "read"@);
        },
        ProjectUserPermissions::Write => {
            assert(p.spec_text() == "write"@);
        },
        ProjectUserPermissions::Comment => {
            assert(p.spec_text() == "comment"@);
        },
    }
}

/// Every unrecognised wire string decodes to the default permission.
pub proof fn lemma_permission_unknown_text(s: Seq<char>)
    requires
        s != "read"@,
        s != "write"@,
        s != "comment"@,
    ensures
        ProjectUserPermissions::spec_decode(s) == ProjectUserPermissions::Read,
{
}

impl From<String> for ProjectUserPermissions {
    fn from(value: String) -> (r: Self) {
        Self::decode(value.as_str())
    }
}

impl vstd::std_specs::convert::FromSpecImpl<String> for ProjectUserPermissions {
    open spec fn obeys_from_spec() -> bool {
        true
    }

    open spec fn from_spec(v: String) -> Self {
        Self::spec_decode(v@)
    }
}

/// Whether a project is a task list or a note list; decoding falls
/// back to the default for any unrecognised wire value.
#[derive(Debug, Clone, Copy, PartialEq, Eq, Structural)]
pub enum ProjectKind {
    Task,
    Note,
}

impl ProjectKind {
    /// The canonical uppercase wire text of this kind.
    pub open spec fn spec_text(self) -> Seq<char> {
        match self {
            ProjectKind::Task => "TASK"@,
            ProjectKind::Note => "NOTE"@,
        }
    }

    /// The kind a wire string denotes; anything unrecognised is read
    /// as the default, `Task`.
    pub open spec fn spec_decode(s: Seq<char>) -> ProjectKind {
        if s == "TASK"@ {
            ProjectKind::Task
        } else if s == "NOTE"@ {
            ProjectKind::Note
        } else {
            ProjectKind::Task
        }
    }

    pub fn text(self) -> (r: &'static str)
        ensures
            r@ == self.spec_text(),
    {
        match self {
            ProjectKind::Task => "TASK",
            ProjectKind::Note => "NOTE",
        }
    }

    pub fn decode(s: &str) -> (r: ProjectKind)
        ensures
            r == Self::spec_decode(s@),
    {
        if str_eq(s, "TASK") {
            ProjectKind::Task
        } else if str_eq(s, "NOTE") {
            ProjectKind::Note
        } else {
            ProjectKind::Task
        }
    }
}

impl Default for ProjectKind {
    fn default() -> (r: Self)
        ensures
            r == ProjectKind::Task,
    {
        ProjectKind::Task
    }
}

/// Decoding a kind's own wire text always restores the kind.
pub proof fn lemma_kind_round_trip(k: ProjectKind)
    ensures
        ProjectKind::spec_decode(k.spec_text()) == k,
{
    reveal_strlit("TASK");
    reveal_strlit("NOTE");
    assert("TASK"@[0] == 'T');
    assert("NOTE"@[0] == 'N');
    match k {
        ProjectKind::Task => {
            assert(k.spec_text() == "TASK"@);
        },
        ProjectKind::Note => {
            assert(k.spec_text() == "NOTE"@);
        },
    }
}

/// Every unrecognised wire string decodes to the default kind.
pub proof fn lemma_kind_unknown_text(s: Seq<char>)
    requires
        s != "TASK"@,
        s != "NOTE"@,
    ensures
        ProjectKind::spec_decode(s) == ProjectKind::Task,
{
}

impl From<String> for ProjectKind {
    fn from(value: String) -> (r: Self) {
        Self::decode(value.as_str())
    }
}

impl vstd::std_specs::convert::FromSpecImpl<String> for ProjectKind {
    open spec fn obeys_from_spec() -> bool {
        true
    }

    open spec fn from_spec(v: String) -> Self {
        Self::spec_decode(v@)
    }
}

/// TickTick Project info.
#[derive(Debug, Clone)]
pub struct Project {
    pub id: ProjectID,
    pub name: String,
    pub color: String,
    pub sort_order: i64,
    pub closed: bool,
    pub group_id: GroupID,
    pub view_mode: ProjectViewMode,
    pub permission: ProjectUserPermissions,
    pub kind: ProjectKind,
}

impl Default for Project {
    fn default() -> (r: Self)
        ensures
            r.id.0@ == Seq::<char>::empty(),
            r.name@ == Seq::<char>::empty(),
            r.color@ == Seq::<char>::empty(),
            r.sort_order == 0,
            r.closed == false,
            r.group_id.0@ == Seq::<char>::empty(),
            r.view_mode == ProjectViewMode::List,
            r.permission == ProjectUserPermissions::Read,
            r.kind == ProjectKind::Task,
    {
        Project {
            id: ProjectID::default(),
            name: String::new(),
            color: String::new(),
            sort_order: 0,
            closed: false,
            group_id: GroupID::default(),
            view_mode: ProjectViewMode::List,
            permission: ProjectUserPermissions::Read,
            kind: ProjectKind::Task,
        }
    }
}

/// The members of a project's JSON object, in wire order. Unlike a
/// task's, a project's identifier is always included.
pub open spec fn project_members(p: Project) -> Seq<JsonMember> {
    seq![
        ("id"@, json_string(p.id.0@)),
        ("name"@, json_string(p.name@)),
        ("color"@, json_string(p.color@)),
        ("sortOrder"@, dec_int(p.sort_order as int)),
        ("closed"@, json_bool(p.closed)),
        ("groupId"@, json_string(p.group_id.0@)),
        ("viewMode"@, json_string(p.view_mode.spec_text())),
        ("permission"@, json_string(p.permission.spec_text())),
        ("kind"@, json_string(p.kind.spec_text())),
    ]
}

impl Project {
    pub fn get_id(&self) -> (r: &ProjectID)
        ensures
            r == &self.id,
    {
        &self.id
    }

    /// Renders the JSON object this project serializes to, as sent by
    /// a full-state update.
    pub fn json_body(&self) -> (r: String)
        ensures
            r@ == json_object(project_members(*self)),
    {
        let mut ps: Vec<(String, String)> = Vec::new();
        ps.push((String::from_str("id"), emit_json_string(self.id.0.as_str())));
        ps.push((String::from_str("name"), emit_json_string(self.name.as_str())));
        ps.push((String::from_str("color"), emit_json_string(self.color.as_str())));
        ps.push((String::from_str("sortOrder"), i64_to_dec(self.sort_order)));
        ps.push((String::from_str("closed"), emit_json_bool(self.closed)));
        ps.push((String::from_str("groupId"), emit_json_string(self.group_id.0.as_str())));
        ps.push((String::from_str("viewMode"), emit_json_string(self.view_mode.text())));
        ps.push((String::from_str("permission"), emit_json_string(self.permission.text())));
        ps.push((String::from_str("kind"), emit_json_string(self.kind.text())));
        let r = emit_json_object(&ps);
        proof {
            assert(members_view(ps@) =~= project_members(*self));
        }
        r
    }

    /// The request that publishes this project's full current state to
    /// its update endpoint. Clients require a refresh for server-side
    /// effects to become visible.
    pub fn publish_changes_request(&self) -> (r: HttpRequest)
        ensures
            r.method == HttpMethod::Post,
            r.url@ == spec_project_url(self.id.0@),
            r.body matches Some(b) && b@ == json_object(project_members(*self)),
    {
        HttpRequest {
            method: HttpMethod::Post,
            url: project_url(&self.id),
            body: Some(self.json_body()),
        }
    }

    /// A builder for a new project with the given required name.
    pub fn builder(name: String) -> (r: crate::builders::ProjectBuilder)
        ensures
            r.name == name,
            r.color is None,
            r.sort_order is None,
            r.view_mode is None,
            r.kind is None,
    {
        crate::builders::ProjectBuilder::new(name)
    }
}

/// A kanban column of a project; read-only in this library.
#[derive(Debug, Clone)]
pub struct Column {
    pub id: ColumnID,
    pub project_id: ProjectID,
    pub name: String,
    pub sort_order: i64,
}

/// The tasks and kanban columns of one project, as returned by the
/// project-data endpoint; a transient read-only view.
#[derive(Debug, Clone)]
pub struct ProjectData {
    pub tasks: Vec<Task>,
    pub columns: Vec<Column>,
}

impl ProjectData {
    /// The task half of the project data, the column half discarded.
    pub fn get_tasks(self) -> (r: Vec<Task>)
        ensures
            r == self.tasks,
    {
        self.tasks
    }

    /// The column half of the project data, the task half discarded.
    pub fn get_columns(self) -> (r: Vec<Column>)
        ensures
            r == self.columns,
    {
        self.columns
    }
}

} // verus!
