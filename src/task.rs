use vstd::prelude::*;

verus! {

/// Lifecycle state of a task.
#[derive(Clone, Copy, Debug, PartialEq, Eq, Structural)]
pub enum TaskStatus {
    Pending,
    Running,
    Completed,
    Failed,
}

/// The lower-case label of a status, as shown to clients.
pub open spec fn status_label(s: TaskStatus) -> Seq<char> {
    match s {
        TaskStatus::Pending => "pending"@,
        TaskStatus::Running => "running"@,
        TaskStatus::Completed => "completed"@,
        TaskStatus::Failed => "failed"@,
    }
}

impl TaskStatus {
    pub open spec fn spec_is_terminal(&self) -> bool {
        *self == TaskStatus::Completed || *self == TaskStatus::Failed
    }

    /// Completed and Failed are terminal: no transition leaves them.
    #[verifier::when_used_as_spec(spec_is_terminal)]
    pub fn is_terminal(&self) -> (r: bool)
        ensures
            r == self.spec_is_terminal(),
    {
        match self {
            TaskStatus::Completed | TaskStatus::Failed => true,
            _ => false,
        }
    }

    pub fn label(&self) -> (r: String)
        ensures
            r@ == status_label(*self),
    {
        match self {
            TaskStatus::Pending => String::from_str("pending"),
            TaskStatus::Running => String::from_str("running"),
            TaskStatus::Completed => String::from_str("completed"),
            TaskStatus::Failed => String::from_str("failed"),
        }
    }
}

/// A point in time: milliseconds since the Unix epoch, UTC.
#[derive(Clone, Copy, Debug, PartialEq, Eq, Structural)]
pub struct Timestamp {
    pub millis: i64,
}

/// Earliest instant chrono represents: -262143-01-01T00:00:00Z.
pub const MIN_MILLIS: i64 = -8334601228800000;

/// Latest instant chrono represents: 262142-12-31T23:59:59.999Z.
pub const MAX_MILLIS: i64 = 8210266876799999;

impl Timestamp {
    /// Whether chrono can represent the instant.
    pub open spec fn representable(self) -> bool {
        MIN_MILLIS <= self.millis <= MAX_MILLIS
    }
}

/// Relies on `DateTime::<Utc>::from(SystemTime)` and
/// `DateTime::timestamp_millis`: the current wall-clock time, which as a
/// chrono date-time lies in chrono's range. Nothing more is promised of it.
#[verifier::external_body]
pub(crate) fn now() -> (r: Timestamp)
    ensures
        r.representable(),
{
    Timestamp {
        millis: chrono::DateTime::<chrono::Utc>::from(std::time::SystemTime::now()).timestamp_millis(),
    }
}

/// One submitted unit of work.
#[derive(Debug)]
pub struct Task {
    pub id: String,
    pub idea: String,
    pub agent_type: String,
    pub model: String,
    pub n_round: i32,
    pub status: TaskStatus,
    pub created_at: Timestamp,
    pub completed_at: Option<Timestamp>,
    pub workspaces: Vec<String>,
}

/// The mathematical content of a task record.
pub struct TaskModel {
    pub id: Seq<char>,
    pub idea: Seq<char>,
    pub agent_type: Seq<char>,
    pub model: Seq<char>,
    pub n_round: i32,
    pub status: TaskStatus,
    pub created_at: Timestamp,
    pub completed_at: Option<Timestamp>,
    pub workspaces: Seq<Seq<char>>,
}

pub open spec fn strings_view(v: Seq<String>) -> Seq<Seq<char>> {
    v.map_values(|s: String| s@)
}

impl TaskModel {
    /// `completed_at` is present exactly when the status is terminal.
    pub open spec fn well_formed(self) -> bool {
        self.completed_at.is_some() <==> self.status.spec_is_terminal()
    }
}

impl View for Task {
    type V = TaskModel;

    open spec fn view(&self) -> TaskModel {
        TaskModel {
            id: self.id@,
            idea: self.idea@,
            agent_type: self.agent_type@,
            model: self.model@,
            n_round: self.n_round,
            status: self.status,
            created_at: self.created_at,
            completed_at: self.completed_at,
            workspaces: strings_view(self.workspaces@),
        }
    }
}

/// A copy of a list of strings.
pub fn copy_strings(v: &Vec<String>) -> (r: Vec<String>)
    ensures
        r@ == v@,
{
    let mut r: Vec<String> = Vec::new();
    let mut i: usize = 0;
    while i < v.len()
        invariant
            i <= v.len(),
            r@ == v@.subrange(0, i as int),
        decreases v.len() - i,
    {
        r.push(v[i].clone());
        i = i + 1;
    }
    assert(r@ =~= v@);
    r
}

impl Task {
    /// A copy of the record that the caller may keep.
    pub fn snapshot(&self) -> (r: Task)
        ensures
            r@ == self@,
    {
        let ws = copy_strings(&self.workspaces);
        Task {
            id: self.id.clone(),
            idea: self.idea.clone(),
            agent_type: self.agent_type.clone(),
            model: self.model.clone(),
            n_round: self.n_round,
            status: self.status,
            created_at: self.created_at,
            completed_at: self.completed_at,
            workspaces: ws,
        }
    }
}

} // verus!
