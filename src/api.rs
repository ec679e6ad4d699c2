use vstd::prelude::*;
use crate::broadcaster::{published_all, EventBroadcaster};
use crate::error::ServerError;
use crate::events::{event_views, BroadcastMessage, EventModel};
use crate::executor::{extends_with, lemma_published_all_extends, status_updated};
use crate::kasm::or_default;
use crate::registry::{fresh_record, TaskRegistry};
use crate::task::{now, MIN_MILLIS, MAX_MILLIS, status_label, strings_view, copy_strings, Task, TaskStatus, Timestamp};
use crate::text::{join, join3};

verus! {

/// Name for the text that chrono writes for an instant.
pub uninterp spec fn rfc3339_text(millis: int) -> Seq<char>;

/// Relies on chrono's `DateTime::<Utc>::from_timestamp_millis`, which gives
/// `None` exactly outside the range chrono represents (years -262143 to
/// 262142), and `DateTime::to_rfc3339`, which writes the instant as RFC 3339
/// text.
#[verifier::external_body]
fn rfc3339_of(millis: i64) -> (r: Option<String>)
    ensures
        r is Some <==> MIN_MILLIS <= millis <= MAX_MILLIS,
        r matches Some(s) ==> s@ == rfc3339_text(millis as int),
{
    match chrono::DateTime::from_timestamp_millis(millis) {
        Some(d) => Some(d.to_rfc3339()),
        None => None,
    }
}

/// Agent used when a request names none.
pub fn default_agent() -> (r: String)
    ensures
        r@ == "MetaGPT"@,
{
    String::from_str("MetaGPT")
}

/// Model used when a request names none.
pub fn default_model() -> (r: String)
    ensures
        r@ == "qwen2.5-coder:3b"@,
{
    String::from_str("qwen2.5-coder:3b")
}

/// Number of rounds used when a request names none.
pub fn default_n_round() -> (r: i32)
    ensures
        r == 4,
{
    4
}

/// A request to create a task.
#[derive(Debug)]
pub struct CreateTaskRequest {
    pub idea: String,
    pub agent: String,
    pub model: String,
    pub n_round: i32,
}

impl CreateTaskRequest {
    /// The request with each missing parameter set to its default.
    pub fn with_defaults(
        idea: String,
        agent: Option<String>,
        model: Option<String>,
        n_round: Option<i32>,
    ) -> (r: CreateTaskRequest)
        ensures
            r.idea@ == idea@,
            r.agent@ == or_default(agent, "MetaGPT"@),
            r.model@ == or_default(model, "qwen2.5-coder:3b"@),
            r.n_round == match n_round {
                Some(n) => n,
                None => 4,
            },
    {
        let agent = match agent {
            Some(a) => a,
            None => default_agent(),
        };
        let model = match model {
            Some(m) => m,
            None => default_model(),
        };
        let n_round = match n_round {
            Some(n) => n,
            None => default_n_round(),
        };
        CreateTaskRequest { idea, agent, model, n_round }
    }
}

/// Acknowledgement of a created task.
#[derive(Debug)]
pub struct CreateTaskResponse {
    pub task_id: String,
    pub status: String,
    pub message: String,
}

/// What a status poll returns.
#[derive(Debug)]
pub struct TaskStatusResponse {
    pub id: String,
    pub idea: String,
    pub status: String,
    pub created_at: String,
    pub workspaces: Vec<String>,
}

/// Acknowledgement of a cancellation.
#[derive(Debug)]
pub struct CancelTaskResponse {
    pub task_id: String,
    pub status: String,
    pub message: String,
}

/// The event that announces a new task.
pub open spec fn created_event(at: Timestamp, idea: Seq<char>) -> EventModel {
    EventModel::AgentEvent {
        timestamp: at,
        agent: "system"@,
        status: "pending"@,
        action: Some("create_task"@),
        message: "Task created: "@ + idea,
    }
}

/// The event that announces a cancellation.
pub open spec fn cancelled_event(at: Timestamp, id: Seq<char>) -> EventModel {
    EventModel::AgentEvent {
        timestamp: at,
        agent: "system"@,
        status: "cancelled"@,
        action: Some("cancel_task"@),
        message: "Task "@ + id + " cancelled"@,
    }
}

/// Registers a new pending task under a fresh id and announces it. The
/// announcement carries the task's creation time.
pub fn create_task(
    registry: &mut TaskRegistry,
    broadcaster: &mut EventBroadcaster,
    request: CreateTaskRequest,
) -> (r: CreateTaskResponse)
    requires
        old(registry).wf(),
        old(broadcaster).wf(),
        old(registry)@.len() < usize::MAX,
        old(broadcaster)@.history.len() < u64::MAX,
    ensures
        final(registry).wf(),
        final(broadcaster).wf(),
        !old(registry)@.contains_key(r.task_id@),
        final(registry)@[r.task_id@].created_at.representable(),
        final(registry)@ == old(registry)@.insert(
            r.task_id@,
            fresh_record(
                r.task_id@,
                request.idea@,
                request.agent@,
                request.model@,
                request.n_round,
                final(registry)@[r.task_id@].created_at,
            ),
        ),
        extends_with(
            old(broadcaster)@,
            final(broadcaster)@,
            seq![created_event(final(registry)@[r.task_id@].created_at, request.idea@)],
        ),
        r.status@ == "pending"@,
        r.message@ == "Task created and queued for execution"@,
{
    let ghost b0 = broadcaster@;
    let message = join("Task created: ", request.idea.as_str());
    let task = registry.create_task(request.idea, request.agent, request.model, request.n_round);
    let msg = BroadcastMessage::AgentEvent {
        timestamp: task.created_at,
        agent: String::from_str("system"),
        status: String::from_str("pending"),
        action: Some(String::from_str("create_task")),
        message,
    };
    let ghost g = msg;
    broadcaster.broadcast(msg);
    proof {
        assert(broadcaster@.history =~= published_all(b0, seq![g]).history);
        lemma_published_all_extends(b0, seq![g]);
        assert(event_views(seq![g]) =~= seq![g@]);
    }
    CreateTaskResponse {
        task_id: task.id,
        status: String::from_str("pending"),
        message: String::from_str("Task created and queued for execution"),
    }
}

/// Whether a response shows a task record, with `created_at` as its
/// creation time written out.
pub open spec fn shows(r: TaskStatusResponse, t: crate::task::TaskModel, created_at: Seq<char>) -> bool {
    &&& r.id@ == t.id
    &&& r.idea@ == t.idea
    &&& r.status@ == status_label(t.status)
    &&& r.created_at@ == created_at
    &&& strings_view(r.workspaces@) == t.workspaces
}

/// The status response for a task, given chrono's text for its creation
/// time; without that text the poll fails as an internal error.
pub fn status_response(task: &Task, created_at_text: Option<String>) -> (r: Result<
    TaskStatusResponse,
    ServerError,
>)
    ensures
        created_at_text matches Some(s) ==> (r matches Ok(resp) && shows(resp, task@, s@)),
        created_at_text.is_none() ==> r matches Err(ServerError::Internal(_)),
{
    match created_at_text {
        Some(text) => Ok(
            TaskStatusResponse {
                id: task.id.clone(),
                idea: task.idea.clone(),
                status: task.status.label(),
                created_at: text,
                workspaces: copy_strings(&task.workspaces),
            },
        ),
        None => Err(ServerError::Internal(String::from_str("creation time out of range"))),
    }
}

/// Looks a task up for a status poll. A known task whose creation time
/// chrono represents (as every time `create_task` stamps) is always shown.
pub fn get_task_status(registry: &TaskRegistry, id: &String) -> (r: Result<
    TaskStatusResponse,
    ServerError,
>)
    requires
        registry.wf(),
    ensures
        !registry@.contains_key(id@) ==> (r matches Err(ServerError::TaskNotFound(s)) && s@ == id@),
        registry@.contains_key(id@) ==> match r {
            Ok(resp) => shows(
                resp,
                registry@[id@],
                rfc3339_text(registry@[id@].created_at.millis as int),
            ),
            Err(e) => e is Internal,
        },
        registry@.contains_key(id@) ==> (r is Ok <==> registry@[id@].created_at.representable()),
{
    match registry.get_task(id) {
        None => Err(ServerError::TaskNotFound(id.clone())),
        Some(task) => {
            let text = rfc3339_of(task.created_at.millis);
            status_response(&task, text)
        },
    }
}

/// Marks a task Failed at time `at` and announces the cancellation. Work
/// already under way for the task is not stopped; a terminal task keeps its
/// state.
pub fn cancel_task_at(
    registry: &mut TaskRegistry,
    broadcaster: &mut EventBroadcaster,
    id: &String,
    at: Timestamp,
) -> (r: CancelTaskResponse)
    requires
        old(registry).wf(),
        old(broadcaster).wf(),
        old(broadcaster)@.history.len() < u64::MAX,
    ensures
        final(registry).wf(),
        final(broadcaster).wf(),
        final(registry)@ == status_updated(old(registry)@, id@, TaskStatus::Failed, at),
        extends_with(old(broadcaster)@, final(broadcaster)@, seq![cancelled_event(at, id@)]),
        r.task_id@ == id@,
        r.status@ == "cancelled"@,
        r.message@ == "Task cancelled successfully"@,
{
    let ghost b0 = broadcaster@;
    registry.update_task_status_at(id, TaskStatus::Failed, at);
    let msg = BroadcastMessage::AgentEvent {
        timestamp: at,
        agent: String::from_str("system"),
        status: String::from_str("cancelled"),
        action: Some(String::from_str("cancel_task")),
        message: join3("Task ", id.as_str(), " cancelled"),
    };
    let ghost g = msg;
    broadcaster.broadcast(msg);
    proof {
        assert(broadcaster@.history =~= published_all(b0, seq![g]).history);
        lemma_published_all_extends(b0, seq![g]);
        assert(event_views(seq![g]) =~= seq![g@]);
    }
    CancelTaskResponse {
        task_id: id.clone(),
        status: String::from_str("cancelled"),
        message: String::from_str("Task cancelled successfully"),
    }
}

/// `cancel_task_at` at the current time.
pub fn cancel_task(
    registry: &mut TaskRegistry,
    broadcaster: &mut EventBroadcaster,
    id: &String,
) -> (r: CancelTaskResponse)
    requires
        old(registry).wf(),
        old(broadcaster).wf(),
        old(broadcaster)@.history.len() < u64::MAX,
    ensures
        final(registry).wf(),
        final(broadcaster).wf(),
        exists|at: Timestamp|
            final(registry)@ == #[trigger] status_updated(old(registry)@, id@, TaskStatus::Failed, at)
                && extends_with(old(broadcaster)@, final(broadcaster)@, seq![cancelled_event(at, id@)]),
        r.task_id@ == id@,
        r.status@ == "cancelled"@,
        r.message@ == "Task cancelled successfully"@,
{
    let at = now();
    cancel_task_at(registry, broadcaster, id, at)
}

} // verus!
