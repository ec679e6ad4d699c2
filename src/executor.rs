use vstd::prelude::*;
use crate::broadcaster::{published_all, BroadcastModel, EventBroadcaster};
use crate::events::{event_views, BroadcastMessage, EventModel};
use crate::registry::{with_status, with_workspace, TaskRegistry};
use crate::task::{TaskModel, TaskStatus, Timestamp};
use crate::text::{join, join3, prefix};

verus! {

/// The first stage: the task starts running and gets its workspaces.
pub const STAGE_START: u64 = 0;

/// The workspaces are announced.
pub const STAGE_WORKSPACES: u64 = 1;

/// The agent stages run from `STAGE_AGENTS` up to `STAGE_FINISH`, six per
/// agent: one announcement, then one per output chunk.
pub const STAGE_AGENTS: u64 = 2;

/// The task completes.
pub const STAGE_FINISH: u64 = 20;

/// Nothing is left to do.
pub const STAGE_DONE: u64 = 21;

/// Duration reported when a task completes.
pub const TASK_DURATION_SECONDS: u64 = 20;

/// Name of the agent that runs `a`-th, counting from zero.
pub open spec fn agent_name(a: int) -> Seq<char> {
    if a == 0 {
        "ProductManager"@
    } else if a == 1 {
        "Architect"@
    } else {
        "Engineer"@
    }
}

/// Text of the `i`-th output chunk of an agent, counting from zero.
pub open spec fn chunk_text(i: int) -> Seq<char> {
    if i == 0 {
        "Processing step 1...\n"@
    } else if i == 1 {
        "Processing step 2...\n"@
    } else if i == 2 {
        "Processing step 3...\n"@
    } else if i == 3 {
        "Processing step 4...\n"@
    } else {
        "Processing step 5...\n"@
    }
}

/// The first eight characters of a task id.
pub open spec fn id_prefix(id: Seq<char>) -> Seq<char> {
    if id.len() <= 8 {
        id
    } else {
        id.subrange(0, 8)
    }
}

pub open spec fn research_workspace(id: Seq<char>) -> Seq<char> {
    "ws-research-"@ + id_prefix(id)
}

pub open spec fn dev_workspace(id: Seq<char>) -> Seq<char> {
    "ws-dev-"@ + id_prefix(id)
}

/// Address at which a workspace can be reached.
pub open spec fn workspace_url(ws: Seq<char>) -> Seq<char> {
    "http://localhost:6901/?workspace="@ + ws
}

/// The registry after `update_task_status_at`.
pub open spec fn status_updated(
    m: Map<Seq<char>, TaskModel>,
    id: Seq<char>,
    status: TaskStatus,
    at: Timestamp,
) -> Map<Seq<char>, TaskModel> {
    if m.contains_key(id) {
        m.insert(id, with_status(m[id], status, at))
    } else {
        m
    }
}

/// The registry after `add_workspace_to_task`.
pub open spec fn workspace_added(
    m: Map<Seq<char>, TaskModel>,
    id: Seq<char>,
    ws: Seq<char>,
) -> Map<Seq<char>, TaskModel> {
    if m.contains_key(id) {
        m.insert(id, with_workspace(m[id], ws))
    } else {
        m
    }
}

/// What a stage does to the registry.
pub open spec fn stage_registry(
    m: Map<Seq<char>, TaskModel>,
    id: Seq<char>,
    stage: nat,
    at: Timestamp,
) -> Map<Seq<char>, TaskModel> {
    if stage == STAGE_START {
        workspace_added(
            workspace_added(status_updated(m, id, TaskStatus::Running, at), id, research_workspace(id)),
            id,
            dev_workspace(id),
        )
    } else if stage == STAGE_FINISH {
        status_updated(m, id, TaskStatus::Completed, at)
    } else {
        m
    }
}

pub open spec fn agent_of(stage: nat) -> int {
    (stage - STAGE_AGENTS) / 6
}

pub open spec fn step_of(stage: nat) -> int {
    (stage - STAGE_AGENTS) % 6
}

pub open spec fn workspace_event(at: Timestamp, ws: Seq<char>, agent_type: Seq<char>) -> EventModel {
    EventModel::WorkspaceReady { timestamp: at, workspace_id: ws, agent_type, url: workspace_url(ws) }
}

pub open spec fn chunk_event(at: Timestamp, agent: Seq<char>, i: int) -> EventModel {
    EventModel::StreamChunk { timestamp: at, agent, content: chunk_text(i), chunk_id: i as usize }
}

/// The events that a stage publishes, in order.
pub open spec fn stage_events(id: Seq<char>, stage: nat, at: Timestamp) -> Seq<EventModel> {
    if stage == STAGE_START {
        seq![
            EventModel::AgentEvent {
                timestamp: at,
                agent: "system"@,
                status: "running"@,
                action: Some("start_task"@),
                message: "Task "@ + id + " started"@,
            },
        ]
    } else if stage == STAGE_WORKSPACES {
        seq![
            workspace_event(at, research_workspace(id), "Researcher"@),
            workspace_event(at, dev_workspace(id), "Developer"@),
        ]
    } else if stage < STAGE_FINISH {
        let agent = agent_name(agent_of(stage));
        let k = step_of(stage);
        if k == 0 {
            seq![
                EventModel::AgentEvent {
                    timestamp: at,
                    agent,
                    status: "thinking"@,
                    action: Some("Process "@ + agent),
                    message: agent + " is analyzing the task"@,
                },
            ]
        } else if k < 5 {
            seq![chunk_event(at, agent, k - 1)]
        } else {
            seq![
                chunk_event(at, agent, 4),
                EventModel::AgentEvent {
                    timestamp: at,
                    agent,
                    status: "complete"@,
                    action: Some(agent + " completed"@),
                    message: agent + " finished processing"@,
                },
            ]
        }
    } else if stage == STAGE_FINISH {
        seq![
            EventModel::TaskComplete {
                timestamp: at,
                task_id: id,
                duration_seconds: TASK_DURATION_SECONDS,
            },
        ]
    } else {
        Seq::empty()
    }
}

/// What the driver does after a stage.
#[derive(Clone, Copy, Debug, PartialEq, Eq, Structural)]
pub enum StepOutcome {
    /// Wait this many milliseconds, then run the next stage.
    Wait(u64),
    /// The task is done.
    Finished,
}

pub open spec fn stage_outcome(stage: nat) -> StepOutcome {
    if stage == STAGE_START {
        StepOutcome::Wait(2000)
    } else if stage == STAGE_WORKSPACES {
        StepOutcome::Wait(3000)
    } else if stage < STAGE_FINISH {
        if step_of(stage) < 5 {
            StepOutcome::Wait(500)
        } else if agent_of(stage) < 2 {
            StepOutcome::Wait(3000)
        } else {
            StepOutcome::Wait(1000)
        }
    } else {
        StepOutcome::Finished
    }
}

/// `new` holds the events of `old` followed by events whose contents are
/// `views`.
pub open spec fn extends_with(old: BroadcastModel, new: BroadcastModel, views: Seq<EventModel>) -> bool {
    &&& new.capacity == old.capacity
    &&& new.history.len() == old.history.len() + views.len()
    &&& new.history.subrange(0, old.history.len() as int) == old.history
    &&& event_views(new.history.subrange(old.history.len() as int, new.history.len() as int)) == views
}

pub proof fn lemma_published_all_extends(m: BroadcastModel, es: Seq<BroadcastMessage>)
    ensures
        extends_with(m, published_all(m, es), event_views(es)),
{
    let n = published_all(m, es);
    assert(n.history.subrange(0, m.history.len() as int) =~= m.history);
    assert(n.history.subrange(m.history.len() as int, n.history.len() as int) =~= es);
}

fn agent_name_text(a: u64) -> (r: String)
    requires
        a < 3,
    ensures
        r@ == agent_name(a as int),
{
    if a == 0 {
        String::from_str("ProductManager")
    } else if a == 1 {
        String::from_str("Architect")
    } else {
        String::from_str("Engineer")
    }
}

fn chunk_text_of(i: u64) -> (r: String)
    requires
        i < 5,
    ensures
        r@ == chunk_text(i as int),
{
    if i == 0 {
        String::from_str("Processing step 1...\n")
    } else if i == 1 {
        String::from_str("Processing step 2...\n")
    } else if i == 2 {
        String::from_str("Processing step 3...\n")
    } else if i == 3 {
        String::from_str("Processing step 4...\n")
    } else {
        String::from_str("Processing step 5...\n")
    }
}

fn workspace_ready(at: Timestamp, ws: &String, agent_type: &str) -> (r: BroadcastMessage)
    ensures
        r@ == workspace_event(at, ws@, agent_type@),
{
    BroadcastMessage::WorkspaceReady {
        timestamp: at,
        workspace_id: ws.clone(),
        agent_type: String::from_str(agent_type),
        url: join("http://localhost:6901/?workspace=", ws.as_str()),
    }
}

fn stream_chunk(at: Timestamp, agent: &String, i: u64) -> (r: BroadcastMessage)
    requires
        i < 5,
    ensures
        r@ == chunk_event(at, agent@, i as int),
{
    BroadcastMessage::StreamChunk {
        timestamp: at,
        agent: agent.clone(),
        content: chunk_text_of(i),
        chunk_id: i as usize,
    }
}

/// Drives one task through its stages. Each call of `step` runs one stage:
/// it updates the registry, publishes that stage's events, and says how long
/// to wait before the next one.
pub struct TaskExecutor {
    pub task_id: String,
    pub stage: u64,
}

impl TaskExecutor {
    pub fn new(task_id: String) -> (r: TaskExecutor)
        ensures
            r.task_id@ == task_id@,
            r.stage == STAGE_START,
    {
        TaskExecutor { task_id, stage: STAGE_START }
    }

    /// Runs the current stage at time `at`.
    pub fn step(
        &mut self,
        registry: &mut TaskRegistry,
        broadcaster: &mut EventBroadcaster,
        at: Timestamp,
    ) -> (r: StepOutcome)
        requires
            old(registry).wf(),
            old(broadcaster).wf(),
            old(broadcaster)@.history.len() + 2 <= u64::MAX,
            old(self).stage <= STAGE_DONE,
        ensures
            final(registry).wf(),
            final(broadcaster).wf(),
            final(self).task_id@ == old(self).task_id@,
            final(self).stage == if old(self).stage < STAGE_DONE {
                old(self).stage + 1
            } else {
                old(self).stage as int
            },
            final(registry)@ == stage_registry(old(registry)@, old(self).task_id@, old(self).stage as nat, at),
            extends_with(
                old(broadcaster)@,
                final(broadcaster)@,
                stage_events(old(self).task_id@, old(self).stage as nat, at),
            ),
            r == stage_outcome(old(self).stage as nat),
    {
        let ghost b0 = broadcaster@;
        let s = self.stage;
        if s == STAGE_START {
            registry.update_task_status_at(&self.task_id, TaskStatus::Running, at);
            let msg = BroadcastMessage::AgentEvent {
                timestamp: at,
                agent: String::from_str("system"),
                status: String::from_str("running"),
                action: Some(String::from_str("start_task")),
                message: join3("Task ", self.task_id.as_str(), " started"),
            };
            let ghost g = msg;
            broadcaster.broadcast(msg);
            let p = prefix(self.task_id.as_str(), 8);
            let ws1 = join("ws-research-", p.as_str());
            let ws2 = join("ws-dev-", p.as_str());
            registry.add_workspace_to_task(&self.task_id, ws1);
            registry.add_workspace_to_task(&self.task_id, ws2);
            self.stage = STAGE_WORKSPACES;
            proof {
                assert(broadcaster@.history =~= published_all(b0, seq![g]).history);
                lemma_published_all_extends(b0, seq![g]);
                assert(event_views(seq![g]) =~= seq![g@]);
            }
            StepOutcome::Wait(2000)
        } else if s == STAGE_WORKSPACES {
            let p = prefix(self.task_id.as_str(), 8);
            let ws1 = join("ws-research-", p.as_str());
            let ws2 = join("ws-dev-", p.as_str());
            let m1 = workspace_ready(at, &ws1, "Researcher");
            let m2 = workspace_ready(at, &ws2, "Developer");
            let ghost g1 = m1;
            let ghost g2 = m2;
            broadcaster.broadcast(m1);
            broadcaster.broadcast(m2);
            self.stage = s + 1;
            proof {
                assert(broadcaster@.history =~= published_all(b0, seq![g1, g2]).history);
                lemma_published_all_extends(b0, seq![g1, g2]);
                assert(event_views(seq![g1, g2]) =~= seq![g1@, g2@]);
            }
            StepOutcome::Wait(3000)
        } else if s < STAGE_FINISH {
            let a = (s - STAGE_AGENTS) / 6;
            let k = (s - STAGE_AGENTS) % 6;
            let agent = agent_name_text(a);
            if k == 0 {
                let msg = BroadcastMessage::AgentEvent {
                    timestamp: at,
                    agent: agent.clone(),
                    status: String::from_str("thinking"),
                    action: Some(join("Process ", agent.as_str())),
                    message: join(agent.as_str(), " is analyzing the task"),
                };
                let ghost g = msg;
                broadcaster.broadcast(msg);
                self.stage = s + 1;
                proof {
                    assert(broadcaster@.history =~= published_all(b0, seq![g]).history);
                    lemma_published_all_extends(b0, seq![g]);
                    assert(event_views(seq![g]) =~= seq![g@]);
                }
                StepOutcome::Wait(500)
            } else if k < 5 {
                let msg = stream_chunk(at, &agent, k - 1);
                let ghost g = msg;
                broadcaster.broadcast(msg);
                self.stage = s + 1;
                proof {
                    assert(broadcaster@.history =~= published_all(b0, seq![g]).history);
                    lemma_published_all_extends(b0, seq![g]);
                    assert(event_views(seq![g]) =~= seq![g@]);
                }
                StepOutcome::Wait(500)
            } else {
                let m1 = stream_chunk(at, &agent, 4);
                let m2 = BroadcastMessage::AgentEvent {
                    timestamp: at,
                    agent: agent.clone(),
                    status: String::from_str("complete"),
                    action: Some(join(agent.as_str(), " completed")),
                    message: join(agent.as_str(), " finished processing"),
                };
                let ghost g1 = m1;
                let ghost g2 = m2;
                broadcaster.broadcast(m1);
                broadcaster.broadcast(m2);
                self.stage = s + 1;
                proof {
                    assert(broadcaster@.history =~= published_all(b0, seq![g1, g2]).history);
                    lemma_published_all_extends(b0, seq![g1, g2]);
                    assert(event_views(seq![g1, g2]) =~= seq![g1@, g2@]);
                }
                if a < 2 {
                    StepOutcome::Wait(3000)
                } else {
                    StepOutcome::Wait(1000)
                }
            }
        } else if s == STAGE_FINISH {
            registry.update_task_status_at(&self.task_id, TaskStatus::Completed, at);
            let msg = BroadcastMessage::TaskComplete {
                timestamp: at,
                task_id: self.task_id.clone(),
                duration_seconds: TASK_DURATION_SECONDS,
            };
            let ghost g = msg;
            broadcaster.broadcast(msg);
            self.stage = STAGE_DONE;
            proof {
                assert(broadcaster@.history =~= published_all(b0, seq![g]).history);
                lemma_published_all_extends(b0, seq![g]);
                assert(event_views(seq![g]) =~= seq![g@]);
            }
            StepOutcome::Finished
        } else {
            proof {
                lemma_published_all_extends(b0, Seq::empty());
                assert(b0 == published_all(b0, Seq::empty()));
                assert(event_views(Seq::<BroadcastMessage>::empty()) =~= Seq::<EventModel>::empty());
            }
            StepOutcome::Finished
        }
    }
}


impl TaskExecutor {
    /// Ends the task after a failed stage, at time `at`: the task becomes
    /// Failed and an Error event carries the failure message.
    pub fn fail(
        &mut self,
        registry: &mut TaskRegistry,
        broadcaster: &mut EventBroadcaster,
        message: String,
        at: Timestamp,
    )
        requires
            old(registry).wf(),
            old(broadcaster).wf(),
            old(broadcaster)@.history.len() < u64::MAX,
        ensures
            final(registry).wf(),
            final(broadcaster).wf(),
            final(self).task_id@ == old(self).task_id@,
            final(self).stage == STAGE_DONE,
            final(registry)@ == status_updated(old(registry)@, old(self).task_id@, TaskStatus::Failed, at),
            extends_with(
                old(broadcaster)@,
                final(broadcaster)@,
                seq![EventModel::Error { timestamp: at, message: message@, details: None }],
            ),
    {
        let ghost b0 = broadcaster@;
        registry.update_task_status_at(&self.task_id, TaskStatus::Failed, at);
        let msg = BroadcastMessage::Error { timestamp: at, message, details: None };
        let ghost g = msg;
        broadcaster.broadcast(msg);
        self.stage = STAGE_DONE;
        proof {
            assert(broadcaster@.history =~= published_all(b0, seq![g]).history);
            lemma_published_all_extends(b0, seq![g]);
            assert(event_views(seq![g]) =~= seq![g@]);
        }
    }
}

/// The registry after the first `n` stages, stage `i` running at `nows[i]`.
pub open spec fn script_registry(
    m: Map<Seq<char>, TaskModel>,
    id: Seq<char>,
    nows: Seq<Timestamp>,
    n: nat,
) -> Map<Seq<char>, TaskModel>
    decreases n,
{
    if n == 0 {
        m
    } else {
        stage_registry(script_registry(m, id, nows, (n - 1) as nat), id, (n - 1) as nat, nows[n - 1])
    }
}

/// The events of the first `n` stages, in order.
pub open spec fn script_events(id: Seq<char>, nows: Seq<Timestamp>, n: nat) -> Seq<EventModel>
    decreases n,
{
    if n == 0 {
        Seq::empty()
    } else {
        script_events(id, nows, (n - 1) as nat) + stage_events(id, (n - 1) as nat, nows[n - 1])
    }
}

proof fn lemma_middle_stages_keep_registry(
    m: Map<Seq<char>, TaskModel>,
    id: Seq<char>,
    nows: Seq<Timestamp>,
    n: nat,
)
    requires
        1 <= n <= STAGE_FINISH,
    ensures
        script_registry(m, id, nows, n) == stage_registry(m, id, 0, nows[0]),
    decreases n,
{
    if n > 1 {
        lemma_middle_stages_keep_registry(m, id, nows, (n - 1) as nat);
    } else {
        assert(script_registry(m, id, nows, 0) == m);
    }
}

proof fn lemma_script_events_prefix(id: Seq<char>, nows: Seq<Timestamp>, n: nat, k: nat)
    requires
        n <= k,
    ensures
        script_events(id, nows, n).len() <= script_events(id, nows, k).len(),
        script_events(id, nows, k).subrange(0, script_events(id, nows, n).len() as int)
            == script_events(id, nows, n),
    decreases k,
{
    if n < k {
        lemma_script_events_prefix(id, nows, n, (k - 1) as nat);
        let a = script_events(id, nows, (k - 1) as nat);
        let b = stage_events(id, (k - 1) as nat, nows[k - 1]);
        assert((a + b).subrange(0, script_events(id, nows, n).len() as int)
            =~= a.subrange(0, script_events(id, nows, n).len() as int));
    } else {
        assert(script_events(id, nows, k).subrange(0, script_events(id, nows, k).len() as int)
            =~= script_events(id, nows, k));
    }
}

/// Running every stage of a freshly created task leaves it Completed, with
/// its completion time set and its two workspaces recorded; the events it
/// publishes start with the "running" announcement, then the two workspace
/// announcements, and end with the completion of that very task.
pub proof fn lemma_full_run(m: Map<Seq<char>, TaskModel>, id: Seq<char>, nows: Seq<Timestamp>)
    requires
        m.contains_key(id),
        m[id].status == TaskStatus::Pending,
        m[id].workspaces.len() == 0,
        nows.len() == STAGE_DONE,
    ensures
        ({
            let r = script_registry(m, id, nows, STAGE_DONE as nat);
            &&& r[id].status == TaskStatus::Completed
            &&& r[id].completed_at == Some(nows[STAGE_FINISH as int])
            &&& r[id].workspaces == seq![research_workspace(id), dev_workspace(id)]
        }),
        ({
            let ev = script_events(id, nows, STAGE_DONE as nat);
            &&& ev.len() >= 4
            &&& ev[0] matches EventModel::AgentEvent { status, .. } && status == "running"@
            &&& ev[1] matches EventModel::WorkspaceReady { .. }
            &&& ev[2] matches EventModel::WorkspaceReady { .. }
            &&& ev[ev.len() - 1] matches EventModel::TaskComplete { task_id, .. } && task_id == id
        }),
{
    lemma_middle_stages_keep_registry(m, id, nows, STAGE_FINISH as nat);
    let m0 = stage_registry(m, id, 0, nows[0]);
    assert(m0[id].workspaces =~= seq![research_workspace(id), dev_workspace(id)]);
    lemma_script_events_prefix(id, nows, 3, STAGE_FINISH as nat);
    let e3 = script_events(id, nows, 3);
    assert(script_events(id, nows, 0) == Seq::<EventModel>::empty());
    assert(script_events(id, nows, 1) =~= stage_events(id, 0, nows[0]));
    assert(script_events(id, nows, 2).len() == 3);
    assert(e3[0] == script_events(id, nows, 2)[0]);
    assert(e3[1] == script_events(id, nows, 2)[1]);
    assert(e3[2] == script_events(id, nows, 2)[2]);
    let e20 = script_events(id, nows, STAGE_FINISH as nat);
    assert(e20.subrange(0, e3.len() as int)[0] == e20[0]);
    assert(e20.subrange(0, e3.len() as int)[1] == e20[1]);
    assert(e20.subrange(0, e3.len() as int)[2] == e20[2]);
}

/// Cancelling a pending or running task makes it Failed at once, and no
/// stage of its executor, still running or not, changes its status or its
/// completion time afterwards.
pub proof fn lemma_cancel_sticks(
    m: Map<Seq<char>, TaskModel>,
    id: Seq<char>,
    at: Timestamp,
    stage: nat,
    later: Timestamp,
)
    requires
        m.contains_key(id),
        !m[id].status.spec_is_terminal(),
    ensures
        ({
            let c = status_updated(m, id, TaskStatus::Failed, at);
            let s = stage_registry(c, id, stage, later);
            &&& c[id].status == TaskStatus::Failed
            &&& c[id].completed_at == Some(at)
            &&& s[id].status == TaskStatus::Failed
            &&& s[id].completed_at == Some(at)
        }),
{
}

} // verus!
