use vstd::prelude::*;
use crate::task::Timestamp;

verus! {

/// One timestamped progress notification. The variants are closed and each
/// carries only values: no event refers back to its subscribers.
#[derive(Debug)]
pub enum BroadcastMessage {
    AgentEvent {
        timestamp: Timestamp,
        agent: String,
        status: String,
        action: Option<String>,
        message: String,
    },
    StreamChunk { timestamp: Timestamp, agent: String, content: String, chunk_id: usize },
    FileCreated {
        timestamp: Timestamp,
        path: String,
        name: String,
        size: usize,
        download_url: String,
    },
    WorkspaceReady { timestamp: Timestamp, workspace_id: String, agent_type: String, url: String },
    TaskComplete { timestamp: Timestamp, task_id: String, duration_seconds: u64 },
    Error { timestamp: Timestamp, message: String, details: Option<String> },
}

/// The content of an event, with its texts as character sequences.
pub enum EventModel {
    AgentEvent {
        timestamp: Timestamp,
        agent: Seq<char>,
        status: Seq<char>,
        action: Option<Seq<char>>,
        message: Seq<char>,
    },
    StreamChunk { timestamp: Timestamp, agent: Seq<char>, content: Seq<char>, chunk_id: usize },
    FileCreated {
        timestamp: Timestamp,
        path: Seq<char>,
        name: Seq<char>,
        size: usize,
        download_url: Seq<char>,
    },
    WorkspaceReady {
        timestamp: Timestamp,
        workspace_id: Seq<char>,
        agent_type: Seq<char>,
        url: Seq<char>,
    },
    TaskComplete { timestamp: Timestamp, task_id: Seq<char>, duration_seconds: u64 },
    Error { timestamp: Timestamp, message: Seq<char>, details: Option<Seq<char>> },
}

pub open spec fn opt_view(s: Option<String>) -> Option<Seq<char>> {
    match s {
        Some(v) => Some(v@),
        None => None,
    }
}

impl View for BroadcastMessage {
    type V = EventModel;

    open spec fn view(&self) -> EventModel {
        match *self {
            BroadcastMessage::AgentEvent { timestamp, agent, status, action, message } => {
                EventModel::AgentEvent {
                    timestamp,
                    agent: agent@,
                    status: status@,
                    action: opt_view(action),
                    message: message@,
                }
            },
            BroadcastMessage::StreamChunk { timestamp, agent, content, chunk_id } => {
                EventModel::StreamChunk { timestamp, agent: agent@, content: content@, chunk_id }
            },
            BroadcastMessage::FileCreated { timestamp, path, name, size, download_url } => {
                EventModel::FileCreated {
                    timestamp,
                    path: path@,
                    name: name@,
                    size,
                    download_url: download_url@,
                }
            },
            BroadcastMessage::WorkspaceReady { timestamp, workspace_id, agent_type, url } => {
                EventModel::WorkspaceReady {
                    timestamp,
                    workspace_id: workspace_id@,
                    agent_type: agent_type@,
                    url: url@,
                }
            },
            BroadcastMessage::TaskComplete { timestamp, task_id, duration_seconds } => {
                EventModel::TaskComplete { timestamp, task_id: task_id@, duration_seconds }
            },
            BroadcastMessage::Error { timestamp, message, details } => {
                EventModel::Error { timestamp, message: message@, details: opt_view(details) }
            },
        }
    }
}

/// The contents of a sequence of events.
pub open spec fn event_views(es: Seq<BroadcastMessage>) -> Seq<EventModel> {
    es.map_values(|e: BroadcastMessage| e@)
}

/// A copy of an optional string.
pub fn copy_opt_string(s: &Option<String>) -> (r: Option<String>)
    ensures
        r == *s,
{
    match s {
        Some(v) => Some(v.clone()),
        None => None,
    }
}

impl BroadcastMessage {
    /// A copy of the event, equal to it.
    pub fn duplicate(&self) -> (r: BroadcastMessage)
        ensures
            r == *self,
    {
        match self {
            BroadcastMessage::AgentEvent { timestamp, agent, status, action, message } => {
                BroadcastMessage::AgentEvent {
                    timestamp: *timestamp,
                    agent: agent.clone(),
                    status: status.clone(),
                    action: copy_opt_string(action),
                    message: message.clone(),
                }
            },
            BroadcastMessage::StreamChunk { timestamp, agent, content, chunk_id } => {
                BroadcastMessage::StreamChunk {
                    timestamp: *timestamp,
                    agent: agent.clone(),
                    content: content.clone(),
                    chunk_id: *chunk_id,
                }
            },
            BroadcastMessage::FileCreated { timestamp, path, name, size, download_url } => {
                BroadcastMessage::FileCreated {
                    timestamp: *timestamp,
                    path: path.clone(),
                    name: name.clone(),
                    size: *size,
                    download_url: download_url.clone(),
                }
            },
            BroadcastMessage::WorkspaceReady { timestamp, workspace_id, agent_type, url } => {
                BroadcastMessage::WorkspaceReady {
                    timestamp: *timestamp,
                    workspace_id: workspace_id.clone(),
                    agent_type: agent_type.clone(),
                    url: url.clone(),
                }
            },
            BroadcastMessage::TaskComplete { timestamp, task_id, duration_seconds } => {
                BroadcastMessage::TaskComplete {
                    timestamp: *timestamp,
                    task_id: task_id.clone(),
                    duration_seconds: *duration_seconds,
                }
            },
            BroadcastMessage::Error { timestamp, message, details } => BroadcastMessage::Error {
                timestamp: *timestamp,
                message: message.clone(),
                details: copy_opt_string(details),
            },
        }
    }
}

} // verus!
