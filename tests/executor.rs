use agentx::api::{cancel_task_at, create_task, get_task_status, CreateTaskRequest};
use agentx::broadcaster::{Delivery, EventBroadcaster};
use agentx::events::BroadcastMessage;
use agentx::executor::{StepOutcome, TaskExecutor};
use agentx::registry::TaskRegistry;
use agentx::task::{TaskStatus, Timestamp};

fn request(idea: &str) -> CreateTaskRequest {
    CreateTaskRequest::with_defaults(idea.to_string(), None, None, None)
}

fn drain(b: &EventBroadcaster, sub: &mut agentx::broadcaster::Subscription) -> Vec<BroadcastMessage> {
    let mut out = Vec::new();
    loop {
        match b.next(sub) {
            Delivery::Message(m) => out.push(m),
            Delivery::Lagged(_) => {}
            Delivery::Empty => return out,
        }
    }
}

#[test]
fn full_run_end_to_end() {
    let mut reg = TaskRegistry::new();
    let mut b = EventBroadcaster::new(1000);
    let mut sub = b.subscribe();
    let resp = create_task(&mut reg, &mut b, request("X"));
    assert_eq!(resp.status, "pending");
    let id = resp.task_id.clone();

    let poll = get_task_status(&reg, &id).unwrap();
    assert_eq!(poll.status, "pending");
    assert_eq!(poll.idea, "X");
    assert!(poll.workspaces.is_empty());

    let mut ex = TaskExecutor::new(id.clone());
    let mut waits = Vec::new();
    let mut t: i64 = 100;
    loop {
        t += 1;
        match ex.step(&mut reg, &mut b, Timestamp { millis: t }) {
            StepOutcome::Wait(ms) => waits.push(ms),
            StepOutcome::Finished => break,
        }
    }
    assert_eq!(waits.len(), 20);
    assert_eq!(waits[0], 2000);
    assert_eq!(waits[1], 3000);
    assert_eq!(waits[2], 500);
    assert_eq!(waits[19], 1000);

    let poll = get_task_status(&reg, &id).unwrap();
    assert_eq!(poll.status, "completed");
    let prefix: String = id.chars().take(8).collect();
    assert_eq!(poll.workspaces, vec![format!("ws-research-{}", prefix), format!("ws-dev-{}", prefix)]);
    let task = reg.get_task(&id).unwrap();
    assert_eq!(task.completed_at, Some(Timestamp { millis: t }));

    let events = drain(&b, &mut sub);
    // creation notice, start, two workspaces, 3 agents x 7 events, completion
    assert_eq!(events.len(), 1 + 1 + 2 + 21 + 1);
    match &events[1] {
        BroadcastMessage::AgentEvent { agent, status, message, .. } => {
            assert_eq!(agent, "system");
            assert_eq!(status, "running");
            assert_eq!(message, &format!("Task {} started", id));
        }
        other => panic!("unexpected {:?}", other),
    }
    match &events[2] {
        BroadcastMessage::WorkspaceReady { workspace_id, agent_type, url, .. } => {
            assert_eq!(workspace_id, &format!("ws-research-{}", prefix));
            assert_eq!(agent_type, "Researcher");
            assert_eq!(url, &format!("http://localhost:6901/?workspace=ws-research-{}", prefix));
        }
        other => panic!("unexpected {:?}", other),
    }
    assert!(matches!(&events[3], BroadcastMessage::WorkspaceReady { .. }));
    match &events[5] {
        BroadcastMessage::StreamChunk { agent, content, chunk_id, .. } => {
            assert_eq!(agent, "ProductManager");
            assert_eq!(content, "Processing step 1...\n");
            assert_eq!(*chunk_id, 0);
        }
        other => panic!("unexpected {:?}", other),
    }
    match events.last().unwrap() {
        BroadcastMessage::TaskComplete { task_id, duration_seconds, .. } => {
            assert_eq!(task_id, &id);
            assert_eq!(*duration_seconds, 20);
        }
        other => panic!("unexpected {:?}", other),
    }
}

#[test]
fn cancel_mid_flight_stays_failed() {
    let mut reg = TaskRegistry::new();
    let mut b = EventBroadcaster::new(100);
    let resp = create_task(&mut reg, &mut b, request("Y"));
    let id = resp.task_id;
    let mut ex = TaskExecutor::new(id.clone());
    ex.step(&mut reg, &mut b, Timestamp { millis: 1 });
    assert_eq!(get_task_status(&reg, &id).unwrap().status, "running");

    let mut sub = b.subscribe();
    let c = cancel_task_at(&mut reg, &mut b, &id, Timestamp { millis: 2 });
    assert_eq!(c.status, "cancelled");
    assert_eq!(c.message, "Task cancelled successfully");
    assert_eq!(get_task_status(&reg, &id).unwrap().status, "failed");
    match &drain(&b, &mut sub)[0] {
        BroadcastMessage::AgentEvent { status, message, .. } => {
            assert_eq!(status, "cancelled");
            assert_eq!(message, &format!("Task {} cancelled", id));
        }
        other => panic!("unexpected {:?}", other),
    }

    let mut t: i64 = 3;
    while ex.step(&mut reg, &mut b, Timestamp { millis: t }) != StepOutcome::Finished {
        t += 1;
    }
    let task = reg.get_task(&id).unwrap();
    assert_eq!(task.status, TaskStatus::Failed);
    assert_eq!(task.completed_at, Some(Timestamp { millis: 2 }));
}

#[test]
fn failed_stage_publishes_error() {
    let mut reg = TaskRegistry::new();
    let mut b = EventBroadcaster::new(10);
    let resp = create_task(&mut reg, &mut b, request("Z"));
    let mut ex = TaskExecutor::new(resp.task_id.clone());
    ex.step(&mut reg, &mut b, Timestamp { millis: 1 });
    let mut sub = b.subscribe();
    ex.fail(&mut reg, &mut b, String::from("provisioning refused"), Timestamp { millis: 9 });
    let task = reg.get_task(&resp.task_id).unwrap();
    assert_eq!(task.status, TaskStatus::Failed);
    assert_eq!(task.completed_at, Some(Timestamp { millis: 9 }));
    match &drain(&b, &mut sub)[..] {
        [BroadcastMessage::Error { message, details, .. }] => {
            assert_eq!(message, "provisioning refused");
            assert!(details.is_none());
        }
        other => panic!("unexpected {:?}", other),
    }
    assert_eq!(ex.step(&mut reg, &mut b, Timestamp { millis: 10 }), StepOutcome::Finished);
}

#[test]
fn short_task_id_is_used_whole() {
    let mut reg = TaskRegistry::new();
    let mut b = EventBroadcaster::new(10);
    reg.create_task_with_id(String::from("abc"), String::from("i"), String::from("a"), String::from("m"), 1, Timestamp { millis: 0 });
    let mut ex = TaskExecutor::new(String::from("abc"));
    ex.step(&mut reg, &mut b, Timestamp { millis: 1 });
    let t = reg.get_task(&String::from("abc")).unwrap();
    assert_eq!(t.workspaces, vec![String::from("ws-research-abc"), String::from("ws-dev-abc")]);
}
