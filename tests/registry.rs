use agentx::registry::TaskRegistry;
use agentx::task::{TaskStatus, Timestamp};

fn s(v: &str) -> String {
    v.to_string()
}

fn registry_with(id: &str) -> TaskRegistry {
    let mut r = TaskRegistry::new();
    r.create_task_with_id(s(id), s("idea"), s("MetaGPT"), s("m"), 4, Timestamp { millis: 10 });
    r
}

#[test]
fn create_returns_pending_record() {
    let mut r = TaskRegistry::new();
    let t = r.create_task(s("X"), s("MetaGPT"), s("qwen"), 4);
    assert_eq!(t.status, TaskStatus::Pending);
    assert_eq!(t.completed_at, None);
    assert!(t.workspaces.is_empty());
    assert_eq!(t.idea, "X");
    assert_eq!(t.agent_type, "MetaGPT");
    assert_eq!(t.model, "qwen");
    assert_eq!(t.n_round, 4);
    assert_eq!(t.id.len(), 36);
    assert_eq!(t.id.chars().filter(|c| *c == '-').count(), 4);
    assert!(r.contains(&t.id));
    assert_eq!(r.len(), 1);
}

#[test]
fn hundred_creates_give_distinct_ids() {
    let mut r = TaskRegistry::new();
    let mut ids: Vec<String> = Vec::new();
    for i in 0..100 {
        let t = r.create_task(format!("idea {}", i), s("a"), s("m"), 1);
        ids.push(t.id);
    }
    assert_eq!(r.len(), 100);
    let mut sorted = ids.clone();
    sorted.sort();
    sorted.dedup();
    assert_eq!(sorted.len(), 100);
    for id in &ids {
        assert!(r.get_task(id).is_some());
    }
}

#[test]
fn terminal_status_sets_completed_at() {
    let mut r = registry_with("a");
    r.update_task_status_at(&s("a"), TaskStatus::Running, Timestamp { millis: 20 });
    let t = r.get_task(&s("a")).unwrap();
    assert_eq!(t.status, TaskStatus::Running);
    assert_eq!(t.completed_at, None);
    r.update_task_status_at(&s("a"), TaskStatus::Completed, Timestamp { millis: 30 });
    let t = r.get_task(&s("a")).unwrap();
    assert_eq!(t.status, TaskStatus::Completed);
    assert_eq!(t.completed_at, Some(Timestamp { millis: 30 }));

    let mut r = registry_with("b");
    r.update_task_status(&s("b"), TaskStatus::Failed);
    let t = r.get_task(&s("b")).unwrap();
    assert_eq!(t.status, TaskStatus::Failed);
    assert!(t.completed_at.is_some());
}

#[test]
fn terminal_record_is_not_changed_again() {
    let mut r = registry_with("a");
    r.update_task_status_at(&s("a"), TaskStatus::Failed, Timestamp { millis: 30 });
    r.update_task_status_at(&s("a"), TaskStatus::Completed, Timestamp { millis: 40 });
    r.update_task_status_at(&s("a"), TaskStatus::Running, Timestamp { millis: 50 });
    let t = r.get_task(&s("a")).unwrap();
    assert_eq!(t.status, TaskStatus::Failed);
    assert_eq!(t.completed_at, Some(Timestamp { millis: 30 }));
}

#[test]
fn unknown_id_is_ignored() {
    let mut r = registry_with("a");
    r.update_task_status(&s("zzz"), TaskStatus::Completed);
    r.add_workspace_to_task(&s("zzz"), s("ws"));
    assert_eq!(r.len(), 1);
    assert!(r.get_task(&s("zzz")).is_none());
    let t = r.get_task(&s("a")).unwrap();
    assert_eq!(t.status, TaskStatus::Pending);
    assert!(t.workspaces.is_empty());
}

#[test]
fn workspaces_keep_their_order() {
    let mut r = registry_with("a");
    r.add_workspace_to_task(&s("a"), s("w1"));
    r.add_workspace_to_task(&s("a"), s("w2"));
    r.add_workspace_to_task(&s("a"), s("w3"));
    let t = r.get_task(&s("a")).unwrap();
    assert_eq!(t.workspaces, vec![s("w1"), s("w2"), s("w3")]);
}

#[test]
fn snapshot_is_independent_of_registry() {
    let mut r = registry_with("a");
    let before = r.get_task(&s("a")).unwrap();
    r.add_workspace_to_task(&s("a"), s("w1"));
    assert!(before.workspaces.is_empty());
    assert_eq!(r.get_task(&s("a")).unwrap().workspaces.len(), 1);
}

#[test]
fn fresh_id_lengthens_a_taken_candidate() {
    let mut r = registry_with("abc");
    r.create_task_with_id(s("abcd"), s("i"), s("a"), s("m"), 1, Timestamp { millis: 1 });
    assert_eq!(r.fresh_id(s("new")), "new");
    assert_eq!(r.fresh_id(s("abc")), "abc--");
}
