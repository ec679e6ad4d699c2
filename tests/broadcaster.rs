use agentx::broadcaster::{Delivery, EventBroadcaster};
use agentx::events::BroadcastMessage;
use agentx::task::Timestamp;

fn event(i: u64) -> BroadcastMessage {
    BroadcastMessage::TaskComplete {
        timestamp: Timestamp { millis: i as i64 },
        task_id: format!("t{}", i),
        duration_seconds: i,
    }
}

fn task_of(d: &Delivery) -> Option<String> {
    match d {
        Delivery::Message(BroadcastMessage::TaskComplete { task_id, .. }) => Some(task_id.clone()),
        _ => None,
    }
}

#[test]
fn publishing_without_subscribers_is_fine() {
    let mut b = EventBroadcaster::new(2);
    for i in 0..10 {
        b.broadcast(event(i));
    }
    assert_eq!(b.published_count(), 10);
    let mut sub = b.subscribe();
    assert!(matches!(b.next(&mut sub), Delivery::Empty));
}

#[test]
fn lagging_subscriber_gets_lag_then_last_n() {
    let n: u64 = 4;
    let mut b = EventBroadcaster::new(n as usize);
    let mut sub = b.subscribe();
    for i in 0..n + 5 {
        b.broadcast(event(i));
    }
    assert!(matches!(b.next(&mut sub), Delivery::Lagged(5)));
    for i in 5..n + 5 {
        let d = b.next(&mut sub);
        assert_eq!(task_of(&d), Some(format!("t{}", i)));
    }
    assert!(matches!(b.next(&mut sub), Delivery::Empty));
}

#[test]
fn subscribers_see_only_later_events() {
    let mut b = EventBroadcaster::new(16);
    b.broadcast(event(0));
    let mut first = b.subscribe();
    b.broadcast(event(1));
    b.broadcast(event(2));
    let mut second = b.subscribe();
    b.broadcast(event(3));
    let mut seen_first = Vec::new();
    while let Some(id) = task_of(&b.next(&mut first)) {
        seen_first.push(id);
    }
    let mut seen_second = Vec::new();
    while let Some(id) = task_of(&b.next(&mut second)) {
        seen_second.push(id);
    }
    assert_eq!(seen_first, vec!["t1", "t2", "t3"]);
    assert_eq!(seen_second, vec!["t3"]);
}

#[test]
fn reading_continues_after_new_publish() {
    let mut b = EventBroadcaster::new(3);
    let mut sub = b.subscribe();
    assert!(matches!(b.next(&mut sub), Delivery::Empty));
    b.broadcast(event(7));
    assert_eq!(task_of(&b.next(&mut sub)), Some(String::from("t7")));
    assert!(matches!(b.next(&mut sub), Delivery::Empty));
}

#[test]
fn duplicate_equals_source_event() {
    let e = BroadcastMessage::AgentEvent {
        timestamp: Timestamp { millis: 3 },
        agent: String::from("a"),
        status: String::from("s"),
        action: Some(String::from("x")),
        message: String::from("m"),
    };
    let d = e.duplicate();
    assert_eq!(format!("{:?}", d), format!("{:?}", e));
}
