use cloud_ws::registry::ConnectionRegistry;
use cloud_ws::session::{Action, Event, Phase, Session};

fn s(x: &str) -> String {
    x.to_string()
}

#[test]
fn no_echo_to_origin() {
    let mut reg: ConnectionRegistry<u32> = ConnectionRegistry::new();
    reg.insert(s("w1"), s("a"), 0);
    reg.insert(s("w1"), s("b"), 1);
    reg.insert(s("w1"), s("c"), 2);
    let plan = reg.plan_fanout(&s("w1"), &s("b"), &vec![false, false, false]);
    assert_eq!(plan.deliver, vec![0, 2]);
    assert!(plan.prune.is_empty());
}

#[test]
fn other_workspaces_are_skipped() {
    let mut reg: ConnectionRegistry<u32> = ConnectionRegistry::new();
    reg.insert(s("w1"), s("a"), 0);
    reg.insert(s("w2"), s("b"), 1);
    reg.insert(s("w1"), s("c"), 2);
    let plan = reg.plan_fanout(&s("w1"), &s("a"), &vec![false, false, false]);
    assert_eq!(plan.deliver, vec![2]);
}

#[test]
fn dead_peer_pruned_and_not_sent() {
    let mut reg: ConnectionRegistry<u32> = ConnectionRegistry::new();
    reg.insert(s("w1"), s("a"), 0);
    reg.insert(s("w1"), s("b"), 1);
    reg.insert(s("w1"), s("c"), 2);
    let plan = reg.plan_fanout(&s("w1"), &s("a"), &vec![false, true, false]);
    assert_eq!(plan.deliver, vec![2]);
    assert_eq!(plan.prune, vec![s("b")]);
    reg.prune(&s("w1"), &plan.prune);
    assert!(!reg.contains(&s("w1"), &s("b")));
    assert!(reg.contains(&s("w1"), &s("a")));
    assert!(reg.contains(&s("w1"), &s("c")));
}

#[test]
fn closed_origin_is_neither_sent_nor_pruned() {
    let mut reg: ConnectionRegistry<u32> = ConnectionRegistry::new();
    reg.insert(s("w1"), s("a"), 0);
    reg.insert(s("w1"), s("b"), 1);
    let plan = reg.plan_fanout(&s("w1"), &s("a"), &vec![true, false]);
    assert_eq!(plan.deliver, vec![1]);
    assert!(plan.prune.is_empty());
}

#[test]
fn empty_registry_plans_nothing() {
    let reg: ConnectionRegistry<u32> = ConnectionRegistry::new();
    let plan = reg.plan_fanout(&s("w1"), &s("a"), &vec![]);
    assert!(plan.deliver.is_empty());
    assert!(plan.prune.is_empty());
}

/// Applies a plan: pushes `update` onto each delivered peer's outbox.
fn broadcast(reg: &mut ConnectionRegistry<usize>, outboxes: &mut Vec<Vec<Vec<u8>>>, ws: &str, origin: &str, update: &[u8]) {
    let closed = vec![false; reg.len()];
    let plan = reg.plan_fanout(&s(ws), &s(origin), &closed);
    for i in plan.deliver {
        let slot = reg.entry(i).sender;
        outboxes[slot].push(update.to_vec());
    }
    reg.prune(&s(ws), &plan.prune);
}

#[test]
fn two_peers_then_disconnect() {
    let mut reg: ConnectionRegistry<usize> = ConnectionRegistry::new();
    let mut outboxes: Vec<Vec<Vec<u8>>> = vec![Vec::new(), Vec::new()];
    let mut a = Session::with_conn(s("w1"), s("A"));
    let mut b = Session::with_conn(s("w1"), s("B"));
    for (sess, slot) in [(&mut a, 0usize), (&mut b, 1usize)] {
        assert!(matches!(sess.step(Event::Accepted), Action::Register));
        reg.insert(sess.workspace().clone(), sess.conn().clone(), slot);
        assert!(matches!(sess.step(Event::InitPayload(Some(vec![0]))), Action::SendInit(_)));
        assert!(matches!(sess.step(Event::Sent(true)), Action::Idle));
    }

    let u1 = vec![1u8, 2, 3];
    broadcast(&mut reg, &mut outboxes, "w1", "A", &u1);
    assert_eq!(outboxes[1], vec![u1.clone()]);
    assert!(outboxes[0].is_empty());

    assert!(matches!(a.step(Event::StreamEnded), Action::Unregister));
    assert_eq!(a.phase(), Phase::Closed);
    reg.remove(&s("w1"), &s("A"));
    assert!(!reg.contains(&s("w1"), &s("A")));

    let u2 = vec![9u8];
    let plan = reg.plan_fanout(&s("w1"), &s("B"), &vec![false; reg.len()]);
    for i in &plan.deliver {
        assert_ne!(reg.entry(*i).conn, s("A"));
    }
    broadcast(&mut reg, &mut outboxes, "w1", "B", &u2);
    assert!(outboxes[0].is_empty());
    assert_eq!(outboxes[1], vec![u1]);
}
