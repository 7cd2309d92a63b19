use std::sync::Arc;

use chat_core::message::Message;
use chat_core::registry::ChatState;

fn target_ids(targets: &[(u64, tokio::sync::mpsc::Sender<std::sync::Arc<chat_core::message::Message>>)]) -> Vec<u64> {
    let mut ids: Vec<u64> = targets.iter().map(|t| t.0).collect();
    ids.sort();
    ids
}

#[test]
fn broadcast_excludes_the_sender() {
    let mut state = ChatState::new();
    let _rx1 = state.register(1);
    let _rx2 = state.register(2);
    let _rx3 = state.register(3);
    let targets = state.broadcast_targets(2);
    let ids = target_ids(&targets);
    assert_eq!(ids, vec![1, 3]);
    assert!(!ids.contains(&2));
}

#[test]
fn broadcast_reaches_every_other_peer_exactly_once() {
    let mut state = ChatState::new();
    for id in 0..10u64 {
        let _rx = state.register(id);
    }
    let targets = state.broadcast_targets(7);
    let ids = target_ids(&targets);
    assert_eq!(ids, vec![0, 1, 2, 3, 4, 5, 6, 8, 9]);
}

#[test]
fn deregister_is_idempotent() {
    let mut state = ChatState::new();
    let _rx1 = state.register(1);
    let _rx2 = state.register(2);
    state.deregister(2);
    assert!(!state.is_registered(2));
    assert!(state.is_registered(1));
    let before = target_ids(&state.broadcast_targets(0));
    state.deregister(2);
    assert!(!state.is_registered(2));
    assert!(state.is_registered(1));
    let after = target_ids(&state.broadcast_targets(0));
    assert_eq!(before, after);
}

#[test]
fn deregister_of_absent_id_is_a_no_op() {
    let mut state = ChatState::new();
    let _rx = state.register(5);
    state.deregister(9);
    assert!(state.is_registered(5));
    assert_eq!(target_ids(&state.broadcast_targets(0)), vec![5]);
}

#[test]
fn join_targets_are_the_peers_already_present() {
    let mut state = ChatState::new();
    let _rx1 = state.register(1);
    let _rx2 = state.register(2);
    let (_rx3, targets) = state.join(3);
    assert_eq!(target_ids(&targets), vec![1, 2]);
    assert!(state.is_registered(3));
}

#[test]
fn leave_removes_the_entry_before_fanning_out() {
    let mut state = ChatState::new();
    let _rx1 = state.register(1);
    let _rx2 = state.register(2);
    let targets = state.leave(2);
    assert_eq!(target_ids(&targets), vec![1]);
    assert!(!state.is_registered(2));
}

#[test]
fn mailbox_queue_has_the_stated_capacity() {
    let mut state = ChatState::new();
    let _rx = state.register(1);
    let targets = state.broadcast_targets(0);
    assert_eq!(targets[0].1.max_capacity(), chat_core::mailbox::MAX_MESSAGES);
}

#[test]
fn send_to_departed_peer_fails_without_reaching_others() {
    let mut state = ChatState::new();
    let rx1 = state.register(1);
    drop(rx1); // this peer's forwarder is gone, its mailbox is closed
    let mut rx2 = state.register(2);
    let m = Arc::new(Message::chat("alice", "hello"));
    for (id, tx) in &state.broadcast_targets(0) {
        let sent = tx.blocking_send(m.clone());
        if *id == 1 {
            assert!(sent.is_err());
        } else {
            assert!(sent.is_ok());
        }
    }
    assert_eq!(rx2.blocking_recv().unwrap().render(), "[alice]: hello");
}

#[test]
fn replaced_entry_stays_unique() {
    let mut state = ChatState::new();
    let _rx_old = state.register(4);
    let _rx_new = state.register(4);
    assert_eq!(target_ids(&state.broadcast_targets(0)), vec![4]);
}
