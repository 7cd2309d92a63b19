//! Two clients going through the whole protocol, with real mailbox queues:
//! alice joins, bob joins, alice chats, bob leaves.

use std::sync::Arc;

use chat_core::handler::{handler_step, Action, Event, Phase};
use chat_core::message::Message;
use chat_core::registry::ChatState;
use tokio::sync::mpsc::Receiver;

/// Fans one message out to every given target, as the server does.
fn send_to_all(targets: &[(u64, tokio::sync::mpsc::Sender<Arc<Message>>)], m: Message) {
    let m = Arc::new(m);
    for (_, tx) in targets {
        tx.blocking_send(m.clone()).unwrap();
    }
}

/// What the forwarder would have written so far: every queued message,
/// rendered, in mailbox order.
fn drain_rendered(rx: &mut Receiver<Arc<Message>>) -> Vec<String> {
    let mut lines = Vec::new();
    while let Ok(m) = rx.try_recv() {
        lines.push(m.render());
    }
    lines
}

#[test]
fn two_clients_chat_and_one_leaves() {
    let mut state = ChatState::new();

    // U1 connects and handshakes as "alice".
    let (phase1, action1) = handler_step(Phase::Handshake, Event::Line("alice".to_string()));
    let mut rx1 = match action1 {
        Action::Join { username } => {
            let (rx, targets) = state.join(1);
            send_to_all(&targets, Message::user_joined(&username));
            rx
        }
        other => panic!("expected a join, got {:?}", other),
    };

    // U2 connects and handshakes as "bob"; alice sees the join notice.
    let (phase2, action2) = handler_step(Phase::Handshake, Event::Line("bob".to_string()));
    let mut rx2 = match action2 {
        Action::Join { username } => {
            let (rx, targets) = state.join(2);
            send_to_all(&targets, Message::user_joined(&username));
            rx
        }
        other => panic!("expected a join, got {:?}", other),
    };
    assert_eq!(drain_rendered(&mut rx1), vec!["(bob has joined the chat)"]);

    // U1 sends "hello": bob receives it, alice never receives her own line.
    let (phase1, action) = handler_step(phase1, Event::Line("hello".to_string()));
    match action {
        Action::Chat { message } => send_to_all(&state.broadcast_targets(1), message),
        other => panic!("expected a chat, got {:?}", other),
    }
    assert_eq!(drain_rendered(&mut rx2), vec!["[alice]: hello"]);
    assert_eq!(drain_rendered(&mut rx1), Vec::<String>::new());

    // U2 disconnects: alice receives exactly the leave notice.
    let (_, action) = handler_step(phase2, Event::Ended);
    match action {
        Action::Leave { username } => {
            let targets = state.leave(2);
            send_to_all(&targets, Message::user_left(&username));
        }
        other => panic!("expected a leave, got {:?}", other),
    }
    assert_eq!(drain_rendered(&mut rx1), vec!["(bob has left the chat :( )"]);
    assert!(!state.is_registered(2));
    assert!(state.is_registered(1));

    // U1 disconnects too; nobody is left to notify.
    let (_, action) = handler_step(phase1, Event::Ended);
    match action {
        Action::Leave { username } => {
            let targets = state.leave(1);
            assert!(targets.is_empty());
            send_to_all(&targets, Message::user_left(&username));
        }
        other => panic!("expected a leave, got {:?}", other),
    }
    assert!(drain_rendered(&mut rx2).is_empty());
}
