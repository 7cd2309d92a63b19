use chat_core::message::Message;

#[test]
fn join_notice_renders_canonically() {
    let m = Message::user_joined("alice");
    assert_eq!(m.render(), "(alice has joined the chat)");
}

#[test]
fn leave_notice_renders_canonically() {
    let m = Message::user_left("bob");
    assert_eq!(m.render(), "(bob has left the chat :( )");
}

#[test]
fn chat_line_renders_canonically() {
    let m = Message::chat("alice", "hello");
    assert_eq!(m.render(), "[alice]: hello");
}

#[test]
fn empty_username_is_accepted_as_is() {
    let m = Message::user_joined("");
    assert_eq!(m.render(), "( has joined the chat)");
    let c = Message::chat("", "");
    assert_eq!(c.render(), "[]: ");
}
