//! The per-connection lifecycle as a state machine: handshake, registration
//! with a join notice, the chat read loop, and teardown with a leave notice.
//! The surrounding binary reads lines from the socket and feeds each outcome
//! in as an event; every decision about what to broadcast is made — and
//! proved — here.

use vstd::prelude::*;
use vstd::string::StringExecFns;
use crate::message::Message;

verus! {

/// Where a connection stands in its lifecycle.
#[derive(Debug, Clone, PartialEq, Eq)]
pub enum Phase {
    /// The username prompt has been sent; the first line is still owed.
    Handshake,
    /// Registered under this username; every further line is a chat line.
    Chatting { username: String },
    /// The connection is torn down; nothing more will ever be broadcast.
    Done,
}

/// One outcome of reading the connection's next line.
#[derive(Debug, Clone, PartialEq, Eq)]
pub enum Event {
    /// A full line arrived.
    Line(String),
    /// The client closed its end of the stream.
    Ended,
    /// Reading failed; the connection counts as gone.
    Failed,
}

/// What the handler must do after one event, besides moving on.
#[derive(Debug, Clone, PartialEq, Eq)]
pub enum Action {
    /// Nothing: no broadcast is owed.
    Nothing,
    /// Register the connection under this username, then broadcast the join
    /// notice, excluding the connection itself.
    Join { username: String },
    /// Broadcast this chat message, excluding the connection itself.
    Chat { message: Message },
    /// Deregister the connection, then broadcast the leave notice for this
    /// username, excluding the connection itself.
    Leave { username: String },
}

/// The transition table: what one event does in each phase.
pub open spec fn step_spec(phase: Phase, event: Event) -> (Phase, Action) {
    match (phase, event) {
        (Phase::Handshake, Event::Line(username)) => (
            Phase::Chatting { username: username },
            Action::Join { username: username },
        ),
        (Phase::Handshake, _) => (Phase::Done, Action::Nothing),
        (Phase::Chatting { username }, Event::Line(line)) => (
            Phase::Chatting { username: username },
            Action::Chat { message: Message::Chat { sender: username, content: line } },
        ),
        (Phase::Chatting { username }, _) => (Phase::Done, Action::Leave { username: username }),
        (Phase::Done, _) => (Phase::Done, Action::Nothing),
    }
}

/// The line the server sends to open the handshake.
pub fn handshake_prompt() -> (s: String)
    ensures
        s@ == "Enter your username:"@,
{
    "Enter your username:".to_owned()
}

/// Takes one step of the connection lifecycle.
pub fn handler_step(phase: Phase, event: Event) -> (r: (Phase, Action))
    ensures
        r == step_spec(phase, event),
{
    match (phase, event) {
        (Phase::Handshake, Event::Line(username)) => {
            let u = username.clone();
            (Phase::Chatting { username: username }, Action::Join { username: u })
        },
        (Phase::Handshake, Event::Ended) => (Phase::Done, Action::Nothing),
        (Phase::Handshake, Event::Failed) => (Phase::Done, Action::Nothing),
        (Phase::Chatting { username }, Event::Line(line)) => {
            let u = username.clone();
            (
                Phase::Chatting { username: username },
                Action::Chat { message: Message::Chat { sender: u, content: line } },
            )
        },
        (Phase::Chatting { username }, Event::Ended) => (
            Phase::Done,
            Action::Leave { username: username },
        ),
        (Phase::Chatting { username }, Event::Failed) => (
            Phase::Done,
            Action::Leave { username: username },
        ),
        (Phase::Done, _) => (Phase::Done, Action::Nothing),
    }
}

/// The actions a connection takes over a whole run: starting in `phase`, one
/// action per event, each step feeding the next.
pub open spec fn actions_from(phase: Phase, events: Seq<Event>) -> Seq<Action>
    decreases events.len(),
{
    if events.len() == 0 {
        Seq::empty()
    } else {
        seq![step_spec(phase, events[0]).1] + actions_from(
            step_spec(phase, events[0]).0,
            events.skip(1),
        )
    }
}

/// A run takes exactly one action per event.
pub proof fn lemma_actions_len(phase: Phase, events: Seq<Event>)
    ensures
        actions_from(phase, events).len() == events.len(),
    decreases events.len(),
{
    if events.len() > 0 {
        lemma_actions_len(step_spec(phase, events[0]).0, events.skip(1));
    }
}

/// A torn-down connection is silent: from `Done`, no event ever produces an
/// action again.
pub proof fn lemma_done_silent(events: Seq<Event>, i: int)
    requires
        0 <= i < events.len(),
    ensures
        actions_from(Phase::Done, events)[i] == Action::Nothing,
    decreases events.len(),
{
    lemma_actions_len(Phase::Done, events.skip(1));
    if i > 0 {
        lemma_done_silent(events.skip(1), i - 1);
    }
}

/// Join before self-chat: over a connection's whole run, every chat
/// broadcast it issues comes strictly after its own join notice, so no peer
/// can be handed a chat line from a username whose join notice was never
/// fanned out before it.
pub proof fn lemma_join_precedes_chat(events: Seq<Event>, i: int)
    requires
        0 <= i < events.len(),
        actions_from(Phase::Handshake, events)[i] is Chat,
    ensures
        exists|j: int|
            0 <= j < i && actions_from(Phase::Handshake, events)[j] is Join,
{
    let acts = actions_from(Phase::Handshake, events);
    lemma_actions_len(Phase::Handshake, events);
    lemma_actions_len(step_spec(Phase::Handshake, events[0]).0, events.skip(1));
    match events[0] {
        Event::Line(_) => {
            assert(acts[0] is Join);
            assert(i != 0);
        },
        _ => {
            assert(acts[0] == Action::Nothing);
            assert(i != 0);
            lemma_done_silent(events.skip(1), i - 1);
            assert(acts[i] == Action::Nothing);
        },
    }
}

/// Leave is final: once a run issues a leave notice, every later step is
/// silent — in particular, no chat broadcast from that connection is ever
/// issued after its read loop has ended.
pub proof fn lemma_silence_after_leave(phase: Phase, events: Seq<Event>, i: int, k: int)
    requires
        0 <= i < k < events.len(),
        actions_from(phase, events)[i] is Leave,
    ensures
        actions_from(phase, events)[k] == Action::Nothing,
    decreases events.len(),
{
    let next = step_spec(phase, events[0]).0;
    lemma_actions_len(phase, events);
    lemma_actions_len(next, events.skip(1));
    if i == 0 {
        assert(next is Done);
        lemma_done_silent(events.skip(1), k - 1);
    } else {
        lemma_silence_after_leave(next, events.skip(1), i - 1, k - 1);
    }
}

/// From the chatting phase, chat lines keep the connection chatting, and the
/// first step that is not a chat line issues the leave notice.
proof fn lemma_lines_keep_chatting(username: String, events: Seq<Event>, i: int)
    requires
        0 <= i < events.len(),
        forall|j: int| 0 <= j < i ==> (#[trigger] events[j]) is Line,
        !(events[i] is Line),
    ensures
        actions_from(Phase::Chatting { username }, events)[i] is Leave,
    decreases i,
{
    lemma_actions_len(
        step_spec(Phase::Chatting { username }, events[0]).0,
        events.skip(1),
    );
    if i > 0 {
        lemma_lines_keep_chatting(username, events.skip(1), i - 1);
    }
}

/// The leave notice is owed: when the handshake succeeded, the very step on
/// which the read loop ends — the stream closes or fails after nothing but
/// chat lines — issues the leave notice.  Together with the silence lemma,
/// a run that ends its read loop issues exactly one leave notice.
pub proof fn lemma_leave_on_read_loop_end(events: Seq<Event>, i: int)
    requires
        0 < i < events.len(),
        events[0] is Line,
        forall|j: int| 0 < j < i ==> (#[trigger] events[j]) is Line,
        !(events[i] is Line),
    ensures
        actions_from(Phase::Handshake, events)[i] is Leave,
{
    let next = step_spec(Phase::Handshake, events[0]).0;
    lemma_actions_len(next, events.skip(1));
    if let Event::Line(username) = events[0] {
        assert(next == Phase::Chatting { username });
        lemma_lines_keep_chatting(username, events.skip(1), i - 1);
    }
}

/// A run issues at most one leave notice.
pub proof fn lemma_at_most_one_leave(phase: Phase, events: Seq<Event>, i: int, k: int)
    requires
        0 <= i < k < events.len(),
        actions_from(phase, events)[i] is Leave,
    ensures
        !(actions_from(phase, events)[k] is Leave),
{
    lemma_silence_after_leave(phase, events, i, k);
}

} // verus!
