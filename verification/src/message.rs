//! The broadcast payload: a closed set of message variants with a canonical
//! text rendering.  Messages are immutable once built; the server shares one
//! value across every mailbox it is fanned out to.

use vstd::prelude::*;
use vstd::string::StringExecFns;

verus! {

/// One broadcast message.
#[derive(Debug, Clone, PartialEq, Eq)]
pub enum Message {
    /// A connection completed its handshake under this username.
    UserJoined(String),
    /// A connection under this username went away.
    UserLeft(String),
    /// One chat line, with the sender's username.
    Chat { sender: String, content: String },
}

impl Message {
    /// The canonical line written to a client's socket for this message
    /// (without the trailing newline, which the framing layer appends).
    pub open spec fn rendered(self) -> Seq<char> {
        match self {
            Message::UserJoined(username) => "("@ + username@ + " has joined the chat)"@,
            Message::UserLeft(username) => "("@ + username@ + " has left the chat :( )"@,
            Message::Chat { sender, content } => "["@ + sender@ + "]: "@ + content@,
        }
    }

    /// Builds the join notice for a username.
    pub fn user_joined(username: &str) -> (m: Message)
        ensures
            m matches Message::UserJoined(u) && u@ == username@,
    {
        Message::UserJoined(username.to_owned())
    }

    /// Builds the leave notice for a username.
    pub fn user_left(username: &str) -> (m: Message)
        ensures
            m matches Message::UserLeft(u) && u@ == username@,
    {
        Message::UserLeft(username.to_owned())
    }

    /// Builds a chat line as sent by a username.
    pub fn chat(sender: &str, content: &str) -> (m: Message)
        ensures
            m matches Message::Chat { sender: s, content: c } && s@ == sender@ && c@
                == content@,
    {
        Message::Chat { sender: sender.to_owned(), content: content.to_owned() }
    }

    /// Renders the message to its canonical text form.
    pub fn render(&self) -> (r: String)
        ensures
            r@ == self.rendered(),
    {
        match self {
            Message::UserJoined(username) => {
                let mut r = "(".to_owned();
                r.append(username.as_str());
                r.append(" has joined the chat)");
                r
            },
            Message::UserLeft(username) => {
                let mut r = "(".to_owned();
                r.append(username.as_str());
                r.append(" has left the chat :( )");
                r
            },
            Message::Chat { sender, content } => {
                let mut r = "[".to_owned();
                r.append(sender.as_str());
                r.append("]: ");
                r.append(content.as_str());
                r
            },
        }
    }
}

} // verus!
