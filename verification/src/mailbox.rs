//! Model of a connection's mailbox: the bounded, ordered queue of messages
//! awaiting delivery to that connection's socket.  Delivery appends at the
//! tail, the forwarder drains from the head, so a mailbox is FIFO; once it is
//! closed nothing more is accepted, but what is already queued can still be
//! drained.

use vstd::prelude::*;
use crate::message::Message;

verus! {

/// Capacity of every mailbox, in messages.
pub const MAX_MESSAGES: usize = 128;

/// What became of one delivery attempt.
#[derive(Debug, Clone, Copy, PartialEq, Eq, Structural)]
pub enum DeliverOutcome {
    /// The message was queued at the tail of the mailbox.
    Delivered,
    /// The mailbox is at capacity; the broadcaster must wait and retry
    /// rather than drop the message.
    Full,
    /// The mailbox no longer accepts messages; the broadcaster skips this
    /// recipient and goes on.
    Closed,
}

/// A connection's private, bounded, ordered queue of outgoing messages.
pub struct Mailbox {
    queue: Vec<Message>,
    accepting: bool,
}

impl Mailbox {
    /// The queued messages, head first.
    pub closed spec fn contents(self) -> Seq<Message> {
        self.queue@
    }

    /// Whether the mailbox still accepts deliveries.
    pub closed spec fn is_accepting(self) -> bool {
        self.accepting
    }

    /// A fresh, empty, open mailbox.
    pub fn new() -> (m: Mailbox)
        ensures
            m.contents() == Seq::<Message>::empty(),
            m.is_accepting(),
    {
        Mailbox { queue: Vec::new(), accepting: true }
    }

    /// How many messages are queued.
    pub fn len(&self) -> (n: usize)
        ensures
            n == self.contents().len(),
    {
        self.queue.len()
    }

    /// Attempts to deliver one message: queued at the tail when the mailbox
    /// is open and below capacity, refused without any other effect when it
    /// is full or closed.
    pub fn deliver(&mut self, m: Message) -> (r: DeliverOutcome)
        ensures
            !old(self).is_accepting() ==> r == DeliverOutcome::Closed
                && *final(self) == *old(self),
            old(self).is_accepting() && old(self).contents().len() >= MAX_MESSAGES
                ==> r == DeliverOutcome::Full && *final(self) == *old(self),
            old(self).is_accepting() && old(self).contents().len() < MAX_MESSAGES
                ==> r == DeliverOutcome::Delivered
                && final(self).contents() == old(self).contents().push(m)
                && final(self).is_accepting(),
    {
        if !self.accepting {
            DeliverOutcome::Closed
        } else if self.queue.len() >= MAX_MESSAGES {
            DeliverOutcome::Full
        } else {
            self.queue.push(m);
            DeliverOutcome::Delivered
        }
    }

    /// Takes the message at the head of the queue, if any: the one that has
    /// been waiting longest.
    pub fn next_message(&mut self) -> (r: Option<Message>)
        ensures
            old(self).contents().len() == 0 ==> r is None && *final(self) == *old(self),
            old(self).contents().len() > 0 ==> r == Some(old(self).contents()[0])
                && final(self).contents() == old(self).contents().skip(1)
                && final(self).is_accepting() == old(self).is_accepting(),
    {
        if self.queue.len() == 0 {
            None
        } else {
            let m = self.queue.remove(0);
            proof {
                assert(old(self).queue@.remove(0) =~= old(self).queue@.skip(1));
            }
            Some(m)
        }
    }

    /// Closes the mailbox: no further deliveries are accepted, but what is
    /// already queued stays and can still be drained.
    pub fn close(&mut self)
        ensures
            !final(self).is_accepting(),
            final(self).contents() == old(self).contents(),
    {
        self.accepting = false;
    }

    /// Drains the whole queue, head first: the messages come out in exactly
    /// the order they were delivered.
    pub fn drain(&mut self) -> (out: Vec<Message>)
        ensures
            out@ == old(self).contents(),
            final(self).contents().len() == 0,
            final(self).is_accepting() == old(self).is_accepting(),
    {
        let mut out: Vec<Message> = Vec::new();
        loop
            invariant
                out@ + self.contents() == old(self).contents(),
                self.is_accepting() == old(self).is_accepting(),
            decreases self.contents().len(),
        {
            match self.next_message() {
                Some(m) => {
                    out.push(m);
                    proof {
                        assert(out@ + self.contents() =~= old(self).contents());
                    }
                },
                None => {
                    proof {
                        assert(out@ =~= old(self).contents());
                    }
                    return out;
                },
            }
        }
    }
}

/// FIFO per mailbox: of two messages delivered to the same mailbox, the one
/// delivered first sits at the earlier position, and `drain` hands positions
/// out in increasing order, so it is forwarded to the socket first.
pub proof fn lemma_mailbox_fifo(q: Seq<Message>, m1: Message, m2: Message)
    ensures
        q.push(m1).push(m2)[q.len() as int] == m1,
        q.push(m1).push(m2)[q.len() as int + 1] == m2,
        q.push(m1).push(m2).len() == q.len() + 2,
{
}

} // verus!
