//! The shared chat state: a concurrency-safe mapping from connection
//! identity to the sending half of that connection's mailbox queue, and the
//! broadcast fan-out rule over it.  The map itself and the queue come from
//! outside crates and are taken on trust at their contracts; everything that
//! decides who receives what is verified here.

use vstd::prelude::*;
use std::sync::Arc;
use tokio::sync::mpsc::Receiver;
use tokio::sync::mpsc::Sender;
use crate::mailbox::MAX_MESSAGES;
use crate::message::Message;

verus! {

#[verifier::external_type_specification]
#[verifier::external_body]
#[verifier::reject_recursive_types(T)]
pub struct ExSender<T>(Sender<T>);

#[verifier::external_type_specification]
#[verifier::external_body]
#[verifier::reject_recursive_types(T)]
pub struct ExReceiver<T>(Receiver<T>);

#[verifier::external_type_specification]
#[verifier::external_body]
#[verifier::reject_recursive_types(K)]
#[verifier::reject_recursive_types(V)]
#[verifier::reject_recursive_types(S)]
pub struct ExDashMap<K, V, S>(dashmap::DashMap<K, V, S>);

/// The set of connection identities that currently have an entry in the map.
pub uninterp spec fn peer_ids(m: dashmap::DashMap<u64, Sender<Arc<Message>>>) -> Set<u64>;

/// Relies on dashmap::DashMap::new: the fresh map has no entry.
#[verifier::external_body]
fn peers_new() -> (m: dashmap::DashMap<u64, Sender<Arc<Message>>>)
    ensures
        peer_ids(m) == Set::<u64>::empty(),
{
    dashmap::DashMap::new()
}

/// Relies on dashmap::DashMap::insert: afterwards the key has exactly one
/// entry, holding the new value; no other key is touched.
#[verifier::external_body]
fn peers_insert(m: &mut dashmap::DashMap<u64, Sender<Arc<Message>>>, id: u64, tx: Sender<
    Arc<Message>,
>)
    ensures
        peer_ids(*final(m)) == peer_ids(*old(m)).insert(id),
{
    m.insert(id, tx);
}

/// Relies on dashmap::DashMap::remove: afterwards the key has no entry; no
/// other key is touched.
#[verifier::external_body]
fn peers_remove(m: &mut dashmap::DashMap<u64, Sender<Arc<Message>>>, id: u64)
    ensures
        peer_ids(*final(m)) == peer_ids(*old(m)).remove(id),
{
    m.remove(&id);
}

/// Relies on dashmap::DashMap::contains_key.
#[verifier::external_body]
fn peers_contains(m: &dashmap::DashMap<u64, Sender<Arc<Message>>>, id: u64) -> (r: bool)
    ensures
        r == peer_ids(*m).contains(id),
{
    m.contains_key(&id)
}

/// Relies on dashmap::DashMap::iter, which yields each entry exactly once
/// (in no stated order), and on tokio::sync::mpsc::Sender::clone, which
/// hands back another sending half of the same queue.
#[verifier::external_body]
fn peers_entries(m: &dashmap::DashMap<u64, Sender<Arc<Message>>>) -> (v: Vec<
    (u64, Sender<Arc<Message>>),
>)
    ensures
        forall|i: int| 0 <= i < v@.len() ==> peer_ids(*m).contains((#[trigger] v@[i]).0),
        forall|id: u64|
            peer_ids(*m).contains(id) ==> exists|i: int|
                0 <= i < v@.len() && (#[trigger] v@[i]).0 == id,
        forall|i: int, j: int| 0 <= i < j < v@.len() ==> v@[i].0 != v@[j].0,
{
    let mut v = Vec::new();
    for entry in m.iter() {
        v.push((*entry.key(), entry.value().clone()));
    }
    v
}

/// Relies on tokio::sync::mpsc::channel: a bounded FIFO queue of capacity
/// MAX_MESSAGES, split into its sending and receiving halves.
#[verifier::external_body]
fn mailbox_channel() -> (pair: (Sender<Arc<Message>>, Receiver<Arc<Message>>)) {
    tokio::sync::mpsc::channel(MAX_MESSAGES)
}

/// The shared chat state.  One entry per currently registered connection:
/// inserted when that connection's handshake succeeds, removed by the same
/// connection's teardown, and read by everyone's broadcasts in between.
pub struct ChatState {
    peers: dashmap::DashMap<u64, Sender<Arc<Message>>>,
}

impl ChatState {
    /// The identities of the currently registered connections.
    pub closed spec fn ids(self) -> Set<u64> {
        peer_ids(self.peers)
    }

    /// A registry with nobody in it.
    pub fn new() -> (s: ChatState)
        ensures
            s.ids() == Set::<u64>::empty(),
    {
        ChatState { peers: peers_new() }
    }

    /// Registration: creates this connection's mailbox queue, records its
    /// sending half under `id`, and hands back the receiving half for the
    /// forwarder to drain.
    pub fn register(&mut self, id: u64) -> (mailbox: Receiver<Arc<Message>>)
        ensures
            final(self).ids() == old(self).ids().insert(id),
    {
        let (tx, rx) = mailbox_channel();
        peers_insert(&mut self.peers, id, tx);
        rx
    }

    /// Deregistration: removes this connection's entry.  When the entry is
    /// already gone the state is left exactly as it was, so deregistering
    /// twice has the effect of deregistering once.
    pub fn deregister(&mut self, id: u64)
        ensures
            final(self).ids() == old(self).ids().remove(id),
    {
        peers_remove(&mut self.peers, id);
    }

    /// Whether `id` currently has an entry.
    pub fn is_registered(&self, id: u64) -> (r: bool)
        ensures
            r == self.ids().contains(id),
    {
        peers_contains(&self.peers, id)
    }

    /// The fan-out rule: a broadcast that excludes `excluding` goes to the
    /// mailbox of every currently registered connection except `excluding`
    /// itself — each of them exactly once, the excluded one never.
    pub fn broadcast_targets(&self, excluding: u64) -> (targets: Vec<
        (u64, Sender<Arc<Message>>),
    >)
        ensures
            forall|i: int| 0 <= i < targets@.len() ==> (#[trigger] targets@[i]).0 != excluding,
            forall|i: int|
                0 <= i < targets@.len() ==> self.ids().contains((#[trigger] targets@[i]).0),
            forall|id: u64|
                self.ids().contains(id) && id != excluding ==> exists|i: int|
                    0 <= i < targets@.len() && (#[trigger] targets@[i]).0 == id,
            forall|i: int, j: int| 0 <= i < j < targets@.len() ==> targets@[i].0 != targets@[j].0,
    {
        let all = peers_entries(&self.peers);
        let mut targets: Vec<(u64, Sender<Arc<Message>>)> = Vec::new();
        let mut k: usize = 0;
        while k < all.len()
            invariant
                k <= all@.len(),
                forall|i: int| 0 <= i < all@.len() ==> self.ids().contains((#[trigger] all@[i]).0),
                forall|id: u64|
                    self.ids().contains(id) ==> exists|i: int|
                        0 <= i < all@.len() && (#[trigger] all@[i]).0 == id,
                forall|i: int, j: int| 0 <= i < j < all@.len() ==> all@[i].0 != all@[j].0,
                forall|i: int| 0 <= i < targets@.len() ==> (#[trigger] targets@[i]).0 != excluding,
                forall|i: int|
                    0 <= i < targets@.len() ==> self.ids().contains((#[trigger] targets@[i]).0),
                forall|i: int|
                    0 <= i < targets@.len() ==> exists|j: int|
                        0 <= j < k && (#[trigger] targets@[i]).0 == all@[j].0,
                forall|j: int|
                    0 <= j < k && (#[trigger] all@[j]).0 != excluding ==> exists|i: int|
                        0 <= i < targets@.len() && (#[trigger] targets@[i]).0 == all@[j].0,
                forall|i: int, j: int|
                    0 <= i < j < targets@.len() ==> targets@[i].0 != targets@[j].0,
            decreases all@.len() - k,
        {
            let ghost prev = targets@;
            let entry = &all[k];
            if entry.0 != excluding {
                let tx = clone_mailbox(&entry.1);
                targets.push((entry.0, tx));
            }
            proof {
                assert forall|j: int| 0 <= j <= k && (#[trigger] all@[j]).0 != excluding implies
                    exists|i: int|
                        0 <= i < targets@.len() && (#[trigger] targets@[i]).0 == all@[j].0 by {
                    if j < k {
                        let i0 = choose|i0: int|
                            0 <= i0 < prev.len() && (#[trigger] prev[i0]).0 == all@[j].0;
                        assert(targets@[i0].0 == all@[j].0);
                    } else {
                        assert(targets@[targets@.len() - 1].0 == all@[j].0);
                    }
                }
            }
            k = k + 1;
        }
        targets
    }

    /// Lifecycle step two, registration: the joining connection gets its
    /// mailbox, and the join notice fans out to everyone who was already
    /// registered — never back to the joining connection itself.
    pub fn join(&mut self, id: u64) -> (r: (Receiver<Arc<Message>>, Vec<
        (u64, Sender<Arc<Message>>),
    >))
        ensures
            final(self).ids() == old(self).ids().insert(id),
            forall|i: int| 0 <= i < r.1@.len() ==> (#[trigger] r.1@[i]).0 != id,
            forall|i: int|
                0 <= i < r.1@.len() ==> old(self).ids().contains((#[trigger] r.1@[i]).0),
            forall|id2: u64|
                old(self).ids().contains(id2) && id2 != id ==> exists|i: int|
                    0 <= i < r.1@.len() && (#[trigger] r.1@[i]).0 == id2,
            forall|i: int, j: int| 0 <= i < j < r.1@.len() ==> r.1@[i].0 != r.1@[j].0,
    {
        let rx = self.register(id);
        let targets = self.broadcast_targets(id);
        proof {
            assert forall|id2: u64| old(self).ids().contains(id2) && id2 != id implies exists|
                i: int,
            | 0 <= i < targets@.len() && (#[trigger] targets@[i]).0 == id2 by {
                assert(self.ids().contains(id2));
            }
        }
        (rx, targets)
    }

    /// Lifecycle step four, teardown: the entry is removed first, and only
    /// then does the leave notice fan out, so the departing connection is
    /// never among the recipients of its own leave notice.
    pub fn leave(&mut self, id: u64) -> (targets: Vec<(u64, Sender<Arc<Message>>)>)
        ensures
            final(self).ids() == old(self).ids().remove(id),
            forall|i: int| 0 <= i < targets@.len() ==> (#[trigger] targets@[i]).0 != id,
            forall|i: int|
                0 <= i < targets@.len() ==> old(self).ids().remove(id).contains(
                    (#[trigger] targets@[i]).0,
                ),
            forall|id2: u64|
                old(self).ids().contains(id2) && id2 != id ==> exists|i: int|
                    0 <= i < targets@.len() && (#[trigger] targets@[i]).0 == id2,
            forall|i: int, j: int| 0 <= i < j < targets@.len() ==> targets@[i].0 != targets@[j].0,
    {
        self.deregister(id);
        let targets = self.broadcast_targets(id);
        proof {
            assert forall|id2: u64| old(self).ids().contains(id2) && id2 != id implies exists|
                i: int,
            | 0 <= i < targets@.len() && (#[trigger] targets@[i]).0 == id2 by {
                assert(self.ids().contains(id2));
            }
        }
        targets
    }
}

/// Relies on tokio::sync::mpsc::Sender::clone: another sending half of the
/// same queue.
#[verifier::external_body]
fn clone_mailbox(tx: &Sender<Arc<Message>>) -> (r: Sender<Arc<Message>>) {
    tx.clone()
}

/// Deregistering a connection twice has the same observable effect on the
/// registry as deregistering it once: removing an identity from a set of
/// identities a second time changes nothing.
pub proof fn lemma_deregister_idempotent(ids: Set<u64>, id: u64)
    ensures
        ids.remove(id).remove(id) == ids.remove(id),
{
    assert(ids.remove(id).remove(id) =~= ids.remove(id));
}

} // verus!
