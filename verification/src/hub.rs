//! The per-match broadcast registry.
//!
//! The hub maps each match id to one bounded broadcast channel, created
//! lazily on first use.  The channels themselves come from an outside
//! library and are taken on trust behind small wrappers; everything the hub
//! decides — which channels exist, where a frame is sent, that a frame for
//! an unknown match is dropped — is verified here.
use vstd::prelude::*;

verus! {

use tokio::sync::broadcast::{Receiver, Sender};
use vstd::string::StringExecFns;
use crate::text::str_eq;

#[verifier::external_type_specification]
#[verifier::external_body]
#[verifier::reject_recursive_types(T)]
pub struct ExSender<T>(Sender<T>);

#[verifier::external_type_specification]
#[verifier::external_body]
#[verifier::reject_recursive_types(T)]
pub struct ExReceiver<T>(Receiver<T>);

/// How many frames a per-match channel buffers for a slow consumer.
pub const CHANNEL_CAPACITY: usize = 100;

/// One broadcast channel, as an abstract identity shared by the handles on
/// it; what ties a cloned sender, and the receivers it hands out, to the
/// channel they were made from.
pub uninterp spec fn channel_id(tx: Sender<String>) -> int;

/// The channel a receiver draws its frames from.
pub uninterp spec fn receiver_channel(rx: Receiver<String>) -> int;

/// Relies on `tokio::sync::broadcast::channel`: makes a bounded broadcast
/// channel; it asserts that the capacity is positive and at most half of
/// `usize::MAX`.
#[verifier::external_body]
fn new_channel(capacity: usize) -> (r: (Sender<String>, Receiver<String>))
    requires
        0 < capacity <= usize::MAX / 2,
    ensures
        receiver_channel(r.1) == channel_id(r.0),
{
    tokio::sync::broadcast::channel(capacity)
}

/// Relies on `tokio::sync::broadcast::Sender::clone`: a clone is another
/// handle on the same channel.
#[verifier::external_body]
fn clone_sender(tx: &Sender<String>) -> (r: Sender<String>)
    ensures
        channel_id(r) == channel_id(*tx),
{
    tx.clone()
}

/// Relies on `tokio::sync::broadcast::Sender::subscribe`: makes a new
/// receiver on the sender's channel that sees the frames sent after this
/// call.
#[verifier::external_body]
pub(crate) fn subscribe_sender(tx: &Sender<String>) -> (r: Receiver<String>)
    ensures
        receiver_channel(r) == channel_id(*tx),
{
    tx.subscribe()
}

/// Relies on `tokio::sync::broadcast::Sender::send`: hands the frame to
/// every current receiver's queue without blocking; it fails only when no
/// receiver exists, and the frame is then dropped.
#[verifier::external_body]
fn send_frame(tx: &Sender<String>, frame: String) -> (delivered: bool) {
    match tx.send(frame) {
        Ok(_) => true,
        Err(_) => false,
    }
}

/// What one receiver's queue yields when polled.
pub enum RecvOutcome {
    /// The next buffered frame.
    Frame(String),
    /// Nothing buffered right now.
    Empty,
    /// The receiver fell behind and missed frames; it stays subscribed.
    Lagged,
    /// No sender is left.
    Closed,
}

/// Relies on `tokio::sync::broadcast::Receiver::try_recv`: takes the next
/// buffered frame without blocking, or reports why there is none.  Only the
/// receiver's cursor moves; it stays on its channel.
#[verifier::external_body]
pub(crate) fn try_recv_frame(rx: &mut Receiver<String>) -> (r: RecvOutcome)
    ensures
        receiver_channel(*final(rx)) == receiver_channel(*old(rx)),
{
    match rx.try_recv() {
        Ok(frame) => RecvOutcome::Frame(frame),
        Err(tokio::sync::broadcast::error::TryRecvError::Empty) => RecvOutcome::Empty,
        Err(tokio::sync::broadcast::error::TryRecvError::Lagged(_)) => RecvOutcome::Lagged,
        Err(tokio::sync::broadcast::error::TryRecvError::Closed) => RecvOutcome::Closed,
    }
}

/// The registry of per-match broadcast channels.
pub struct Hub {
    entries: Vec<(String, Sender<String>)>,
}

impl Hub {
    /// The ids that have a channel, in creation order.
    pub closed spec fn ids(&self) -> Seq<Seq<char>> {
        self.entries@.map_values(|p: (String, Sender<String>)| p.0@)
    }

    /// Each match id has at most one channel.
    pub closed spec fn wf(&self) -> bool {
        forall|i: int, j: int|
            0 <= i < j < self.ids().len() ==> self.ids()[i] != self.ids()[j]
    }

    /// Whether a channel exists for this match.
    pub closed spec fn has_channel(&self, m: Seq<char>) -> bool {
        self.ids().contains(m)
    }

    /// Whether this match's registered entry is channel `c`: what ties the
    /// handles the hub gives out to the channel it keeps for the match.
    pub closed spec fn has_channel_id(&self, m: Seq<char>, c: int) -> bool {
        exists|i: int|
            0 <= i < self.entries@.len() && (#[trigger] self.entries@[i]).0@ == m && channel_id(
                self.entries@[i].1,
            ) == c
    }

    /// A hub with no channels.
    pub fn new() -> (h: Hub)
        ensures
            h.wf(),
            forall|m: Seq<char>| !h.has_channel(m),
    {
        let h = Hub { entries: Vec::new() };
        proof {
            assert(h.ids() =~= Seq::<Seq<char>>::empty());
        }
        h
    }

    fn find_index(&self, match_id: &str) -> (r: Option<usize>)
        ensures
            match r {
                Some(i) => i < self.entries@.len() && self.entries@[i as int].0@ == match_id@
                    && self.has_channel(match_id@),
                None => !self.has_channel(match_id@),
            },
    {
        let mut i: usize = 0;
        while i < self.entries.len()
            invariant
                i <= self.entries@.len(),
                forall|j: int| 0 <= j < i ==> #[trigger] self.entries@[j].0@ != match_id@,
            decreases self.entries@.len() - i,
        {
            if str_eq(self.entries[i].0.as_str(), match_id) {
                proof {
                    assert(self.ids()[i as int] == match_id@);
                }
                return Some(i);
            }
            i += 1;
        }
        proof {
            assert forall|j: int| 0 <= j < self.ids().len() implies self.ids()[j] != match_id@ by {
                assert(self.ids()[j] == self.entries@[j].0@);
            }
        }
        None
    }

    /// Get the sender for a match, creating its channel on first use.  The
    /// returned sender is a handle of the very channel registered for the
    /// match; when the match already had a channel the registry is left
    /// untouched, and no registered channel is ever replaced.
    pub fn get_or_create_channel(&mut self, match_id: &str) -> (tx: Sender<String>)
        requires
            old(self).wf(),
        ensures
            final(self).wf(),
            final(self).has_channel(match_id@),
            final(self).has_channel_id(match_id@, channel_id(tx)),
            old(self).has_channel(match_id@) ==> *final(self) == *old(self),
            forall|m: Seq<char>, c: int|
                old(self).has_channel_id(m, c) ==> final(self).has_channel_id(m, c),
            forall|m: Seq<char>|
                m != match_id@ ==> final(self).has_channel(m) == old(self).has_channel(m),
    {
        match self.find_index(match_id) {
            Some(i) => {
                let tx = clone_sender(&self.entries[i].1);
                proof {
                    assert(self.has_channel_id(match_id@, channel_id(tx))) by {
                        assert(self.entries@[i as int].0@ == match_id@ && channel_id(
                            self.entries@[i as int].1,
                        ) == channel_id(tx));
                    };
                }
                tx
            },
            None => {
                let (tx, _rx) = new_channel(CHANNEL_CAPACITY);
                let tx_kept = clone_sender(&tx);
                let ghost old_ids = self.ids();
                let ghost old_entries = self.entries@;
                self.entries.push((String::from_str(match_id), tx_kept));
                proof {
                    assert(self.ids() =~= old_ids.push(match_id@));
                    assert(self.ids().last() == match_id@);
                    let last = self.entries@.len() - 1;
                    assert(self.has_channel_id(match_id@, channel_id(tx))) by {
                        assert(self.entries@[last].0@ == match_id@ && channel_id(
                            self.entries@[last].1,
                        ) == channel_id(tx));
                    };
                    assert forall|m: Seq<char>, c: int|
                        old(self).has_channel_id(m, c) implies self.has_channel_id(m, c) by {
                        let k = choose|k: int|
                            0 <= k < old_entries.len() && old_entries[k].0@ == m && channel_id(
                                old_entries[k].1,
                            ) == c;
                        assert(self.entries@[k] == old_entries[k]);
                    }
                    assert forall|m: Seq<char>| m != match_id@ implies self.has_channel(m)
                        == old(self).has_channel(m) by {
                        if old_ids.contains(m) {
                            let k = choose|k: int| 0 <= k < old_ids.len() && old_ids[k] == m;
                            assert(self.ids()[k] == m);
                        }
                        if self.ids().contains(m) {
                            let k = choose|k: int|
                                0 <= k < self.ids().len() && self.ids()[k] == m;
                            assert(k < old_ids.len());
                            assert(old_ids[k] == m);
                        }
                    }
                    assert(self.has_channel(match_id@));
                    assert forall|i2: int, j2: int|
                        0 <= i2 < j2 < self.ids().len() implies self.ids()[i2]
                        != self.ids()[j2] by {
                        if j2 < old_ids.len() {
                        } else {
                            assert(self.ids()[j2] == match_id@);
                            assert(self.ids()[i2] == old_ids[i2]);
                            assert(!old_ids.contains(match_id@)) by {
                                if old_ids.contains(match_id@) {
                                    assert(old(self).has_channel(match_id@));
                                }
                            }
                        }
                    }
                }
                tx
            },
        }
    }

    /// Send one frame to the subscribers of a match.  A frame for a match
    /// without a channel is dropped silently; nothing blocks.
    pub fn broadcast(&self, match_id: &str, frame: String) -> (delivered: bool)
        ensures
            !self.has_channel(match_id@) ==> !delivered,
    {
        match self.find_index(match_id) {
            Some(i) => send_frame(&self.entries[i].1, frame),
            None => false,
        }
    }
}

} // verus!
