//! Per-connection session logic.
//!
//! A session owns the set of matches its client follows and one broadcast
//! receiver per followed match.  Inbound text frames are parsed and applied
//! here: a subscribe records the match and acquires a receiver before the
//! snapshot is fetched, an unsubscribe drops both, and anything else is
//! answered with an error frame while the connection stays open.
use vstd::prelude::*;

verus! {

use tokio::sync::broadcast::Receiver;
use vstd::string::StringExecFns;
use crate::hub::{Hub, RecvOutcome, channel_id, receiver_channel, subscribe_sender, try_recv_frame};
use crate::json::json_str;
use crate::models::{ClientMessage, ServerMessage};
use crate::text::str_eq;

/// The `action` and `match_id` fields read out of an inbound text frame:
/// whether the text is JSON at all, and each field when it is a string.
pub uninterp spec fn json_frame_fields(s: Seq<char>) -> (bool, Option<Seq<char>>, Option<Seq<char>>);

/// Relies on `serde_json::from_str::<serde_json::Value>`: whether the text
/// parses, and what its `action` and `match_id` string fields hold, are
/// functions of the text alone.
#[verifier::external_body]
fn parse_frame_fields(text: &str) -> (r: (bool, Option<String>, Option<String>))
    ensures
        r.0 == json_frame_fields(text@).0,
        match (r.1, json_frame_fields(text@).1) {
            (Some(a), Some(b)) => a@ == b,
            (None, None) => true,
            _ => false,
        },
        match (r.2, json_frame_fields(text@).2) {
            (Some(a), Some(b)) => a@ == b,
            (None, None) => true,
            _ => false,
        },
{
    match serde_json::from_str::<serde_json::Value>(text) {
        Ok(v) => {
            let action = v.get("action").and_then(|a| a.as_str()).map(|s| s.to_owned());
            let match_id = v.get("match_id").and_then(|m| m.as_str()).map(|s| s.to_owned());
            (true, action, match_id)
        },
        Err(_) => (false, None, None),
    }
}

/// What an inbound text frame means.
pub enum CommandView {
    Subscribe(Seq<char>),
    Unsubscribe(Seq<char>),
    Invalid(Seq<char>),
}

/// How the fields of a frame classify: a known action with a match id is a
/// command; everything else is invalid, with the error text sent back.
pub open spec fn classify_fields(f: (bool, Option<Seq<char>>, Option<Seq<char>>)) -> CommandView {
    if !f.0 {
        CommandView::Invalid("Failed to process message: invalid JSON"@)
    } else {
        match f.1 {
            Some(a) => if a == "subscribe"@ {
                match f.2 {
                    Some(m) => CommandView::Subscribe(m),
                    None => CommandView::Invalid("Failed to process message: missing match_id"@),
                }
            } else if a == "unsubscribe"@ {
                match f.2 {
                    Some(m) => CommandView::Unsubscribe(m),
                    None => CommandView::Invalid("Failed to process message: missing match_id"@),
                }
            } else {
                CommandView::Invalid("Failed to process message: unknown action"@)
            },
            None => CommandView::Invalid("Failed to process message: missing action"@),
        }
    }
}

/// The meaning of an inbound text frame.
pub open spec fn frame_command(text: Seq<char>) -> CommandView {
    classify_fields(json_frame_fields(text))
}

/// Parse one inbound text frame into a command, or the error text answered
/// to the client.
pub fn parse_client_message(text: &str) -> (r: Result<ClientMessage, String>)
    ensures
        match r {
            Ok(c) => match c {
                ClientMessage::Subscribe { match_id } => frame_command(text@)
                    == CommandView::Subscribe(match_id@),
                ClientMessage::Unsubscribe { match_id } => frame_command(text@)
                    == CommandView::Unsubscribe(match_id@),
            },
            Err(msg) => frame_command(text@) == CommandView::Invalid(msg@),
        },
{
    let (ok, action, match_id) = parse_frame_fields(text);
    if !ok {
        return Err(String::from_str("Failed to process message: invalid JSON"));
    }
    match action {
        Some(a) => {
            if str_eq(a.as_str(), "subscribe") {
                match match_id {
                    Some(m) => Ok(ClientMessage::Subscribe { match_id: m }),
                    None => Err(String::from_str("Failed to process message: missing match_id")),
                }
            } else if str_eq(a.as_str(), "unsubscribe") {
                match match_id {
                    Some(m) => Ok(ClientMessage::Unsubscribe { match_id: m }),
                    None => Err(String::from_str("Failed to process message: missing match_id")),
                }
            } else {
                Err(String::from_str("Failed to process message: unknown action"))
            }
        },
        None => Err(String::from_str("Failed to process message: missing action")),
    }
}

/// One client connection's subscription state.
pub struct Session {
    subscriptions: Vec<String>,
    receivers: Vec<(String, Receiver<String>)>,
}

/// What handling one text frame asks of the caller.
pub enum FrameAction {
    /// A subscribe was recorded: fetch the match's hashes and answer with
    /// the hydration message.
    Hydrate { match_id: String },
    /// Send this frame back to the client.
    Reply { frame: String },
    /// Nothing to send.
    Silent,
}

impl Session {
    /// The ids this session follows.
    pub closed spec fn sub_ids(&self) -> Seq<Seq<char>> {
        self.subscriptions@.map_values(|s: String| s@)
    }

    /// The ids this session holds receivers for.
    pub closed spec fn recv_ids(&self) -> Seq<Seq<char>> {
        self.receivers@.map_values(|p: (String, Receiver<String>)| p.0@)
    }

    /// Each followed match paired with the channel its receiver draws from.
    pub closed spec fn recv_pairs(&self) -> Seq<(Seq<char>, int)> {
        self.receivers@.map_values(
            |p: (String, Receiver<String>)| (p.0@, receiver_channel(p.1)),
        )
    }

    /// Whether this session holds a receiver for `m` drawing from channel
    /// `c`.
    pub closed spec fn has_receiver_on(&self, m: Seq<char>, c: int) -> bool {
        self.recv_pairs().contains((m, c))
    }

    /// Whether this session follows a match.
    pub closed spec fn subscribed(&self, m: Seq<char>) -> bool {
        self.sub_ids().contains(m)
    }

    /// Ids are unique and the receiver set mirrors the subscription set.
    pub closed spec fn wf(&self) -> bool {
        &&& forall|i: int, j: int|
            0 <= i < j < self.sub_ids().len() ==> self.sub_ids()[i] != self.sub_ids()[j]
        &&& forall|i: int, j: int|
            0 <= i < j < self.recv_ids().len() ==> self.recv_ids()[i] != self.recv_ids()[j]
        &&& forall|m: Seq<char>| self.recv_ids().contains(m) == self.sub_ids().contains(m)
    }

    /// A fresh session follows nothing.
    pub fn new() -> (s: Session)
        ensures
            s.wf(),
            forall|m: Seq<char>| !s.subscribed(m),
    {
        let s = Session { subscriptions: Vec::new(), receivers: Vec::new() };
        proof {
            assert(s.sub_ids() =~= Seq::<Seq<char>>::empty());
            assert(s.recv_ids() =~= Seq::<Seq<char>>::empty());
        }
        s
    }

    fn find_subscription(&self, match_id: &str) -> (r: Option<usize>)
        ensures
            match r {
                Some(i) => i < self.subscriptions@.len() && self.sub_ids()[i as int] == match_id@,
                None => !self.subscribed(match_id@),
            },
    {
        let mut i: usize = 0;
        while i < self.subscriptions.len()
            invariant
                i <= self.subscriptions@.len(),
                forall|j: int| 0 <= j < i ==> #[trigger] self.subscriptions@[j]@ != match_id@,
            decreases self.subscriptions@.len() - i,
        {
            if str_eq(self.subscriptions[i].as_str(), match_id) {
                proof {
                    assert(self.sub_ids()[i as int] == match_id@);
                }
                return Some(i);
            }
            i += 1;
        }
        proof {
            assert forall|j: int| 0 <= j < self.sub_ids().len() implies self.sub_ids()[j]
                != match_id@ by {
                assert(self.sub_ids()[j] == self.subscriptions@[j]@);
            }
        }
        None
    }

    fn find_receiver(&self, match_id: &str) -> (r: Option<usize>)
        ensures
            match r {
                Some(i) => i < self.receivers@.len() && self.recv_ids()[i as int] == match_id@,
                None => !self.recv_ids().contains(match_id@),
            },
    {
        let mut i: usize = 0;
        while i < self.receivers.len()
            invariant
                i <= self.receivers@.len(),
                forall|j: int| 0 <= j < i ==> #[trigger] self.receivers@[j].0@ != match_id@,
            decreases self.receivers@.len() - i,
        {
            if str_eq(self.receivers[i].0.as_str(), match_id) {
                proof {
                    assert(self.recv_ids()[i as int] == match_id@);
                }
                return Some(i);
            }
            i += 1;
        }
        proof {
            assert forall|j: int| 0 <= j < self.recv_ids().len() implies self.recv_ids()[j]
                != match_id@ by {
                assert(self.recv_ids()[j] == self.receivers@[j].0@);
            }
        }
        None
    }

    /// Record a subscription and acquire a receiver on the match's channel,
    /// creating the channel if it does not exist yet.  The receiver draws
    /// from the very channel the hub registers for this match.
    pub fn subscribe(&mut self, hub: &mut Hub, match_id: &str)
        requires
            old(self).wf(),
            old(hub).wf(),
        ensures
            final(self).wf(),
            final(hub).wf(),
            final(self).subscribed(match_id@),
            forall|m: Seq<char>|
                m != match_id@ ==> final(self).subscribed(m) == old(self).subscribed(m),
            final(hub).has_channel(match_id@),
            exists|c: int|
                final(hub).has_channel_id(match_id@, c) && final(self).has_receiver_on(
                    match_id@,
                    c,
                ),
            forall|m: Seq<char>|
                m != match_id@ ==> final(hub).has_channel(m) == old(hub).has_channel(m),
    {
        let ghost old_subs = self.sub_ids();
        match self.find_subscription(match_id) {
            Some(i) => {
                proof {
                    assert(old_subs.contains(match_id@)) by {
                        assert(old_subs[i as int] == match_id@);
                    };
                }
            },
            None => {
                self.subscriptions.push(String::from_str(match_id));
                proof {
                    assert(self.sub_ids() =~= old_subs.push(match_id@));
                }
            },
        }
        let tx = hub.get_or_create_channel(match_id);
        let rx = subscribe_sender(&tx);
        let ghost mid_recvs = self.recv_ids();
        proof {
            assert(mid_recvs == old(self).recv_ids());
        }
        match self.find_receiver(match_id) {
            Some(i) => {
                self.receivers.remove(i);
                proof {
                    assert(self.recv_ids() =~= mid_recvs.remove(i as int));
                    lemma_remove_id(mid_recvs, i as int, match_id@);
                }
            },
            None => {},
        }
        let ghost pre_push = self.recv_ids();
        let ghost chan = channel_id(tx);
        self.receivers.push((String::from_str(match_id), rx));
        proof {
            assert(self.recv_ids() =~= pre_push.push(match_id@));
            lemma_subscribe_sets(old_subs, old(self).recv_ids(), self.sub_ids(), self.recv_ids(),
                match_id@, pre_push);
            let last = self.receivers@.len() - 1;
            assert(self.has_receiver_on(match_id@, chan)) by {
                assert(self.recv_pairs()[last] == (match_id@, chan));
            };
        }
    }

    /// Stop following a match: both the subscription and the receiver are
    /// dropped.  Unsubscribing from a match not followed does nothing.
    pub fn unsubscribe(&mut self, match_id: &str)
        requires
            old(self).wf(),
        ensures
            final(self).wf(),
            !final(self).subscribed(match_id@),
            forall|m: Seq<char>|
                m != match_id@ ==> final(self).subscribed(m) == old(self).subscribed(m),
            !final(self).recv_ids().contains(match_id@),
    {
        let ghost old_subs = self.sub_ids();
        match self.find_subscription(match_id) {
            Some(i) => {
                self.subscriptions.remove(i);
                proof {
                    assert(self.sub_ids() =~= old_subs.remove(i as int));
                    lemma_remove_id(old_subs, i as int, match_id@);
                }
            },
            None => {},
        }
        let ghost mid_recvs = self.recv_ids();
        proof {
            assert(mid_recvs == old(self).recv_ids());
        }
        match self.find_receiver(match_id) {
            Some(i) => {
                self.receivers.remove(i);
                proof {
                    assert(self.recv_ids() =~= mid_recvs.remove(i as int));
                    lemma_remove_id(mid_recvs, i as int, match_id@);
                }
            },
            None => {},
        }
        proof {
            lemma_unsubscribe_sets(old_subs, old(self).recv_ids(), self.sub_ids(),
                self.recv_ids(), match_id@);
        }
    }

    /// Handle one inbound text frame: apply its command to this session and
    /// the hub, and say what to send back.
    pub fn handle_text_frame(&mut self, hub: &mut Hub, text: &str) -> (r: FrameAction)
        requires
            old(self).wf(),
            old(hub).wf(),
        ensures
            final(self).wf(),
            final(hub).wf(),
            match frame_command(text@) {
                CommandView::Subscribe(m) => {
                    &&& (match r {
                        FrameAction::Hydrate { match_id } => match_id@ == m,
                        _ => false,
                    })
                    &&& final(self).subscribed(m)
                    &&& forall|x: Seq<char>|
                        x != m ==> final(self).subscribed(x) == old(self).subscribed(x)
                    &&& final(hub).has_channel(m)
                    &&& exists|c: int|
                        final(hub).has_channel_id(m, c) && final(self).has_receiver_on(m, c)
                    &&& forall|x: Seq<char>|
                        x != m ==> final(hub).has_channel(x) == old(hub).has_channel(x)
                },
                CommandView::Unsubscribe(m) => {
                    &&& r is Silent
                    &&& !final(self).subscribed(m)
                    &&& forall|x: Seq<char>|
                        x != m ==> final(self).subscribed(x) == old(self).subscribed(x)
                    &&& *final(hub) == *old(hub)
                },
                CommandView::Invalid(msg) => {
                    &&& (match r {
                        FrameAction::Reply { frame } => frame@ == "{\"type\":\"error\",\"message\":"@
                            + json_str(msg) + "}"@,
                        _ => false,
                    })
                    &&& *final(self) == *old(self)
                    &&& *final(hub) == *old(hub)
                },
            },
    {
        match parse_client_message(text) {
            Ok(ClientMessage::Subscribe { match_id }) => {
                self.subscribe(hub, match_id.as_str());
                FrameAction::Hydrate { match_id }
            },
            Ok(ClientMessage::Unsubscribe { match_id }) => {
                self.unsubscribe(match_id.as_str());
                FrameAction::Silent
            },
            Err(message) => {
                let msg = ServerMessage::Error { message };
                FrameAction::Reply { frame: msg.to_json() }
            },
        }
    }

    /// Poll every receiver once and collect the frames that were waiting.
    /// A lagged receiver skips what it missed and stays subscribed; the
    /// subscription state is untouched either way.
    pub fn poll_frames(&mut self) -> (frames: Vec<String>)
        requires
            old(self).wf(),
        ensures
            final(self).wf(),
            final(self).sub_ids() == old(self).sub_ids(),
            final(self).recv_ids() == old(self).recv_ids(),
            final(self).recv_pairs() == old(self).recv_pairs(),
            frames@.len() <= old(self).recv_ids().len(),
    {
        let ghost old_ids = self.recv_ids();
        let ghost old_pairs = self.recv_pairs();
        let mut frames: Vec<String> = Vec::new();
        let n = self.receivers.len();
        let mut k: usize = 0;
        while k < n
            invariant
                k <= n,
                n == old_ids.len(),
                n == old_pairs.len(),
                self.receivers@.len() == n,
                self.sub_ids() == old(self).sub_ids(),
                self.subscriptions == old(self).subscriptions,
                self.recv_ids() =~= old_ids.subrange(k as int, n as int) + old_ids.subrange(
                    0,
                    k as int,
                ),
                self.recv_pairs() =~= old_pairs.subrange(k as int, n as int) + old_pairs.subrange(
                    0,
                    k as int,
                ),
                frames@.len() <= k,
            decreases n - k,
        {
            let ghost cur = self.recv_ids();
            let ghost cur_pairs = self.recv_pairs();
            proof {
                assert(cur[0] == old_ids[k as int]);
                assert(cur_pairs[0] == old_pairs[k as int]);
            }
            let (id, mut rx) = self.receivers.remove(0);
            proof {
                assert(id@ == cur[0]);
                assert(receiver_channel(rx) == cur_pairs[0].1);
                assert(self.recv_ids() =~= cur.drop_first());
                assert(self.recv_pairs() =~= cur_pairs.drop_first());
            }
            let ghost removed_ids = self.recv_ids();
            let ghost removed_pairs = self.recv_pairs();
            match try_recv_frame(&mut rx) {
                RecvOutcome::Frame(f) => frames.push(f),
                RecvOutcome::Empty => {},
                RecvOutcome::Lagged => {},
                RecvOutcome::Closed => {},
            }
            self.receivers.push((id, rx));
            proof {
                assert(self.recv_ids() =~= removed_ids.push(old_ids[k as int]));
                assert(self.recv_ids() =~= old_ids.subrange(k + 1 as int, n as int)
                    + old_ids.subrange(0, k + 1 as int));
                assert(self.recv_pairs() =~= removed_pairs.push(old_pairs[k as int]));
                assert(self.recv_pairs() =~= old_pairs.subrange(k + 1 as int, n as int)
                    + old_pairs.subrange(0, k + 1 as int));
            }
            k += 1;
        }
        proof {
            assert(self.recv_ids() =~= old_ids);
            assert(self.recv_ids() == old_ids);
            assert(self.recv_pairs() =~= old_pairs);
            assert(self.recv_pairs() == old_pairs);
        }
        frames
    }
}

proof fn lemma_remove_id(ids: Seq<Seq<char>>, i: int, m: Seq<char>)
    requires
        0 <= i < ids.len(),
        ids[i] == m,
        forall|a: int, b: int| 0 <= a < b < ids.len() ==> ids[a] != ids[b],
    ensures
        !ids.remove(i).contains(m),
        forall|x: Seq<char>| x != m ==> ids.remove(i).contains(x) == ids.contains(x),
        forall|a: int, b: int|
            0 <= a < b < ids.remove(i).len() ==> ids.remove(i)[a] != ids.remove(i)[b],
{
    let r = ids.remove(i);
    assert forall|a: int, b: int| 0 <= a < b < r.len() implies r[a] != r[b] by {
        let a0 = if a < i { a } else { a + 1 };
        let b0 = if b < i { b } else { b + 1 };
        assert(r[a] == ids[a0]);
        assert(r[b] == ids[b0]);
    }
    assert(!r.contains(m)) by {
        if r.contains(m) {
            let k = choose|k: int| 0 <= k < r.len() && r[k] == m;
            let k0 = if k < i { k } else { k + 1 };
            assert(ids[k0] == m);
            assert(ids[i] == m);
        }
    }
    assert forall|x: Seq<char>| x != m implies r.contains(x) == ids.contains(x) by {
        if r.contains(x) {
            let k = choose|k: int| 0 <= k < r.len() && r[k] == x;
            let k0 = if k < i { k } else { k + 1 };
            assert(ids[k0] == x);
        }
        if ids.contains(x) {
            let k0 = choose|k0: int| 0 <= k0 < ids.len() && ids[k0] == x;
            let k = if k0 < i { k0 } else { k0 - 1 };
            assert(r[k] == x);
        }
    }
}

proof fn lemma_subscribe_sets(
    old_subs: Seq<Seq<char>>,
    old_recvs: Seq<Seq<char>>,
    new_subs: Seq<Seq<char>>,
    new_recvs: Seq<Seq<char>>,
    m: Seq<char>,
    pre_push: Seq<Seq<char>>,
)
    requires
        forall|i: int, j: int| 0 <= i < j < old_subs.len() ==> old_subs[i] != old_subs[j],
        forall|i: int, j: int| 0 <= i < j < old_recvs.len() ==> old_recvs[i] != old_recvs[j],
        forall|x: Seq<char>| old_recvs.contains(x) == old_subs.contains(x),
        (old_subs.contains(m) && new_subs == old_subs) || (!old_subs.contains(m) && new_subs
            == old_subs.push(m)),
        !pre_push.contains(m),
        forall|x: Seq<char>| x != m ==> pre_push.contains(x) == old_recvs.contains(x),
        forall|i: int, j: int| 0 <= i < j < pre_push.len() ==> pre_push[i] != pre_push[j],
        new_recvs == pre_push.push(m),
    ensures
        forall|i: int, j: int| 0 <= i < j < new_subs.len() ==> new_subs[i] != new_subs[j],
        forall|i: int, j: int| 0 <= i < j < new_recvs.len() ==> new_recvs[i] != new_recvs[j],
        forall|x: Seq<char>| new_recvs.contains(x) == new_subs.contains(x),
        new_subs.contains(m),
        forall|x: Seq<char>| x != m ==> new_subs.contains(x) == old_subs.contains(x),
{
    if new_subs == old_subs.push(m) {
        assert(new_subs.last() == m);
        assert forall|x: Seq<char>| x != m implies new_subs.contains(x) == old_subs.contains(
            x,
        ) by {
            lemma_push_contains(old_subs, m, x);
        }
        assert forall|i: int, j: int| 0 <= i < j < new_subs.len() implies new_subs[i]
            != new_subs[j] by {
            if j == new_subs.len() - 1 {
                assert(new_subs[j] == m);
                assert(new_subs[i] == old_subs[i]);
                assert(old_subs.contains(old_subs[i]));
            }
        }
    } else {
        assert(old_subs.contains(m) && new_subs == old_subs);
    }
    assert(new_recvs.last() == m);
    assert(new_recvs.contains(m));
    assert forall|i: int, j: int| 0 <= i < j < new_recvs.len() implies new_recvs[i]
        != new_recvs[j] by {
        if j == new_recvs.len() - 1 {
            assert(new_recvs[j] == m);
            assert(new_recvs[i] == pre_push[i]);
            assert(pre_push.contains(pre_push[i]));
        }
    }
    assert forall|x: Seq<char>| new_recvs.contains(x) == new_subs.contains(x) by {
        if x != m {
            lemma_push_contains(pre_push, m, x);
        }
    }
}

proof fn lemma_push_contains(s: Seq<Seq<char>>, m: Seq<char>, x: Seq<char>)
    requires
        x != m,
    ensures
        s.push(m).contains(x) == s.contains(x),
{
    if s.contains(x) {
        let k = choose|k: int| 0 <= k < s.len() && s[k] == x;
        assert(s.push(m)[k] == x);
    }
    if s.push(m).contains(x) {
        let k = choose|k: int| 0 <= k < s.push(m).len() && s.push(m)[k] == x;
        assert(k < s.len());
        assert(s[k] == x);
    }
}

proof fn lemma_unsubscribe_sets(
    old_subs: Seq<Seq<char>>,
    old_recvs: Seq<Seq<char>>,
    new_subs: Seq<Seq<char>>,
    new_recvs: Seq<Seq<char>>,
    m: Seq<char>,
)
    requires
        forall|i: int, j: int| 0 <= i < j < old_subs.len() ==> old_subs[i] != old_subs[j],
        forall|i: int, j: int| 0 <= i < j < old_recvs.len() ==> old_recvs[i] != old_recvs[j],
        forall|x: Seq<char>| old_recvs.contains(x) == old_subs.contains(x),
        !new_subs.contains(m),
        forall|x: Seq<char>| x != m ==> new_subs.contains(x) == old_subs.contains(x),
        forall|i: int, j: int| 0 <= i < j < new_subs.len() ==> new_subs[i] != new_subs[j],
        !new_recvs.contains(m),
        forall|x: Seq<char>| x != m ==> new_recvs.contains(x) == old_recvs.contains(x),
        forall|i: int, j: int| 0 <= i < j < new_recvs.len() ==> new_recvs[i] != new_recvs[j],
    ensures
        forall|x: Seq<char>| new_recvs.contains(x) == new_subs.contains(x),
{
    assert forall|x: Seq<char>| new_recvs.contains(x) == new_subs.contains(x) by {
        if x != m {
            assert(new_recvs.contains(x) == old_recvs.contains(x));
            assert(new_subs.contains(x) == old_subs.contains(x));
        }
    }
}

/// A well-formed session that does not follow a match holds no receiver
/// for it.  So once a match is unsubscribed nothing can hand the session a
/// frame for that match again, however many publications follow: every
/// frame a session forwards is drawn from one of its receivers.
pub proof fn lemma_unsubscribed_session_holds_no_receiver(s: &Session, m: Seq<char>)
    requires
        s.wf(),
        !s.subscribed(m),
    ensures
        !s.recv_ids().contains(m),
{
}

} // verus!
