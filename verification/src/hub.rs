use vstd::prelude::*;

use crate::assoc::{
    find_by, unique_keys, lemma_find_by_skip, lemma_find_by_unique, lemma_find_by_none,
    lemma_find_by_push, lemma_find_by_update, lemma_unique_push, lemma_unique_update,
};
use crate::ascii::copy_bytes;
use crate::errors::RelayError;

verus! {

/// The key under which the hub resolves a fan-out entry: the endpoint
/// identifier it was created for.
pub open spec fn entry_key() -> spec_fn(HubEntry) -> Seq<char> {
    |e: HubEntry| e.id@
}

/// The per-message views of a run of messages.
pub open spec fn histories(h: Seq<Vec<u8>>) -> Seq<Seq<u8>> {
    Seq::new(h.len(), |i: int| h[i]@)
}

proof fn lemma_histories_push(h: Seq<Vec<u8>>, v: Vec<u8>)
    ensures
        histories(h.push(v)) == histories(h).push(v@),
{
    assert(histories(h.push(v)) =~= histories(h).push(v@));
}

/// One fan-out entry: the broadcast state for a single endpoint. The entry
/// records every message published under its endpoint in arrival order;
/// subscribers read from this log through their own cursors, and only the
/// most recent `capacity` messages (a bound owned by the hub) are promised
/// to a reader.
pub struct HubEntry {
    pub id: String,
    pub history: Vec<Vec<u8>>,
}

/// An independent consumer handle on one fan-out entry. A subscriber sees
/// exactly the messages published after it attached, in hub-arrival order,
/// unless it falls more than the hub's capacity behind, in which case its
/// next receive reports the unrecoverable gap.
pub struct Subscriber {
    pub endpoint_id: String,
    pub index: usize,
    pub cursor: usize,
}

/// The result of one receive attempt by a subscriber.
#[derive(Debug)]
pub enum RecvOutcome {
    /// The next message this subscriber had not yet seen.
    Message(Vec<u8>),
    /// No message is pending; the subscriber has seen everything published
    /// so far.
    Pending,
    /// The subscriber fell more than the hub's capacity behind the
    /// publisher and missed messages; its cursor has been moved forward to
    /// the oldest retained message.
    Lagged,
}

/// The fan-out hub: one broadcast entry per endpoint identifier, created
/// lazily by the first publish that touches the identifier and never
/// removed. Publishing is best-effort towards subscribers: a consumer that
/// does not drain fast enough misses messages rather than slowing the
/// publisher.
pub struct Hub {
    pub entries: Vec<HubEntry>,
    pub capacity: usize,
}

/// How one publish under `id` with message bytes `m` turns hub state `h0`
/// into `h1`: the entry for `id` exists and its log grew by exactly `m`,
/// every other entry is untouched, the retained window is unchanged, and
/// every subscriber handle that was live stays live.
pub open spec fn published_one(h0: Hub, h1: Hub, id: Seq<char>, m: Seq<u8>) -> bool {
    &&& h1.capacity == h0.capacity
    &&& h1.has_entry(id)
    &&& h1.history_of(id) == if h0.has_entry(id) {
        h0.history_of(id).push(m)
    } else {
        seq![m]
    }
    &&& forall|k: Seq<char>| k != id ==> h1.spec_entry(k) == h0.spec_entry(k)
    &&& forall|s: Subscriber| h0.subscriber_valid(s) ==> h1.subscriber_valid(s)
}

/// The messages a subscriber at `cursor` will still observe from a log
/// `h` before it is either drained or cut off: nothing if it already
/// lagged out of the retained window of `cap` messages or has seen
/// everything, and otherwise the next message followed by whatever remains.
pub open spec fn spec_drained(h: Seq<Seq<u8>>, cap: nat, cursor: nat) -> Seq<Seq<u8>>
    decreases h.len() - cursor,
{
    if cursor + cap < h.len() {
        Seq::empty()
    } else if cursor >= h.len() {
        Seq::empty()
    } else {
        seq![h[cursor as int]] + spec_drained(h, cap, (cursor + 1) as nat)
    }
}

impl Hub {
    /// The hub's invariant: entry identifiers are pairwise distinct and the
    /// retained window holds at least one message.
    pub open spec fn wf(self) -> bool {
        self.capacity >= 1 && unique_keys(self.entries@, entry_key())
    }

    /// The fan-out entry for `id`, if one was ever created.
    pub open spec fn spec_entry(self, id: Seq<char>) -> Option<HubEntry> {
        find_by(self.entries@, entry_key(), id)
    }

    /// Whether a fan-out entry exists for `id`.
    pub open spec fn has_entry(self, id: Seq<char>) -> bool {
        self.spec_entry(id) is Some
    }

    /// Every message ever published under `id`, in arrival order.
    pub open spec fn history_of(self, id: Seq<char>) -> Seq<Seq<u8>> {
        histories(self.spec_entry(id).unwrap().history@)
    }

    /// Whether `s` is a live handle on this hub: it points at the entry of
    /// its own endpoint and its cursor does not run ahead of the log.
    pub open spec fn subscriber_valid(self, s: Subscriber) -> bool {
        &&& s.index < self.entries@.len()
        &&& self.entries@[s.index as int].id@ == s.endpoint_id@
        &&& s.cursor <= self.entries@[s.index as int].history@.len()
    }

    /// The messages subscriber `s` will still observe if it drains now.
    pub open spec fn observed(self, s: Subscriber) -> Seq<Seq<u8>> {
        spec_drained(self.history_of(s.endpoint_id@), self.capacity as nat, s.cursor as nat)
    }

    /// An empty hub whose entries will retain `capacity` messages for slow
    /// subscribers.
    pub fn new(capacity: usize) -> (r: Hub)
        requires
            capacity >= 1,
        ensures
            r.wf(),
            r.capacity == capacity,
            r.entries@ == Seq::<HubEntry>::empty(),
            forall|id: Seq<char>| !r.has_entry(id),
    {
        let h = Hub { entries: Vec::new(), capacity };
        proof {
            assert forall|id: Seq<char>| !h.has_entry(id) by {
                assert(find_by(h.entries@, entry_key(), id) is None);
            }
        }
        h
    }

    /// The index of the entry for `id`, if any.
    fn find_index(&self, id: &String) -> (r: Option<usize>)
        ensures
            match r {
                Some(i) => i < self.entries@.len() && self.entries@[i as int].id@ == id@
                    && self.spec_entry(id@) == Some(self.entries@[i as int]) && (forall|j: int|
                    0 <= j < i ==> (#[trigger] self.entries@[j]).id@ != id@),
                None => self.spec_entry(id@) is None,
            },
    {
        let ghost es = self.entries@;
        let n = self.entries.len();
        let mut i: usize = 0;
        proof {
            assert(es.skip(0) =~= es);
        }
        while i < n
            invariant
                i <= n,
                n == es.len(),
                es == self.entries@,
                forall|j: int| 0 <= j < i ==> (#[trigger] es[j]).id@ != id@,
                find_by(es, entry_key(), id@) == find_by(es.skip(i as int), entry_key(), id@),
            decreases n - i,
        {
            proof {
                lemma_find_by_skip(es, entry_key(), id@, i as int);
                assert(entry_key()(es[i as int]) == es[i as int].id@);
            }
            if self.entries[i].id == *id {
                return Some(i);
            }
            i += 1;
        }
        proof {
            assert(es.skip(n as int) =~= Seq::<HubEntry>::empty());
            assert(find_by(Seq::<HubEntry>::empty(), entry_key(), id@) is None);
        }
        None
    }

    /// Publish one message under `id`: create the entry if this is the
    /// first touch of that identifier, and append the message to its log,
    /// where every current subscriber can pick it up. Publishing never
    /// fails and never waits for subscribers.
    pub fn publish(&mut self, id: &String, msg: Vec<u8>)
        requires
            old(self).wf(),
        ensures
            final(self).wf(),
            published_one(*old(self), *final(self), id@, msg@),
    {
        let ghost es = self.entries@;
        let ghost m = msg@;
        match self.find_index(id) {
            Some(i) => {
                self.entries[i].history.push(msg);
                proof {
                    let e2 = self.entries@[i as int];
                    assert(self.entries@ =~= es.update(i as int, e2));
                    assert(entry_key()(e2) == entry_key()(es[i as int]));
                    assert forall|j: int| 0 <= j < i implies entry_key()(#[trigger] es[j])
                        != entry_key()(es[i as int]) by {
                        assert(entry_key()(es[j]) == es[j].id@);
                    }
                    lemma_unique_update(es, entry_key(), i as int, e2);
                    assert forall|k: Seq<char>| true implies find_by(
                        es.update(i as int, e2),
                        entry_key(),
                        k,
                    ) == if k == id@ {
                        Some(e2)
                    } else {
                        find_by(es, entry_key(), k)
                    } by {
                        lemma_find_by_update(es, entry_key(), k, i as int, e2);
                    }
                    lemma_histories_push(es[i as int].history@, msg);
                    assert forall|s: Subscriber| old(self).subscriber_valid(s) implies final(self).subscriber_valid(s) by {
                        if s.index == i {
                            assert(e2.id@ == es[i as int].id@);
                            assert(e2.history@.len() == es[i as int].history@.len() + 1);
                        }
                    }
                }
            },
            None => {
                let mut log: Vec<Vec<u8>> = Vec::new();
                log.push(msg);
                let entry = HubEntry { id: id.clone(), history: log };
                proof {
                    lemma_find_by_none(es, entry_key(), id@);
                    assert forall|j: int| 0 <= j < es.len() implies entry_key()(#[trigger] es[j])
                        != entry_key()(entry) by {
                        assert(entry_key()(es[j]) == es[j].id@);
                    }
                    lemma_unique_push(es, entry_key(), entry);
                    assert forall|k: Seq<char>| true implies find_by(
                        es.push(entry),
                        entry_key(),
                        k,
                    ) == if k == id@ {
                        Some(entry)
                    } else {
                        find_by(es, entry_key(), k)
                    } by {
                        lemma_find_by_push(es, entry_key(), k, entry);
                        assert(entry_key()(entry) == id@);
                        if k == id@ {
                            lemma_find_by_none(es, entry_key(), k);
                        }
                    }
                    assert(histories(entry.history@) =~= seq![m]);
                }
                self.entries.push(entry);
                proof {
                    assert forall|s: Subscriber| old(self).subscriber_valid(s) implies final(self).subscriber_valid(s) by {
                        assert(self.entries@[s.index as int] == es[s.index as int]);
                    }
                }
            },
        }
    }

    /// Attach a new independent subscriber to the entry for `id`. A
    /// subscriber can only attach to an entry that some relay activity has
    /// already created; it will observe exactly the messages published
    /// after this call.
    pub fn subscribe(&self, id: &String) -> (r: Result<Subscriber, RelayError>)
        requires
            self.wf(),
        ensures
            r is Ok <==> self.has_entry(id@),
            r is Err ==> r == Err::<Subscriber, RelayError>(RelayError::EndpointNotPublishing),
            r matches Ok(s) ==> self.subscriber_valid(s) && s.endpoint_id@ == id@ && s.cursor
                == self.history_of(id@).len() && self.observed(s) == Seq::<Seq<u8>>::empty(),
    {
        match self.find_index(id) {
            Some(i) => {
                let s = Subscriber {
                    endpoint_id: id.clone(),
                    index: i,
                    cursor: self.entries[i].history.len(),
                };
                Ok(s)
            },
            None => Err(RelayError::EndpointNotPublishing),
        }
    }

    /// One receive attempt by subscriber `sub`: the next unseen message if
    /// one is retained, `Pending` if the subscriber has seen everything,
    /// and `Lagged` — with the cursor moved up to the oldest retained
    /// message — if the subscriber fell more than `capacity` behind.
    pub fn recv(&self, sub: &mut Subscriber) -> (r: RecvOutcome)
        requires
            self.wf(),
            self.subscriber_valid(*old(sub)),
        ensures
            final(sub).endpoint_id == old(sub).endpoint_id,
            final(sub).index == old(sub).index,
            self.subscriber_valid(*final(sub)),
            ({
                let h = self.history_of(old(sub).endpoint_id@);
                &&& (old(sub).cursor + self.capacity < h.len() ==> r is Lagged && final(sub).cursor
                    + self.capacity == h.len())
                &&& (old(sub).cursor == h.len() ==> r is Pending
                    && final(sub).cursor == old(sub).cursor)
                &&& (old(sub).cursor < h.len() && old(sub).cursor + self.capacity >= h.len() ==> (
                r matches RecvOutcome::Message(m) && m@ == h[old(sub).cursor as int])
                    && final(sub).cursor == old(sub).cursor + 1)
            }),
    {
        proof {
            lemma_find_by_unique(
                self.entries@,
                entry_key(),
                sub.endpoint_id@,
                sub.index as int,
            );
            assert(entry_key()(self.entries@[sub.index as int]) == sub.endpoint_id@);
        }
        let i = sub.index;
        let len = self.entries[i].history.len();
        if len - sub.cursor > self.capacity {
            sub.cursor = len - self.capacity;
            RecvOutcome::Lagged
        } else if sub.cursor == len {
            RecvOutcome::Pending
        } else {
            let m = copy_bytes(&self.entries[i].history[sub.cursor]);
            sub.cursor = sub.cursor + 1;
            RecvOutcome::Message(m)
        }
    }
}

/// Draining a log from any position inside the retained window observes
/// exactly the suffix of the log from that position.
pub proof fn lemma_drained_is_suffix(h: Seq<Seq<u8>>, cap: nat, cursor: nat)
    requires
        cursor <= h.len(),
        h.len() <= cursor + cap,
    ensures
        spec_drained(h, cap, cursor) == h.skip(cursor as int),
    decreases h.len() - cursor,
{
    if cursor >= h.len() {
        assert(h.skip(cursor as int) =~= Seq::<Seq<u8>>::empty());
    } else {
        lemma_drained_is_suffix(h, cap, (cursor + 1) as nat);
        assert(seq![h[cursor as int]] + h.skip(cursor as int + 1) =~= h.skip(cursor as int));
    }
}

/// A subscriber positioned at the end of a log observes a following run of
/// published messages completely and in publication order, provided the run
/// fits in the retained window.
pub proof fn lemma_fanout_in_order(h0: Seq<Seq<u8>>, msgs: Seq<Seq<u8>>, cap: nat)
    requires
        msgs.len() <= cap,
    ensures
        spec_drained(h0 + msgs, cap, h0.len()) == msgs,
{
    lemma_drained_is_suffix(h0 + msgs, cap, h0.len());
    assert((h0 + msgs).skip(h0.len() as int) =~= msgs);
}

/// A subscriber that attached before a run of publishes on its endpoint,
/// and drains after the run, observes exactly that run, provided the run
/// fits in the retained window.
pub proof fn lemma_subscriber_sees_run(hub0: Hub, hub1: Hub, s: Subscriber, msgs: Seq<Seq<u8>>)
    requires
        s.cursor == hub0.history_of(s.endpoint_id@).len(),
        hub1.history_of(s.endpoint_id@) == hub0.history_of(s.endpoint_id@) + msgs,
        hub1.capacity == hub0.capacity,
        msgs.len() <= hub1.capacity,
    ensures
        hub1.observed(s) == msgs,
{
    lemma_fanout_in_order(hub0.history_of(s.endpoint_id@), msgs, hub1.capacity as nat);
}

/// A receive inside the retained window observes the head of `observed`,
/// and leaves the rest for the advanced cursor: the sequence a subscriber
/// collects by receiving until `Pending` is exactly `observed`, element by
/// element.
pub proof fn lemma_observed_step(hub: Hub, a: Subscriber, b: Subscriber)
    requires
        b.endpoint_id@ == a.endpoint_id@,
        b.cursor == a.cursor + 1,
        a.cursor < hub.history_of(a.endpoint_id@).len(),
        a.cursor + hub.capacity >= hub.history_of(a.endpoint_id@).len(),
    ensures
        hub.observed(a) == seq![hub.history_of(a.endpoint_id@)[a.cursor as int]] + hub.observed(b),
{
}

/// What a subscriber observes depends only on its endpoint's log, the
/// hub's retained window, and its own cursor: two subscribers on the same
/// endpoint at the same position observe the same message sequence, and no
/// operation on one subscriber handle can change what the other observes.
pub proof fn lemma_subscribers_independent(hub: Hub, a: Subscriber, b: Subscriber)
    requires
        a.endpoint_id@ == b.endpoint_id@,
        a.cursor == b.cursor,
    ensures
        hub.observed(a) == hub.observed(b),
{
}

} // verus!
