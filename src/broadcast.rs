//! Fan-out of events to independent subscribers, each with a bounded buffer
//! that drops its oldest entry when full.

use vstd::prelude::*;
use crate::message::DuckMessage;

verus! {

/// The default buffer capacity of each subscriber.
pub const DEFAULT_CAPACITY: usize = 100;

/// The last `cap` entries of `p` (all of them if there are no more).
pub open spec fn keep_last<T>(p: Seq<T>, cap: nat) -> Seq<T> {
    if p.len() > cap { p.subrange(p.len() - cap, p.len() as int) } else { p }
}

/// A buffer after `e` arrives: appended, the oldest dropped if over `cap`.
pub open spec fn bounded_push<T>(q: Seq<T>, e: T, cap: nat) -> Seq<T> {
    keep_last(q.push(e), cap)
}

/// A buffer after each of `es` arrives in order.
pub open spec fn publish_run<T>(q: Seq<T>, es: Seq<T>, cap: nat) -> Seq<T>
    decreases es.len(),
{
    if es.len() == 0 {
        q
    } else {
        bounded_push(publish_run(q, es.drop_last(), cap), es.last(), cap)
    }
}

proof fn lemma_keep_last_push<T>(p: Seq<T>, e: T, cap: nat)
    ensures
        keep_last(keep_last(p, cap).push(e), cap) == keep_last(p.push(e), cap),
{
    if p.len() > cap {
        assert(keep_last(keep_last(p, cap).push(e), cap) =~= keep_last(p.push(e), cap));
    }
}

/// However many events are published into a buffer of capacity `cap`, it
/// holds exactly the last `cap` of everything it was offered, oldest first.
pub proof fn lemma_buffer_keeps_latest<T>(q: Seq<T>, es: Seq<T>, cap: nat)
    requires
        q.len() <= cap,
    ensures
        publish_run(q, es, cap) == keep_last(q + es, cap),
    decreases es.len(),
{
    if es.len() > 0 {
        lemma_buffer_keeps_latest(q, es.drop_last(), cap);
        lemma_keep_last_push(q + es.drop_last(), es.last(), cap);
        assert((q + es.drop_last()).push(es.last()) =~= q + es);
    }
}

/// Number of `true` entries.
pub open spec fn count_open(s: Seq<bool>) -> nat
    decreases s.len(),
{
    if s.len() == 0 {
        0
    } else {
        count_open(s.drop_last()) + if s.last() { 1nat } else { 0nat }
    }
}

proof fn lemma_count_open_bound(s: Seq<bool>)
    ensures
        count_open(s) <= s.len(),
    decreases s.len(),
{
    if s.len() > 0 {
        lemma_count_open_bound(s.drop_last());
    }
}

proof fn lemma_count_open_close(s: Seq<bool>, i: int)
    requires
        0 <= i < s.len(),
        s[i],
    ensures
        count_open(s.update(i, false)) + 1 == count_open(s),
    decreases s.len(),
{
    let u = s.update(i, false);
    if i == s.len() - 1 {
        assert(u.drop_last() =~= s.drop_last());
    } else {
        assert(u.drop_last() =~= s.drop_last().update(i, false));
        lemma_count_open_close(s.drop_last(), i);
    }
}

/// A handle naming one subscriber's buffer.
#[derive(Clone, Copy, Debug, PartialEq, Eq, Structural)]
pub struct Subscription {
    pub slot: usize,
}

/// The broadcaster as plain values.
pub struct BroadcastView {
    pub capacity: nat,
    pub queues: Seq<Seq<DuckMessage>>,
    pub open: Seq<bool>,
    pub accepting: bool,
}

impl BroadcastView {
    /// Every buffer is within capacity; a closed slot holds nothing.
    pub open spec fn wf(self) -> bool {
        &&& self.capacity > 0
        &&& self.queues.len() == self.open.len()
        &&& forall|i: int| 0 <= i < self.queues.len() ==> #[trigger] self.queues[i].len() <= self.capacity
        &&& forall|i: int| 0 <= i < self.queues.len() && !self.open[i] ==> #[trigger] self.queues[i].len() == 0
    }

    /// Whether `s` names a live subscriber.
    pub open spec fn is_live(self, s: Subscription) -> bool {
        s.slot < self.open.len() && self.open[s.slot as int]
    }
}

/// A single-producer, many-consumer event fan-out. Each subscriber owns a
/// buffer of exactly `capacity` entries that drops its oldest entry when
/// full and keeps delivering. tokio's broadcast channel is not used: it
/// rounds the capacity up to a power of two and makes a lagging receiver
/// see an error instead of the surviving events.
#[derive(Debug)]
pub struct Broadcaster {
    capacity: usize,
    queues: Vec<Vec<DuckMessage>>,
    open: Vec<bool>,
    live: usize,
    accepting: bool,
}

impl View for Broadcaster {
    type V = BroadcastView;

    closed spec fn view(&self) -> BroadcastView {
        BroadcastView {
            capacity: self.capacity as nat,
            queues: self.queues@.map_values(|q: Vec<DuckMessage>| q@),
            open: self.open@,
            accepting: self.accepting,
        }
    }
}

impl Broadcaster {
    /// Internal consistency: the view is well formed and `live` counts the
    /// open slots.
    pub closed spec fn wf(&self) -> bool {
        &&& self@.wf()
        &&& self.queues@.len() == self.open@.len()
        &&& self.live as nat == count_open(self.open@)
    }

    /// A broadcaster whose subscribers each buffer up to `capacity` events.
    pub fn new(capacity: usize) -> (r: Self)
        requires
            capacity > 0,
        ensures
            r.wf(),
            r@.capacity == capacity,
            r@.queues.len() == 0,
            r@.accepting,
    {
        let r = Broadcaster { capacity, queues: Vec::new(), open: Vec::new(), live: 0, accepting: true };
        assert(r@.queues =~= Seq::<Seq<DuckMessage>>::empty());
        r
    }

    /// The number of live subscribers.
    pub fn subscriber_count(&self) -> (r: usize)
        requires
            self.wf(),
        ensures
            r == count_open(self@.open),
    {
        self.live
    }

    /// A fresh subscriber that sees only events published from now on;
    /// `None` once the broadcaster is closed.
    pub fn subscribe(&mut self) -> (r: Option<Subscription>)
        requires
            old(self).wf(),
        ensures
            final(self).wf(),
            final(self)@.capacity == old(self)@.capacity,
            final(self)@.accepting == old(self)@.accepting,
            old(self)@.accepting ==> r == Some(Subscription { slot: old(self)@.queues.len() as usize })
                && final(self)@.queues == old(self)@.queues.push(Seq::empty())
                && final(self)@.open == old(self)@.open.push(true),
            !old(self)@.accepting ==> r is None && final(self)@ == old(self)@,
    {
        if !self.accepting {
            return None;
        }
        let slot = self.queues.len();
        self.queues.push(Vec::new());
        self.open.push(true);
        let total = self.open.len();
        assert(self.open@.drop_last() =~= old(self).open@);
        proof {
            lemma_count_open_bound(self.open@);
        }
        assert(self.live + 1 <= total);
        self.live = self.live + 1;
        assert(self@.queues =~= old(self)@.queues.push(Seq::empty()));
        Some(Subscription { slot })
    }

    /// Tears down a subscriber and discards what it had buffered.
    pub fn unsubscribe(&mut self, s: Subscription)
        requires
            old(self).wf(),
        ensures
            final(self).wf(),
            final(self)@.capacity == old(self)@.capacity,
            final(self)@.accepting == old(self)@.accepting,
            old(self)@.is_live(s) ==> final(self)@.open == old(self)@.open.update(s.slot as int, false)
                && final(self)@.queues == old(self)@.queues.update(s.slot as int, Seq::empty()),
            !old(self)@.is_live(s) ==> final(self)@ == old(self)@,
    {
        if s.slot < self.open.len() && self.open[s.slot] {
            proof {
                lemma_count_open_close(self.open@, s.slot as int);
            }
            self.open.set(s.slot, false);
            self.queues.set(s.slot, Vec::new());
            self.live = self.live - 1;
            assert(self@.queues =~= old(self)@.queues.update(s.slot as int, Seq::empty()));
        }
    }

    /// Stops accepting new subscribers; existing ones keep their buffers.
    pub fn close(&mut self)
        requires
            old(self).wf(),
        ensures
            final(self).wf(),
            final(self)@ == (BroadcastView { accepting: false, ..old(self)@ }),
    {
        self.accepting = false;
    }

    /// Delivers `msg` to every live subscriber without blocking: a full
    /// buffer drops its oldest entry.
    pub fn publish(&mut self, msg: &DuckMessage)
        requires
            old(self).wf(),
        ensures
            final(self).wf(),
            final(self)@.capacity == old(self)@.capacity,
            final(self)@.open == old(self)@.open,
            final(self)@.accepting == old(self)@.accepting,
            final(self)@.queues.len() == old(self)@.queues.len(),
            forall|i: int| 0 <= i < old(self)@.queues.len() ==> #[trigger] final(self)@.queues[i] == if old(self)@.open[i] {
                bounded_push(old(self)@.queues[i], *msg, old(self)@.capacity)
            } else {
                old(self)@.queues[i]
            },
    {
        let n = self.queues.len();
        let mut i: usize = 0;
        while i < n
            invariant
                n == self.queues@.len(),
                n == old(self).queues@.len(),
                self.open == old(self).open,
                self.capacity == old(self).capacity,
                self.live == old(self).live,
                self.accepting == old(self).accepting,
                old(self).wf(),
                0 <= i <= n,
                forall|j: int| 0 <= j < i ==> #[trigger] self.queues@[j]@ == if old(self).open@[j] {
                    bounded_push(old(self).queues@[j]@, *msg, old(self).capacity as nat)
                } else {
                    old(self).queues@[j]@
                },
                forall|j: int| i <= j < n ==> #[trigger] self.queues@[j] == old(self).queues@[j],
            decreases n - i,
        {
            if self.open[i] {
                proof {
                    assert(old(self)@.queues[i as int] == old(self).queues@[i as int]@);
                }
                let mut q = Vec::new();
                std::mem::swap(&mut q, &mut self.queues[i]);
                let ghost before = q@;
                q.push(msg.duplicate());
                if q.len() > self.capacity {
                    q.remove(0);
                    assert(q@ =~= bounded_push(before, *msg, self.capacity as nat));
                } else {
                    assert(q@ =~= bounded_push(before, *msg, self.capacity as nat));
                }
                std::mem::swap(&mut q, &mut self.queues[i]);
            }
            i += 1;
        }
        proof {
            assert forall|j: int| 0 <= j < old(self)@.queues.len() implies #[trigger] self@.queues[j] == if old(
                self,
            )@.open[j] {
                bounded_push(old(self)@.queues[j], *msg, old(self)@.capacity)
            } else {
                old(self)@.queues[j]
            } by {
                assert(old(self)@.queues[j] == old(self).queues@[j]@);
                assert(self@.queues[j] == self.queues@[j]@);
            }
        }
    }

    /// Takes the oldest buffered event of subscriber `s`, if any.
    pub fn receive(&mut self, s: Subscription) -> (r: Option<DuckMessage>)
        requires
            old(self).wf(),
        ensures
            final(self).wf(),
            final(self)@.capacity == old(self)@.capacity,
            final(self)@.open == old(self)@.open,
            final(self)@.accepting == old(self)@.accepting,
            old(self)@.is_live(s) && old(self)@.queues[s.slot as int].len() > 0 ==>
                r == Some(old(self)@.queues[s.slot as int][0])
                && final(self)@.queues == old(self)@.queues.update(s.slot as int, old(self)@.queues[s.slot as int].drop_first()),
            !(old(self)@.is_live(s) && old(self)@.queues[s.slot as int].len() > 0) ==>
                r is None && final(self)@ == old(self)@,
    {
        if s.slot < self.open.len() && self.open[s.slot] && self.queues[s.slot].len() > 0 {
            let mut q = Vec::new();
            std::mem::swap(&mut q, &mut self.queues[s.slot]);
            let first = q.remove(0);
            std::mem::swap(&mut q, &mut self.queues[s.slot]);
            assert(self@.queues =~= old(self)@.queues.update(s.slot as int, old(self)@.queues[s.slot as int].drop_first()));
            Some(first)
        } else {
            None
        }
    }

    /// The events buffered for subscriber `s`, oldest first.
    pub fn pending(&self, s: Subscription) -> (r: Vec<DuckMessage>)
        requires
            self.wf(),
        ensures
            self@.is_live(s) ==> r@ == self@.queues[s.slot as int],
            !self@.is_live(s) ==> r@.len() == 0,
    {
        let mut r: Vec<DuckMessage> = Vec::new();
        if s.slot < self.open.len() && self.open[s.slot] {
            let q = &self.queues[s.slot];
            let mut i: usize = 0;
            while i < q.len()
                invariant
                    0 <= i <= q@.len(),
                    r@ == q@.subrange(0, i as int),
                decreases q@.len() - i,
            {
                r.push(q[i].duplicate());
                assert(r@ =~= q@.subrange(0, i + 1));
                i += 1;
            }
            assert(r@ =~= q@);
        }
        r
    }
}

} // verus!
