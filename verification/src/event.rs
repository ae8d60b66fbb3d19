//! The fixed-capacity event queue between interrupt context and the
//! mainline loop.
//!
//! Interrupt handlers push; the mainline loop drains. A push never blocks
//! and never fails: when the queue is full it silently overwrites the
//! oldest unread event. That data-loss policy is part of the contract, and
//! the buffer reports how many events were lost since the last drain.

use vstd::prelude::*;
use vstd::arithmetic::div_mod::{lemma_add_mod_noop, lemma_small_mod, lemma_mod_self_0};

verus! {

/// Capacity of the event queue.
pub const EVENT_BUF_SIZE: usize = 8;

/// A high-level occurrence produced in interrupt context and consumed by
/// the mainline loop.
#[derive(Clone, Copy, Debug, PartialEq, Eq, Structural)]
pub enum SysEvent {
    Keyboard,
}

/// The queue's model of one push: appended while below capacity, and
/// replacing the oldest unread event otherwise.
pub open spec fn spec_push(q: Seq<SysEvent>, event: SysEvent) -> Seq<SysEvent> {
    if q.len() < EVENT_BUF_SIZE {
        q.push(event)
    } else {
        q.skip(1).push(event)
    }
}

/// The model of a whole sequence of pushes, first element pushed first.
pub open spec fn spec_push_all(q: Seq<SysEvent>, events: Seq<SysEvent>) -> Seq<SysEvent>
    decreases events.len(),
{
    if events.len() == 0 {
        q
    } else {
        spec_push_all(spec_push(q, events[0]), events.skip(1))
    }
}

/// The suffix of at most `EVENT_BUF_SIZE` newest elements.
pub open spec fn latest_up_to_capacity(s: Seq<SysEvent>) -> Seq<SysEvent> {
    if s.len() <= EVENT_BUF_SIZE {
        s
    } else {
        s.skip(s.len() - EVENT_BUF_SIZE)
    }
}

/// A run of pushes keeps exactly the newest `EVENT_BUF_SIZE` of everything
/// ever queued, in insertion order.
pub proof fn lemma_push_all_keeps_latest(q: Seq<SysEvent>, events: Seq<SysEvent>)
    requires
        q.len() <= EVENT_BUF_SIZE,
    ensures
        spec_push_all(q, events) == latest_up_to_capacity(q + events),
    decreases events.len(),
{
    if events.len() == 0 {
        assert(q + events =~= q);
    } else {
        let q1 = spec_push(q, events[0]);
        lemma_push_all_keeps_latest(q1, events.skip(1));
        if q.len() < EVENT_BUF_SIZE {
            assert(q1 + events.skip(1) =~= q + events);
        } else {
            assert(q1 + events.skip(1) =~= (q + events).skip(1));
            let s = q + events;
            if s.len() - 1 <= EVENT_BUF_SIZE {
                assert(s.skip(1) =~= latest_up_to_capacity(s));
            } else {
                assert(s.skip(1).skip(s.len() - 1 - EVENT_BUF_SIZE) =~= s.skip(
                    s.len() - EVENT_BUF_SIZE,
                ));
            }
        }
    }
}

/// Pushing `N <= EVENT_BUF_SIZE` events into a drained queue queues
/// exactly those events, in insertion order.
pub proof fn lemma_fill_within_capacity(events: Seq<SysEvent>)
    requires
        events.len() <= EVENT_BUF_SIZE,
    ensures
        spec_push_all(Seq::empty(), events) == events,
{
    lemma_push_all_keeps_latest(Seq::empty(), events);
    assert(Seq::empty() + events =~= events);
}

/// Pushing more than `EVENT_BUF_SIZE` events into a drained queue keeps
/// only the newest `EVENT_BUF_SIZE`, in insertion order: the oldest are
/// overwritten.
pub proof fn lemma_fill_beyond_capacity(events: Seq<SysEvent>)
    requires
        events.len() > EVENT_BUF_SIZE,
    ensures
        spec_push_all(Seq::empty(), events) == events.skip(
            events.len() - EVENT_BUF_SIZE as int,
        ),
{
    lemma_push_all_keeps_latest(Seq::empty(), events);
    assert(Seq::empty() + events =~= events);
}

/// Fixed-size ring of optional events plus the monotonically increasing
/// write counter; the next write lands in slot `counter % capacity`.
pub struct EventBuf {
    /// The slots; exactly the slots holding unread events are `Some`.
    pub buf: Vec<Option<SysEvent>>,
    /// Writes since the last drain.
    pub len: usize,
}

impl EventBuf {
    /// The slot holding the oldest unread event.
    pub open spec fn first_slot(self) -> int {
        if self.len <= EVENT_BUF_SIZE {
            0
        } else {
            self.len as int % EVENT_BUF_SIZE as int
        }
    }

    /// How many unread events the queue holds.
    pub open spec fn queued_len(self) -> int {
        if self.len <= EVENT_BUF_SIZE {
            self.len as int
        } else {
            EVENT_BUF_SIZE as int
        }
    }

    /// The unread events, oldest first.
    pub open spec fn queued(self) -> Seq<SysEvent> {
        Seq::new(
            self.queued_len() as nat,
            |i: int| self.buf@[(self.first_slot() + i) % EVENT_BUF_SIZE as int]->0,
        )
    }

    /// Structure invariant: full slot vector, and a slot is occupied
    /// exactly while it holds an unread event.
    pub open spec fn wf(self) -> bool {
        &&& self.buf@.len() == EVENT_BUF_SIZE
        &&& forall|i: int|
            0 <= i < EVENT_BUF_SIZE ==> ((self.buf@[i] is Some) <==> (self.len > EVENT_BUF_SIZE
                || i < self.len))
    }

    /// An empty queue, ready to fill from slot 0.
    pub fn new() -> (r: Self)
        ensures
            r.wf(),
            r.len == 0,
            r.queued() == Seq::<SysEvent>::empty(),
    {
        let mut buf: Vec<Option<SysEvent>> = Vec::new();
        let mut i: usize = 0;
        while i < EVENT_BUF_SIZE
            invariant
                i <= EVENT_BUF_SIZE,
                buf@.len() == i,
                forall|j: int| 0 <= j < i ==> buf@[j] is None,
            decreases EVENT_BUF_SIZE - i,
        {
            buf.push(None);
            i = i + 1;
        }
        let r = EventBuf { buf, len: 0 };
        proof {
            assert(r.queued() =~= Seq::<SysEvent>::empty());
        }
        r
    }

    /// How many unread events have been overwritten since the last drain.
    pub fn dropped_events(&self) -> (r: usize)
        requires
            self.wf(),
        ensures
            r == if self.len > EVENT_BUF_SIZE {
                self.len - EVENT_BUF_SIZE
            } else {
                0
            },
    {
        if self.len > EVENT_BUF_SIZE {
            self.len - EVENT_BUF_SIZE
        } else {
            0
        }
    }

    /// Write one event into the next slot. Never blocks and never fails;
    /// past capacity it overwrites the oldest unread event, which is lost.
    pub fn push(&mut self, event: SysEvent)
        requires
            old(self).wf(),
            old(self).len < usize::MAX,
        ensures
            final(self).wf(),
            final(self).len == old(self).len + 1,
            final(self).queued() == spec_push(old(self).queued(), event),
    {
        let slot = self.len % EVENT_BUF_SIZE;
        self.buf.set(slot, Some(event));
        self.len = self.len + 1;
        proof {
            let l = old(self).len as int;
            let cap = EVENT_BUF_SIZE as int;
            lemma_small_mod((self.len % EVENT_BUF_SIZE) as nat, EVENT_BUF_SIZE as nat);
            if l < cap {
                lemma_small_mod(l as nat, cap as nat);
                assert forall|i: int| 0 <= i < self.queued_len() implies self.queued()[i]
                    == spec_push(old(self).queued(), event)[i] by {
                    lemma_small_mod(i as nat, cap as nat);
                }
                assert(self.queued() =~= spec_push(old(self).queued(), event));
            } else {
                lemma_add_mod_noop(l, 1, cap);
                lemma_small_mod(1nat, cap as nat);
                assert forall|i: int| 0 <= i < self.queued_len() implies self.queued()[i]
                    == spec_push(old(self).queued(), event)[i] by {
                    let st = l % cap;
                    lemma_add_mod_noop(st + 1, i, cap);
                    lemma_add_mod_noop(st, 1 + i, cap);
                    if i < cap - 1 {
                        assert((st + (1 + i)) % cap == (st + 1 + i) % cap);
                    } else {
                        assert((st + 1 + i) % cap == st % cap) by {
                            lemma_add_mod_noop(st, cap, cap);
                            lemma_mod_self_0(cap);
                        }
                    }
                }
                assert(self.queued() =~= spec_push(old(self).queued(), event));
            }
        }
    }

    /// Take every unread event out, oldest first, and reset the queue to
    /// fill again from slot 0. The caller must make the call atomic with
    /// respect to pushes (on the single-core design: run it with
    /// interrupts disabled in mainline context).
    pub fn empty_event_buffer(&mut self) -> (events: Vec<SysEvent>)
        requires
            old(self).wf(),
        ensures
            events@ == old(self).queued(),
            final(self).wf(),
            final(self).len == 0,
            final(self).queued() == Seq::<SysEvent>::empty(),
    {
        let count = if self.len > EVENT_BUF_SIZE {
            EVENT_BUF_SIZE
        } else {
            self.len
        };
        let start = if self.len > EVENT_BUF_SIZE {
            self.len % EVENT_BUF_SIZE
        } else {
            0
        };
        let mut events: Vec<SysEvent> = Vec::new();
        let mut i: usize = 0;
        while i < count
            invariant
                self == old(self),
                self.wf(),
                i <= count,
                count == self.queued_len(),
                start == self.first_slot(),
                start < EVENT_BUF_SIZE,
                events@ =~= self.queued().subrange(0, i as int),
            decreases count - i,
        {
            let slot = (start + i) % EVENT_BUF_SIZE;
            proof {
                assert(self.buf@[slot as int] is Some);
                assert(self.queued()[i as int] == self.buf@[slot as int]->0);
            }
            events.push(self.buf[slot].unwrap());
            i = i + 1;
            proof {
                assert(events@ =~= self.queued().subrange(0, i as int));
            }
        }
        proof {
            assert(self.queued().subrange(0, count as int) =~= self.queued());
        }
        let mut j: usize = 0;
        while j < EVENT_BUF_SIZE
            invariant
                self.buf@.len() == EVENT_BUF_SIZE,
                j <= EVENT_BUF_SIZE,
                forall|k: int| 0 <= k < j ==> self.buf@[k] is None,
            decreases EVENT_BUF_SIZE - j,
        {
            self.buf.set(j, None);
            j = j + 1;
        }
        self.len = 0;
        proof {
            assert(self.queued() =~= Seq::<SysEvent>::empty());
        }
        events
    }
}

} // verus!
