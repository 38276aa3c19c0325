use vstd::prelude::*;

use crate::message::Message;

verus! {

/// What one read on a subscription yields.
pub enum RecvOutcome {
    /// The next message in publish order.
    Delivered(Message),
    /// The subscriber fell behind by this many messages, which are gone from the
    /// buffer; its cursor now stands on the oldest message still held.
    Lagged(u64),
    /// Nothing new has been published yet.
    Empty,
    /// The channel was torn down and everything it held has been read.
    Closed,
}

/// Sequence number of the oldest message still held when `len` messages have been
/// published into a buffer of `cap` slots.
pub open spec fn oldest_retained(len: nat, cap: nat) -> nat {
    if len > cap {
        (len - cap) as nat
    } else {
        0
    }
}

/// One read by a subscriber whose cursor is `cursor`, on a channel whose publish
/// history is `history`: the outcome, and the cursor afterwards.
pub open spec fn recv_step(history: Seq<Message>, cap: nat, closed: bool, cursor: nat) -> (
    RecvOutcome,
    nat,
) {
    let oldest = oldest_retained(history.len(), cap);
    if cursor < oldest {
        (RecvOutcome::Lagged((oldest - cursor) as u64), oldest)
    } else if cursor < history.len() {
        (RecvOutcome::Delivered(history[cursor as int]), cursor + 1)
    } else if closed {
        (RecvOutcome::Closed, cursor)
    } else {
        (RecvOutcome::Empty, cursor)
    }
}

/// The messages handed to a subscriber that starts at `cursor` and reads `reads`
/// times, in the order it receives them.
pub open spec fn deliveries(
    history: Seq<Message>,
    cap: nat,
    closed: bool,
    cursor: nat,
    reads: nat,
) -> Seq<Message>
    decreases reads,
{
    if reads == 0 {
        Seq::empty()
    } else {
        let (outcome, next) = recv_step(history, cap, closed, cursor);
        let rest = deliveries(history, cap, closed, next, (reads - 1) as nat);
        match outcome {
            RecvOutcome::Delivered(m) => seq![m] + rest,
            _ => rest,
        }
    }
}

/// Index of `i` in a ring of `cap` slots, for `i < 2 * cap`.
pub open spec fn wrap(i: int, cap: int) -> int {
    if i < cap {
        i
    } else {
        i - cap
    }
}

/// A subscription: the sequence number of the next message it will read.
pub struct Receiver {
    next: u64,
}

impl Receiver {
    /// Sequence number of the next message this subscription reads.
    pub closed spec fn cursor(&self) -> nat {
        self.next as nat
    }

    /// Sequence number of the next message this subscription reads.
    pub fn position(&self) -> (r: u64)
        ensures
            r as nat == self.cursor(),
    {
        self.next
    }
}

/// A multi-producer, multi-consumer broadcast channel with a ring buffer of fixed
/// capacity. Publishing never waits: when the buffer is full the oldest message is
/// overwritten, and a subscriber that had not read it learns that it lagged.
pub struct Channel {
    slots: Vec<Message>,
    start: usize,
    capacity: usize,
    written: u64,
    receivers: u64,
    closed: bool,
    history: Ghost<Seq<Message>>,
}

impl Channel {
    /// Every message published so far, in publish order.
    pub closed spec fn history(&self) -> Seq<Message> {
        self.history@
    }

    /// How many messages the buffer holds at most.
    pub closed spec fn cap(&self) -> nat {
        self.capacity as nat
    }

    /// How many subscriptions are open.
    pub closed spec fn receiver_count(&self) -> nat {
        self.receivers as nat
    }

    /// Whether the channel has been torn down.
    pub closed spec fn is_closed(&self) -> bool {
        self.closed
    }

    /// The buffer holds the last `cap` messages of the history, oldest at `start`.
    pub closed spec fn wf(&self) -> bool {
        let len = self.history@.len();
        let cap = self.capacity as int;
        &&& cap > 0
        &&& self.written as nat == len
        &&& self.slots@.len() == if len < cap {
            len as int
        } else {
            cap
        }
        &&& self.start < self.capacity
        &&& len < cap ==> self.start == 0
        &&& forall|k: int|
            0 <= k < self.slots@.len() ==> self.slots@[#[trigger] wrap(self.start + k, cap)]
                == self.history@[oldest_retained(len, cap as nat) + k]
    }

    /// A channel with no messages and no subscribers, holding at most `capacity` messages.
    pub fn new(capacity: usize) -> (r: Channel)
        requires
            capacity > 0,
        ensures
            r.wf(),
            r.history() == Seq::<Message>::empty(),
            r.cap() == capacity,
            r.receiver_count() == 0,
            !r.is_closed(),
    {
        Channel {
            slots: Vec::new(),
            start: 0,
            capacity,
            written: 0,
            receivers: 0,
            closed: false,
            history: Ghost(Seq::empty()),
        }
    }

    /// How many messages have been published: the sequence number of the next one.
    pub fn sent(&self) -> (r: u64)
        requires
            self.wf(),
        ensures
            r as nat == self.history().len(),
    {
        self.written
    }

    /// How many subscriptions are open.
    pub fn subscribers(&self) -> (r: u64)
        ensures
            r as nat == self.receiver_count(),
    {
        self.receivers
    }

    /// Whether the channel has been torn down.
    pub fn closed(&self) -> (r: bool)
        ensures
            r == self.is_closed(),
    {
        self.closed
    }

    /// Appends `msg` to the history, overwriting the oldest buffered message when the
    /// buffer is full. Returns how many subscriptions are open, zero included: having
    /// no listener is no failure.
    pub fn publish(&mut self, msg: Message) -> (r: u64)
        requires
            old(self).wf(),
            !old(self).is_closed(),
            old(self).history().len() < u64::MAX,
        ensures
            final(self).wf(),
            final(self).history() == old(self).history().push(msg),
            final(self).cap() == old(self).cap(),
            final(self).receiver_count() == old(self).receiver_count(),
            final(self).is_closed() == old(self).is_closed(),
            r as nat == old(self).receiver_count(),
    {
        let ghost old_hist = self.history@;
        let ghost cap = self.capacity as int;
        let ghost old_start = self.start as int;
        let ghost old_slots = self.slots@;
        let ghost oldest = oldest_retained(old_hist.len(), cap as nat) as int;
        if self.slots.len() < self.capacity {
            self.slots.push(msg);
            self.history = Ghost(old_hist.push(msg));
            self.written = self.written + 1;
            assert forall|k: int| 0 <= k < self.slots@.len() implies self.slots@[#[trigger] wrap(
                self.start + k,
                cap,
            )] == self.history@[oldest_retained(self.history@.len(), cap as nat) + k] by {
                if k < old_slots.len() {
                    assert(old_slots[wrap(old_start + k, cap)] == old_hist[oldest + k]);
                }
            }
        } else {
            let s = self.start;
            self.slots.set(s, msg);
            self.start = if s + 1 < self.capacity {
                s + 1
            } else {
                0
            };
            self.history = Ghost(old_hist.push(msg));
            self.written = self.written + 1;
            assert forall|k: int| 0 <= k < self.slots@.len() implies self.slots@[#[trigger] wrap(
                self.start + k,
                cap,
            )] == self.history@[oldest_retained(self.history@.len(), cap as nat) + k] by {
                if k < cap - 1 {
                    assert(wrap(self.start + k, cap) == wrap(old_start + (k + 1), cap));
                    assert(old_slots[wrap(old_start + (k + 1), cap)] == old_hist[oldest + (k
                        + 1)]);
                } else {
                    assert(wrap(self.start + k, cap) == old_start);
                }
            }
        }
        self.receivers
    }

    /// Opens a subscription whose cursor stands at the current end of the history:
    /// it will never see a message published before this call.
    pub fn subscribe(&mut self) -> (r: Receiver)
        requires
            old(self).wf(),
            old(self).receiver_count() < u64::MAX,
        ensures
            final(self).wf(),
            r.cursor() == old(self).history().len(),
            final(self).history() == old(self).history(),
            final(self).cap() == old(self).cap(),
            final(self).receiver_count() == old(self).receiver_count() + 1,
            final(self).is_closed() == old(self).is_closed(),
    {
        self.receivers = self.receivers + 1;
        Receiver { next: self.written }
    }

    /// Closes the subscription `rx`.
    pub fn unsubscribe(&mut self, rx: Receiver)
        requires
            old(self).wf(),
            old(self).receiver_count() > 0,
        ensures
            final(self).wf(),
            final(self).history() == old(self).history(),
            final(self).cap() == old(self).cap(),
            final(self).receiver_count() == old(self).receiver_count() - 1,
            final(self).is_closed() == old(self).is_closed(),
    {
        self.receivers = self.receivers - 1;
    }

    /// Tears the channel down: no message can be published after this, and a
    /// subscription that has read everything gets `Closed`.
    pub fn close(&mut self)
        requires
            old(self).wf(),
        ensures
            final(self).wf(),
            final(self).history() == old(self).history(),
            final(self).cap() == old(self).cap(),
            final(self).receiver_count() == old(self).receiver_count(),
            final(self).is_closed(),
    {
        self.closed = true;
    }

    /// Reads once on the subscription `rx` without waiting: the next message, the
    /// number of messages it lost when it lagged (its cursor then moves to the oldest
    /// message still held), `Empty` when nothing new was published, or `Closed`.
    pub fn recv(&self, rx: &mut Receiver) -> (r: RecvOutcome)
        requires
            self.wf(),
            old(rx).cursor() <= self.history().len(),
        ensures
            (r, final(rx).cursor()) == recv_step(
                self.history(),
                self.cap(),
                self.is_closed(),
                old(rx).cursor(),
            ),
            final(rx).cursor() <= self.history().len(),
    {
        let ghost cap = self.capacity as int;
        let held = self.slots.len() as u64;
        let oldest = self.written - held;
        if rx.next < oldest {
            let lost = oldest - rx.next;
            rx.next = oldest;
            RecvOutcome::Lagged(lost)
        } else if rx.next < self.written {
            let k = (rx.next - oldest) as usize;
            let idx = if k < self.capacity - self.start {
                self.start + k
            } else {
                k - (self.capacity - self.start)
            };
            assert(idx == wrap(self.start + k, cap));
            let m = self.slots[idx].clone();
            rx.next = rx.next + 1;
            RecvOutcome::Delivered(m)
        } else if self.closed {
            RecvOutcome::Closed
        } else {
            RecvOutcome::Empty
        }
    }
}

} // verus!
