use vstd::prelude::*;

use crate::channel::{deliveries, oldest_retained, recv_step, RecvOutcome};
use crate::message::Message;

verus! {

/// The smaller of `a` and `b`.
pub open spec fn min_nat(a: nat, b: nat) -> nat {
    if a <= b {
        a
    } else {
        b
    }
}

/// A subscriber whose cursor is still in the buffer receives the history from its
/// cursor on, one message per read, with nothing left out and nothing reordered.
pub proof fn reads_follow_history(
    history: Seq<Message>,
    cap: nat,
    closed: bool,
    cursor: nat,
    reads: nat,
)
    requires
        oldest_retained(history.len(), cap) <= cursor <= history.len(),
    ensures
        deliveries(history, cap, closed, cursor, reads) == history.subrange(
            cursor as int,
            min_nat(cursor + reads, history.len()) as int,
        ),
    decreases reads,
{
    if reads > 0 {
        let (outcome, next) = recv_step(history, cap, closed, cursor);
        reads_follow_history(history, cap, closed, next, (reads - 1) as nat);
        if cursor < history.len() {
            assert(deliveries(history, cap, closed, cursor, reads) =~= history.subrange(
                cursor as int,
                min_nat(cursor + reads, history.len()) as int,
            ));
        } else {
            assert(history.subrange(cursor as int, cursor as int) =~= Seq::<Message>::empty());
        }
    } else {
        assert(history.subrange(cursor as int, cursor as int) =~= Seq::<Message>::empty());
    }
}

/// A subscriber that attached after `attached` messages had been published, and has
/// not fallen more than `cap` messages behind, receives none of those messages and
/// then every later one, in publish order.
pub proof fn late_subscriber_gets_only_later_messages(
    history: Seq<Message>,
    cap: nat,
    closed: bool,
    attached: nat,
)
    requires
        attached <= history.len(),
        history.len() - attached <= cap,
    ensures
        deliveries(history, cap, closed, attached, (history.len() - attached) as nat)
            == history.subrange(attached as int, history.len() as int),
{
    reads_follow_history(history, cap, closed, attached, (history.len() - attached) as nat);
}

/// What a read returns does not change when more messages are published meanwhile,
/// as long as the message it reads has not been overwritten.
pub proof fn read_unaffected_by_later_publishes(
    earlier: Seq<Message>,
    later: Seq<Message>,
    cap: nat,
    closed: bool,
    cursor: nat,
)
    requires
        earlier.len() <= later.len(),
        later.subrange(0, earlier.len() as int) == earlier,
        oldest_retained(later.len(), cap) <= cursor < earlier.len(),
    ensures
        recv_step(earlier, cap, closed, cursor) == recv_step(later, cap, closed, cursor),
{
    assert(earlier[cursor as int] == later.subrange(0, earlier.len() as int)[cursor as int]);
}

/// Two subscribers that attached after `first` and after `second` messages, and have
/// not lagged, receive the messages they share in the same order: what the later one
/// receives is exactly the tail of what the earlier one receives.
pub proof fn subscribers_agree_on_order(
    history: Seq<Message>,
    cap: nat,
    closed: bool,
    first: nat,
    second: nat,
)
    requires
        first <= second <= history.len(),
        history.len() - first <= cap,
    ensures
        deliveries(history, cap, closed, second, (history.len() - second) as nat)
            == deliveries(history, cap, closed, first, (history.len() - first) as nat).subrange(
            second - first,
            history.len() - first,
        ),
{
    late_subscriber_gets_only_later_messages(history, cap, closed, first);
    late_subscriber_gets_only_later_messages(history, cap, closed, second);
    assert(history.subrange(second as int, history.len() as int) =~= history.subrange(
        first as int,
        history.len() as int,
    ).subrange(second - first, history.len() - first));
}

/// A subscriber whose next message has been overwritten is told how many messages it
/// lost, its cursor moves to the oldest message still held, and from there it
/// receives the history in publish order.
pub proof fn lagged_read_resynchronizes(
    history: Seq<Message>,
    cap: nat,
    closed: bool,
    cursor: nat,
    reads: nat,
)
    requires
        cursor < oldest_retained(history.len(), cap),
        history.len() < u64::MAX,
    ensures
        recv_step(history, cap, closed, cursor) == (
        RecvOutcome::Lagged((oldest_retained(history.len(), cap) - cursor) as u64),
        oldest_retained(history.len(), cap),
        ),
        (oldest_retained(history.len(), cap) - cursor) as u64 as nat == oldest_retained(
            history.len(),
            cap,
        ) - cursor,
        deliveries(history, cap, closed, cursor, reads + 1) == history.subrange(
            oldest_retained(history.len(), cap) as int,
            min_nat(oldest_retained(history.len(), cap) + reads, history.len()) as int,
        ),
{
    let oldest = oldest_retained(history.len(), cap);
    reads_follow_history(history, cap, closed, oldest, reads);
    assert(deliveries(history, cap, closed, cursor, reads + 1) == deliveries(
        history,
        cap,
        closed,
        oldest,
        reads,
    ));
}

/// A message published before a subscriber attaches is never delivered to it:
/// reads right after attaching return nothing.
pub proof fn publish_unseen_by_later_subscriber(
    history: Seq<Message>,
    msg: Message,
    cap: nat,
    closed: bool,
    reads: nat,
)
    ensures
        deliveries(history.push(msg), cap, closed, history.len() + 1, reads) == Seq::<
            Message,
        >::empty(),
{
    let h = history.push(msg);
    if oldest_retained(h.len(), cap) <= h.len() {
        reads_follow_history(h, cap, closed, h.len(), reads);
        assert(h.subrange(h.len() as int, h.len() as int) =~= Seq::<Message>::empty());
    }
}

} // verus!
