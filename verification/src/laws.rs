//! What holds of the channel whatever the order in which the producer and
//! the consumers take their steps, proved over the transitions of
//! [`ChannelState`].

use vstd::prelude::*;
use crate::channel::{id_after, ChannelState};

verus! {

/// The channel after the producer has delivered `bytes` one after the other
/// with no consumer step in between.
pub open spec fn produce_all(s: ChannelState, bytes: Seq<u8>) -> ChannelState
    decreases bytes.len(),
{
    if bytes.len() == 0 {
        s
    } else {
        produce_all(s, bytes.drop_last()).produce(bytes.last())
    }
}

/// The number of copies lost while the producer delivered `bytes` one after
/// the other with no consumer step in between.
pub open spec fn dropped_all(s: ChannelState, bytes: Seq<u8>) -> nat
    decreases bytes.len(),
{
    if bytes.len() == 0 {
        0
    } else {
        dropped_all(s, bytes.drop_last()) + produce_all(s, bytes.drop_last()).copies_dropped()
    }
}

/// The channel after the consumers named in `ids` have each polled once, in
/// that order, with no producer step in between.
pub open spec fn after_polls(s: ChannelState, ids: Seq<u64>) -> ChannelState
    decreases ids.len(),
{
    if ids.len() == 0 {
        s
    } else {
        after_polls(s, ids.drop_last()).poll(ids.last())
    }
}

/// The channel after `n` consumers have been given their identifiers.
pub open spec fn after_issues(s: ChannelState, n: nat) -> ChannelState
    decreases n,
{
    if n == 0 {
        s
    } else {
        after_issues(s, (n - 1) as nat).issue()
    }
}

/// The smaller of two numbers.
pub open spec fn at_most(n: nat, bound: nat) -> nat {
    if n <= bound {
        n
    } else {
        bound
    }
}

/// Consumers are told apart by their identifiers. Giving out identifiers
/// touches neither queue, the consumer that comes `n` places after another
/// gets the identifier `n` steps further on, and two consumers fewer than
/// 2^64 places apart never get the same one.
pub proof fn law_identifiers_differ(s: ChannelState, earlier: nat, later: nat)
    requires
        earlier < later,
        later - earlier < 0x1_0000_0000_0000_0000,
    ensures
        after_issues(s, later) == (ChannelState { next_id: id_after(s.next_id, later), ..s }),
        after_issues(s, earlier).next_id != after_issues(s, later).next_id,
{
    lemma_issued(s, earlier);
    lemma_issued(s, later);
    let m = 0x1_0000_0000_0000_0000int;
    let a = s.next_id + earlier;
    let b = s.next_id + later;
    assert(a % m != b % m);
}

proof fn lemma_issued(s: ChannelState, n: nat)
    ensures
        after_issues(s, n) == (ChannelState { next_id: id_after(s.next_id, n), ..s }),
    decreases n,
{
    if n > 0 {
        lemma_issued(s, (n - 1) as nat);
    }
}

/// Every step keeps both queues within the capacity: a production event,
/// each of the three steps of a poll, and so a whole poll.
pub proof fn law_steps_respect_capacity(s: ChannelState, byte: u8, id: u64)
    requires
        s.wf(),
    ensures
        s.produce(byte).wf(),
        s.take().wf(),
        s.register(id).wf(),
        s.recheck().wf(),
        s.poll(id).wf(),
{
}

/// No wakeup is lost. When a consumer's fast path has found the queue empty
/// and the producer then delivers a byte, the re-check yields that byte,
/// whether the byte arrived before the consumer's registration or after it.
pub proof fn law_no_lost_wakeup(s: ChannelState, byte: u8, id: u64)
    requires
        s.wf(),
        s.front().is_none(),
    ensures
        s.produce(byte).register(id).front() == Some(byte),
        s.register(id).produce(byte).front() == Some(byte),
{
    let early = s.produce(byte);
    assert(s.copies_stored() >= 1);
    assert(early.scancodes[0] == byte);
    let late = s.register(id).produce(byte);
    assert(s.register(id).copies_stored() >= 1);
    assert(late.scancodes[0] == byte);
}

/// A byte delivered while nobody waits is kept. With room in the queue it is
/// appended as the newest scancode and nothing is dropped, and once the
/// scancodes queued before it have been polled the next poll yields it,
/// whoever polls.
pub proof fn law_delivery_without_waiters(s: ChannelState, byte: u8, ids: Seq<u64>)
    requires
        s.wf(),
        s.waiting.len() == 0,
        s.scancodes.len() < s.capacity,
        ids.len() == s.scancodes.len(),
    ensures
        s.copies_dropped() == 0,
        s.produce(byte).scancodes == s.scancodes.push(byte),
        after_polls(s.produce(byte), ids).poll_item() == Some(byte),
{
    let t = s.produce(byte);
    assert(t.scancodes =~= s.scancodes.push(byte));
    law_polls_in_queue_order(t, ids);
}

/// One production event serves every waiting consumer. With `k` consumers
/// waiting and room for `k` scancodes, `k` copies of the byte are appended,
/// none is dropped and the registry is left empty; if the queue was empty,
/// each of the next `k` polls yields the byte.
pub proof fn law_fan_out(s: ChannelState, byte: u8, ids: Seq<u64>)
    requires
        s.wf(),
        1 <= s.waiting.len() <= s.room(),
        ids.len() < s.waiting.len(),
    ensures
        s.copies_dropped() == 0,
        s.produce(byte).waiting.len() == 0,
        s.produce(byte).scancodes == s.scancodes + Seq::new(s.waiting.len(), |i: int| byte),
        s.scancodes.len() == 0 ==> after_polls(s.produce(byte), ids).poll_item() == Some(byte),
{
    let t = s.produce(byte);
    law_polls_in_queue_order(t, ids);
}

/// The queue never grows beyond its capacity. Starting from any channel
/// with nobody waiting, delivering `bytes` without a poll in between keeps
/// the oldest scancodes up to the capacity, in the order of their
/// production, and drops each byte that found the queue full.
pub proof fn law_overflow_drops_newest(s: ChannelState, bytes: Seq<u8>)
    requires
        s.wf(),
        s.waiting.len() == 0,
    ensures
        produce_all(s, bytes).wf(),
        produce_all(s, bytes).capacity == s.capacity,
        produce_all(s, bytes).waiting.len() == 0,
        produce_all(s, bytes).scancodes == (s.scancodes + bytes).take(
            at_most(s.scancodes.len() + bytes.len(), s.capacity) as int,
        ),
        dropped_all(s, bytes) == s.scancodes.len() + bytes.len() - at_most(
            s.scancodes.len() + bytes.len(),
            s.capacity,
        ),
    decreases bytes.len(),
{
    if bytes.len() == 0 {
        assert(bytes =~= Seq::<u8>::empty());
        assert((s.scancodes + bytes).take(s.scancodes.len() as int) =~= s.scancodes);
    } else {
        let earlier = bytes.drop_last();
        law_overflow_drops_newest(s, earlier);
        let t = produce_all(s, earlier);
        let kept = at_most(s.scancodes.len() + earlier.len(), s.capacity);
        if kept < s.capacity {
            assert(t.copies_stored() == 1);
            assert((s.scancodes + earlier).take(kept as int) =~= s.scancodes + earlier);
            assert(t.produce(bytes.last()).scancodes =~= (s.scancodes + bytes).take((kept + 1) as int));
        } else {
            assert(t.copies_stored() == 0);
            assert(t.produce(bytes.last()).scancodes =~= (s.scancodes + bytes).take(kept as int));
        }
    }
}

/// Filling an empty channel with one byte more than its capacity drops
/// exactly one byte, the newest, and leaves the queue full.
pub proof fn law_bounded_capacity(capacity: nat, bytes: Seq<u8>)
    requires
        0 < capacity,
        bytes.len() == capacity + 1,
    ensures
        produce_all(ChannelState::empty(capacity), bytes).scancodes == bytes.drop_last(),
        dropped_all(ChannelState::empty(capacity), bytes) == 1,
{
    let s = ChannelState::empty(capacity);
    law_overflow_drops_newest(s, bytes);
    assert((s.scancodes + bytes).take(capacity as int) =~= bytes.drop_last());
}

/// Scancodes leave the queue in the order in which they entered it. As many
/// polls as there are queued scancodes, by whichever consumers, take the
/// scancodes from the front one by one and leave the registry untouched, so
/// the poll that follows `ids` yields the scancode at position `ids.len()`.
pub proof fn law_polls_in_queue_order(s: ChannelState, ids: Seq<u64>)
    requires
        s.wf(),
        ids.len() <= s.scancodes.len(),
    ensures
        after_polls(s, ids).wf(),
        after_polls(s, ids).scancodes == s.scancodes.skip(ids.len() as int),
        after_polls(s, ids).waiting == s.waiting,
        after_polls(s, ids).capacity == s.capacity,
        ids.len() < s.scancodes.len() ==> after_polls(s, ids).poll_item() == Some(
            s.scancodes[ids.len() as int],
        ),
    decreases ids.len(),
{
    if ids.len() == 0 {
        assert(s.scancodes.skip(0) =~= s.scancodes);
    } else {
        law_polls_in_queue_order(s, ids.drop_last());
        let t = after_polls(s, ids.drop_last());
        assert(t.poll(ids.last()).scancodes =~= s.scancodes.skip(ids.len() as int));
    }
}

/// Bytes delivered while nobody waits and the queue has room come out in
/// the order of their production: they are appended to the queue as they
/// are, and none is dropped.
pub proof fn law_production_order(s: ChannelState, bytes: Seq<u8>)
    requires
        s.wf(),
        s.waiting.len() == 0,
        s.scancodes.len() + bytes.len() <= s.capacity,
    ensures
        produce_all(s, bytes).scancodes == s.scancodes + bytes,
        dropped_all(s, bytes) == 0,
{
    law_overflow_drops_newest(s, bytes);
    assert((s.scancodes + bytes).take((s.scancodes.len() + bytes.len()) as int) =~= s.scancodes + bytes);
}

} // verus!
