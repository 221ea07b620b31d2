//! The shared channel: a bounded queue of scancodes and a bounded registry
//! of wake handles, with the pure transitions that describe every
//! operation on them.

use vstd::prelude::*;
use crossbeam_queue::ArrayQueue;
use futures_util::task::AtomicWaker;
use crate::queue::{
    scancode_items, scancode_limit, waiting_ids, waiting_limit, scancode_queue_new,
    scancode_queue_push, scancode_queue_pop, registry_new, registry_push, registry_pop,
    handle_new, handle_register, handle_wake, MAX_CAPACITY,
};
use core::task::Waker;

verus! {

/// The capacity of the channel's two queues unless another is asked for.
pub const DEFAULT_CAPACITY: usize = 100;

/// What a channel holds, as mathematics: the queued scancodes and the
/// identifiers of the waiting consumers, both oldest first, and the capacity
/// that bounds each of the two.
pub struct ChannelState {
    pub scancodes: Seq<u8>,
    pub waiting: Seq<u64>,
    pub capacity: nat,
    /// The identifier the next consumer will be given.
    pub next_id: u64,
}

/// The identifier given out `n` consumers after `id` was: identifiers count
/// upwards and start again at zero after the largest.
pub open spec fn id_after(id: u64, n: nat) -> u64 {
    ((id + n) % 0x1_0000_0000_0000_0000) as u64
}

impl ChannelState {
    /// Neither queue exceeds the capacity, which is not zero.
    pub open spec fn wf(self) -> bool {
        &&& 0 < self.capacity
        &&& self.scancodes.len() <= self.capacity
        &&& self.waiting.len() <= self.capacity
    }

    /// An empty channel of the given capacity.
    pub open spec fn empty(capacity: nat) -> ChannelState {
        ChannelState { scancodes: Seq::empty(), waiting: Seq::empty(), capacity, next_id: 0 }
    }

    /// The channel after one consumer has been given its identifier, which
    /// is `self.next_id`.
    pub open spec fn issue(self) -> ChannelState {
        ChannelState { next_id: id_after(self.next_id, 1), ..self }
    }

    /// The number of scancodes that still fit.
    pub open spec fn room(self) -> nat {
        (self.capacity - self.scancodes.len()) as nat
    }

    /// The number of copies one production event tries to enqueue: one for
    /// each waiting consumer, and a single one when nobody waits.
    pub open spec fn copies_wanted(self) -> nat {
        if self.waiting.len() == 0 {
            1
        } else {
            self.waiting.len()
        }
    }

    /// The number of copies one production event does enqueue.
    pub open spec fn copies_stored(self) -> nat {
        if self.copies_wanted() <= self.room() {
            self.copies_wanted()
        } else {
            self.room()
        }
    }

    /// The number of copies one production event loses to a full queue.
    pub open spec fn copies_dropped(self) -> nat {
        (self.copies_wanted() - self.copies_stored()) as nat
    }

    /// The channel after one production event: the copies that fit are
    /// appended and every waiting consumer has left the registry.
    pub open spec fn produce(self, byte: u8) -> ChannelState {
        ChannelState {
            scancodes: self.scancodes + Seq::new(self.copies_stored(), |i: int| byte),
            waiting: Seq::empty(),
            ..self
        }
    }

    /// The oldest queued scancode, if there is one.
    pub open spec fn front(self) -> Option<u8> {
        if self.scancodes.len() > 0 {
            Some(self.scancodes[0])
        } else {
            None
        }
    }

    /// The channel after an attempt to take the oldest scancode.
    pub open spec fn take(self) -> ChannelState {
        if self.scancodes.len() > 0 {
            ChannelState { scancodes: self.scancodes.drop_first(), ..self }
        } else {
            self
        }
    }

    /// Whether one more wake handle fits into the registry.
    pub open spec fn can_register(self) -> bool {
        self.waiting.len() < self.capacity
    }

    /// The channel after consumer `id` has tried to register a wake handle.
    pub open spec fn register(self, id: u64) -> ChannelState {
        if self.can_register() {
            ChannelState { waiting: self.waiting.push(id), ..self }
        } else {
            self
        }
    }

    /// The channel after the re-check that follows a registration: when a
    /// scancode is there it is taken together with the oldest wake handle,
    /// otherwise nothing changes.
    pub open spec fn recheck(self) -> ChannelState {
        if self.scancodes.len() == 0 {
            self
        } else if self.waiting.len() == 0 {
            self.take()
        } else {
            ChannelState { waiting: self.waiting.drop_first(), ..self.take() }
        }
    }

    /// What one whole poll yields: the oldest queued scancode, or nothing
    /// when the consumer has to suspend.
    pub open spec fn poll_item(self) -> Option<u8> {
        self.front()
    }

    /// The channel after one whole poll by consumer `id`: a queued scancode
    /// is taken, and otherwise the consumer registers and re-checks.
    pub open spec fn poll(self, id: u64) -> ChannelState {
        if self.scancodes.len() > 0 {
            self.take()
        } else {
            self.register(id).recheck()
        }
    }
}

/// What one production event did.
#[derive(Clone, Copy, Debug, PartialEq, Eq)]
pub struct ProducerReport {
    /// The number of waiting consumers that were woken.
    pub woken: usize,
    /// The number of copies that found the queue full and were dropped.
    pub dropped: usize,
}

/// The handle shared by the producer and every consumer.
pub struct ScancodeChannel {
    scancodes: ArrayQueue<u8>,
    registry: ArrayQueue<(u64, AtomicWaker)>,
    next_id: u64,
}

impl View for ScancodeChannel {
    type V = ChannelState;

    closed spec fn view(&self) -> ChannelState {
        ChannelState {
            scancodes: scancode_items(self.scancodes),
            waiting: waiting_ids(self.registry),
            capacity: scancode_limit(self.scancodes),
            next_id: self.next_id,
        }
    }
}

impl ScancodeChannel {
    /// Both queues were created with the same capacity and respect it.
    pub closed spec fn wf(&self) -> bool {
        &&& self@.wf()
        &&& self@.capacity <= MAX_CAPACITY
        &&& waiting_limit(self.registry) == scancode_limit(self.scancodes)
    }

    /// The state of a channel that respects its capacity does so too.
    pub proof fn lemma_state_wf(&self)
        requires
            self.wf(),
        ensures
            self@.wf(),
            self@.capacity <= MAX_CAPACITY,
    {
    }

    /// An empty channel whose two queues hold up to `capacity` entries each.
    pub fn new(capacity: usize) -> (channel: ScancodeChannel)
        requires
            0 < capacity <= MAX_CAPACITY,
        ensures
            channel.wf(),
            channel@ == ChannelState::empty(capacity as nat),
    {
        ScancodeChannel {
            scancodes: scancode_queue_new(capacity),
            registry: registry_new(capacity),
            next_id: 0,
        }
    }

    /// An empty channel of the default capacity.
    pub fn with_default_capacity() -> (channel: ScancodeChannel)
        ensures
            channel.wf(),
            channel@ == ChannelState::empty(DEFAULT_CAPACITY as nat),
    {
        ScancodeChannel::new(DEFAULT_CAPACITY)
    }

    /// The producer entry point, called once for each byte the device
    /// delivers. Every waiting consumer is taken out of the registry, gets a
    /// copy of the byte appended to the queue as long as the queue has room,
    /// and is woken. When nobody waits a single copy is appended, so that a
    /// consumer which polls later still finds the byte. The call neither
    /// blocks nor allocates.
    pub fn add_scancode(&mut self, scancode: u8) -> (report: ProducerReport)
        requires
            old(self).wf(),
        ensures
            final(self).wf(),
            final(self)@ == old(self)@.produce(scancode),
            report.woken == old(self)@.waiting.len(),
            report.dropped == old(self)@.copies_dropped(),
    {
        let ghost before = self@;
        let mut woken: usize = 0;
        let mut dropped: usize = 0;
        loop
            invariant
                self.wf(),
                before.wf(),
                before.capacity <= MAX_CAPACITY,
                self@.capacity == before.capacity,
                self@.next_id == before.next_id,
                woken <= before.waiting.len(),
                dropped <= woken,
                self@.waiting == before.waiting.skip(woken as int),
                woken - dropped == (if woken <= before.room() { woken as nat } else { before.room() }),
                self@.scancodes == before.scancodes + Seq::new((woken - dropped) as nat, |i: int| scancode),
            ensures
                self@.waiting.len() == 0,
            decreases self@.waiting.len(),
        {
            match registry_pop(&mut self.registry) {
                Some((_, handle)) => {
                    let ghost queued = self@.scancodes;
                    let pushed = scancode_queue_push(&mut self.scancodes, scancode);
                    if !pushed {
                        dropped = dropped + 1;
                    }
                    handle_wake(handle);
                    woken = woken + 1;
                    proof {
                        assert(before.waiting.skip(woken - 1).drop_first() == before.waiting.skip(woken as int));
                        if pushed {
                            assert(queued.push(scancode) == before.scancodes + Seq::new((woken - dropped) as nat, |i: int| scancode));
                        }
                    }
                },
                None => {
                    break ;
                },
            }
        }
        if woken == 0 {
            let ghost queued = self@.scancodes;
            assert(queued == before.scancodes);
            let pushed = scancode_queue_push(&mut self.scancodes, scancode);
            if !pushed {
                dropped = 1;
            }
            proof {
                if pushed {
                    assert(queued.push(scancode) == before.scancodes + Seq::new(1, |i: int| scancode));
                } else {
                    assert(queued == before.scancodes + Seq::new(0, |i: int| scancode));
                }
            }
        }
        assert(self@.waiting =~= Seq::<u64>::empty());
        ProducerReport { woken, dropped }
    }

    /// Gives out the identifier for one more consumer. Identifiers count
    /// upwards from zero and start again only after the largest.
    pub fn issue_id(&mut self) -> (id: u64)
        requires
            old(self).wf(),
        ensures
            final(self).wf(),
            id == old(self)@.next_id,
            final(self)@ == old(self)@.issue(),
    {
        let id = self.next_id;
        self.next_id = if id == u64::MAX {
            0
        } else {
            id + 1
        };
        id
    }

    /// Takes the oldest queued scancode, if there is one.
    pub fn take_scancode(&mut self) -> (item: Option<u8>)
        requires
            old(self).wf(),
        ensures
            final(self).wf(),
            item == old(self)@.front(),
            final(self)@ == old(self)@.take(),
    {
        scancode_queue_pop(&mut self.scancodes)
    }

    /// Binds a fresh wake handle to the task behind `waker` and puts it at
    /// the back of the registry under the identifier `id`. Returns whether
    /// the registry had room; when it had none the handle is dropped and
    /// nothing changes.
    pub fn register_waiter(&mut self, id: u64, waker: &Waker) -> (registered: bool)
        requires
            old(self).wf(),
        ensures
            final(self).wf(),
            registered == old(self)@.can_register(),
            final(self)@ == old(self)@.register(id),
    {
        let mut handle = handle_new();
        handle_register(&mut handle, waker);
        registry_push(&mut self.registry, id, handle)
    }

    /// Takes the oldest wake handle out of the registry, if there is one,
    /// together with the identifier it was registered under.
    pub(crate) fn take_waiter(&mut self) -> (entry: Option<(u64, AtomicWaker)>)
        requires
            old(self).wf(),
        ensures
            final(self).wf(),
            final(self)@.scancodes == old(self)@.scancodes,
            final(self)@.capacity == old(self)@.capacity,
            final(self)@.next_id == old(self)@.next_id,
            old(self)@.waiting.len() == 0 ==> entry.is_none() && final(self)@ == old(self)@,
            old(self)@.waiting.len() > 0 ==> entry.is_some()
                && entry.unwrap().0 == old(self)@.waiting[0]
                && final(self)@.waiting == old(self)@.waiting.drop_first(),
    {
        registry_pop(&mut self.registry)
    }
}

} // verus!
