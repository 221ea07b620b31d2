//! The pollable object each consumer task owns, and the three steps of its
//! poll: take what is queued, register a wake handle, look again.

use vstd::prelude::*;
use core::task::Waker;
use crate::channel::{ChannelState, ScancodeChannel};
use crate::queue::{handle_wake, handle_discard};

verus! {

/// Where a stream stands between two polls.
#[derive(Clone, Copy, Debug, PartialEq, Eq, Structural)]
pub enum StreamState {
    /// No wake handle of this stream is outstanding.
    Idle,
    /// A wake handle of this stream was put into the registry and has not
    /// been reclaimed by the stream since.
    Registered,
}

/// What became of the oldest wake handle when a re-check found a scancode.
#[derive(Clone, Copy, Debug, PartialEq, Eq, Structural)]
pub enum Cleanup {
    /// The re-check found no scancode and left the registry alone.
    NotAttempted,
    /// The registry was empty: the producer had already taken the handle.
    NothingLeft,
    /// The oldest handle was the stream's own and was discarded unwoken.
    Own,
    /// The oldest handle belonged to the named consumer, which was woken so
    /// that its registration is not lost.
    Foreign(u64),
}

/// What one poll did.
#[derive(Clone, Copy, Debug, PartialEq, Eq, Structural)]
pub struct PollReport {
    /// The scancode that is ready, or `None` when the task has to suspend.
    pub item: Option<u8>,
    /// The poll had to register and found the registry full, so that its
    /// wake handle was dropped.
    pub registry_full: bool,
}

/// The outcome of the re-check for consumer `id` on channel state `s`.
pub open spec fn cleanup_of(s: ChannelState, id: u64) -> Cleanup {
    if s.scancodes.len() == 0 {
        Cleanup::NotAttempted
    } else if s.waiting.len() == 0 {
        Cleanup::NothingLeft
    } else if s.waiting[0] == id {
        Cleanup::Own
    } else {
        Cleanup::Foreign(s.waiting[0])
    }
}

/// The report of one whole poll on channel state `s`.
pub open spec fn report_of(s: ChannelState) -> PollReport {
    PollReport {
        item: s.poll_item(),
        registry_full: s.scancodes.len() == 0 && !s.can_register(),
    }
}

/// The state of a stream after one whole poll on channel state `s`.
pub open spec fn state_after_poll(before: StreamState, s: ChannelState) -> StreamState {
    if s.scancodes.len() > 0 {
        StreamState::Idle
    } else if s.can_register() {
        StreamState::Registered
    } else {
        before
    }
}

/// A consumer's end of the channel.
pub struct ScancodeStream {
    id: u64,
    state: StreamState,
}

impl ScancodeStream {
    /// The identifier under which the stream registers its wake handles.
    pub closed spec fn spec_id(&self) -> u64 {
        self.id
    }

    /// Where the stream stands.
    pub closed spec fn spec_state(&self) -> StreamState {
        self.state
    }

    /// A stream on the given channel, with no registration outstanding. The
    /// channel gives the stream the identifier by which it will tell its own
    /// wake handles from those of other consumers.
    pub fn new(channel: &mut ScancodeChannel) -> (stream: ScancodeStream)
        requires
            old(channel).wf(),
        ensures
            final(channel).wf(),
            final(channel)@ == old(channel)@.issue(),
            stream.spec_id() == old(channel)@.next_id,
            stream.spec_state() == StreamState::Idle,
    {
        ScancodeStream { id: channel.issue_id(), state: StreamState::Idle }
    }

    /// The identifier under which the stream registers its wake handles.
    pub fn id(&self) -> (id: u64)
        ensures
            id == self.spec_id(),
    {
        self.id
    }

    /// Where the stream stands.
    pub fn state(&self) -> (state: StreamState)
        ensures
            state == self.spec_state(),
    {
        self.state
    }

    /// The fast path of a poll: takes the oldest queued scancode if there is
    /// one. A scancode taken here satisfies whatever registration was
    /// outstanding.
    pub fn try_take(&mut self, channel: &mut ScancodeChannel) -> (item: Option<u8>)
        requires
            old(channel).wf(),
        ensures
            final(channel).wf(),
            item == old(channel)@.front(),
            final(channel)@ == old(channel)@.take(),
            final(self).spec_id() == old(self).spec_id(),
            final(self).spec_state() == (if item.is_some() {
                StreamState::Idle
            } else {
                old(self).spec_state()
            }),
    {
        let item = channel.take_scancode();
        if item.is_some() {
            self.state = StreamState::Idle;
        }
        item
    }

    /// The second step of a poll: binds a fresh wake handle to the task
    /// behind `waker` and puts it at the back of the registry. Returns
    /// whether the registry had room; when it had none the handle is
    /// dropped and nothing changes.
    pub fn register(&mut self, channel: &mut ScancodeChannel, waker: &Waker) -> (registered: bool)
        requires
            old(channel).wf(),
        ensures
            final(channel).wf(),
            registered == old(channel)@.can_register(),
            final(channel)@ == old(channel)@.register(old(self).spec_id()),
            final(self).spec_id() == old(self).spec_id(),
            final(self).spec_state() == (if registered {
                StreamState::Registered
            } else {
                old(self).spec_state()
            }),
    {
        let registered = channel.register_waiter(self.id, waker);
        if registered {
            self.state = StreamState::Registered;
        }
        registered
    }

    /// The last step of a poll, which closes the gap between the fast path
    /// and the registration: looks into the queue once more. When a scancode
    /// has arrived it is taken, and the oldest wake handle is removed from
    /// the registry: the stream's own handle is discarded, another
    /// consumer's handle is woken. When none has arrived nothing changes and
    /// the task is to suspend.
    pub fn recheck(&mut self, channel: &mut ScancodeChannel) -> (found: (Option<u8>, Cleanup))
        requires
            old(channel).wf(),
        ensures
            final(channel).wf(),
            found.0 == old(channel)@.front(),
            found.1 == cleanup_of(old(channel)@, old(self).spec_id()),
            final(channel)@ == old(channel)@.recheck(),
            final(self).spec_id() == old(self).spec_id(),
            final(self).spec_state() == (if found.1 == Cleanup::Own {
                StreamState::Idle
            } else {
                old(self).spec_state()
            }),
    {
        match channel.take_scancode() {
            None => (None, Cleanup::NotAttempted),
            Some(byte) => {
                let cleanup = match channel.take_waiter() {
                    None => Cleanup::NothingLeft,
                    Some((owner, handle)) => {
                        if owner == self.id {
                            handle_discard(handle);
                            self.state = StreamState::Idle;
                            Cleanup::Own
                        } else {
                            handle_wake(handle);
                            Cleanup::Foreign(owner)
                        }
                    },
                };
                (Some(byte), cleanup)
            },
        }
    }

    /// One poll of the stream on behalf of the task behind `waker`: the fast
    /// path, and when it finds nothing the registration and the re-check.
    /// With the channel held for the whole poll nothing can arrive in
    /// between, so the poll either takes the oldest scancode or registers
    /// and reports that the task has to suspend.
    pub fn poll_next(&mut self, channel: &mut ScancodeChannel, waker: &Waker) -> (report: PollReport)
        requires
            old(channel).wf(),
        ensures
            final(channel).wf(),
            report == report_of(old(channel)@),
            final(channel)@ == old(channel)@.poll(old(self).spec_id()),
            final(self).spec_id() == old(self).spec_id(),
            final(self).spec_state() == state_after_poll(old(self).spec_state(), old(channel)@),
    {
        match self.try_take(channel) {
            Some(byte) => PollReport { item: Some(byte), registry_full: false },
            None => {
                let registered = self.register(channel, waker);
                let found = self.recheck(channel);
                PollReport { item: found.0, registry_full: !registered }
            },
        }
    }

    /// The bounds on the number of scancodes still to come: at least none,
    /// and no upper bound, since the stream never ends by itself.
    pub fn size_hint(&self) -> (bounds: (usize, Option<usize>))
        ensures
            bounds == (0usize, None::<usize>),
    {
        (0, None)
    }
}

} // verus!
