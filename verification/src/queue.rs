//! The bounded lock-free queues and the wake handles, as far as the channel
//! relies on them. Everything in this file is taken on trust from
//! `crossbeam_queue`, `futures_util` and `core::task`.

use vstd::prelude::*;
use crossbeam_queue::ArrayQueue;
use futures_util::task::AtomicWaker;
use core::task::Waker;

verus! {

#[verifier::external_type_specification]
#[verifier::external_body]
#[verifier::reject_recursive_types(T)]
pub struct ExArrayQueue<T>(crossbeam_queue::ArrayQueue<T>);

#[verifier::external_type_specification]
#[verifier::external_body]
pub struct ExAtomicWaker(futures_util::task::AtomicWaker);

#[verifier::external_type_specification]
#[verifier::external_body]
pub struct ExWaker(core::task::Waker);

/// The largest capacity a queue is created with: small enough that the
/// buffer of slots can always be laid out in memory.
pub const MAX_CAPACITY: usize = 65536;

/// The scancodes held by a queue, oldest first.
pub uninterp spec fn scancode_items(q: ArrayQueue<u8>) -> Seq<u8>;

/// The capacity a scancode queue was created with.
pub uninterp spec fn scancode_limit(q: ArrayQueue<u8>) -> nat;

/// The consumer identifiers of the wake handles held by a registry, oldest
/// first.
pub uninterp spec fn waiting_ids(q: ArrayQueue<(u64, AtomicWaker)>) -> Seq<u64>;

/// The capacity a registry was created with.
pub uninterp spec fn waiting_limit(q: ArrayQueue<(u64, AtomicWaker)>) -> nat;

/// `ArrayQueue::<u8>::new`: an empty queue of the given capacity. The call
/// panics on a capacity of zero, which the precondition excludes.
#[verifier::external_body]
pub(crate) fn scancode_queue_new(capacity: usize) -> (q: ArrayQueue<u8>)
    requires
        0 < capacity <= MAX_CAPACITY,
    ensures
        scancode_items(q) == Seq::<u8>::empty(),
        scancode_limit(q) == capacity,
{
    ArrayQueue::new(capacity)
}

/// `ArrayQueue::push` on a scancode queue held exclusively: below capacity
/// the byte is appended at the back and `true` is returned; at capacity the
/// queue is left as it was and `false` is returned.
#[verifier::external_body]
pub(crate) fn scancode_queue_push(q: &mut ArrayQueue<u8>, byte: u8) -> (pushed: bool)
    ensures
        scancode_limit(*final(q)) == scancode_limit(*old(q)),
        pushed == (scancode_items(*old(q)).len() < scancode_limit(*old(q))),
        pushed ==> scancode_items(*final(q)) == scancode_items(*old(q)).push(byte),
        !pushed ==> scancode_items(*final(q)) == scancode_items(*old(q)),
{
    q.push(byte).is_ok()
}

/// `ArrayQueue::pop` on a scancode queue held exclusively: the oldest byte
/// is removed and returned, or `None` is returned and nothing changes when
/// the queue is empty.
#[verifier::external_body]
pub(crate) fn scancode_queue_pop(q: &mut ArrayQueue<u8>) -> (byte: Option<u8>)
    ensures
        scancode_limit(*final(q)) == scancode_limit(*old(q)),
        scancode_items(*old(q)).len() == 0 ==> byte.is_none()
            && scancode_items(*final(q)) == scancode_items(*old(q)),
        scancode_items(*old(q)).len() > 0 ==> byte == Some(scancode_items(*old(q))[0])
            && scancode_items(*final(q)) == scancode_items(*old(q)).drop_first(),
{
    q.pop().ok()
}

/// `ArrayQueue::<(u64, AtomicWaker)>::new`: an empty registry of the given
/// capacity. The call panics on a capacity of zero, which the precondition
/// excludes.
#[verifier::external_body]
pub(crate) fn registry_new(capacity: usize) -> (q: ArrayQueue<(u64, AtomicWaker)>)
    requires
        0 < capacity <= MAX_CAPACITY,
    ensures
        waiting_ids(q) == Seq::<u64>::empty(),
        waiting_limit(q) == capacity,
{
    ArrayQueue::new(capacity)
}

/// `ArrayQueue::push` on a registry held exclusively: below capacity the
/// handle is appended at the back under the given identifier and `true` is
/// returned; at capacity the handle is dropped, the registry is left as it
/// was and `false` is returned.
#[verifier::external_body]
pub(crate) fn registry_push(q: &mut ArrayQueue<(u64, AtomicWaker)>, id: u64, handle: AtomicWaker) -> (pushed: bool)
    ensures
        waiting_limit(*final(q)) == waiting_limit(*old(q)),
        pushed == (waiting_ids(*old(q)).len() < waiting_limit(*old(q))),
        pushed ==> waiting_ids(*final(q)) == waiting_ids(*old(q)).push(id),
        !pushed ==> waiting_ids(*final(q)) == waiting_ids(*old(q)),
{
    q.push((id, handle)).is_ok()
}

/// `ArrayQueue::pop` on a registry held exclusively: the oldest handle is
/// removed and returned with its identifier, or `None` is returned and
/// nothing changes when the registry is empty.
#[verifier::external_body]
pub(crate) fn registry_pop(q: &mut ArrayQueue<(u64, AtomicWaker)>) -> (entry: Option<(u64, AtomicWaker)>)
    ensures
        waiting_limit(*final(q)) == waiting_limit(*old(q)),
        waiting_ids(*old(q)).len() == 0 ==> entry.is_none()
            && waiting_ids(*final(q)) == waiting_ids(*old(q)),
        waiting_ids(*old(q)).len() > 0 ==> entry.is_some()
            && entry.unwrap().0 == waiting_ids(*old(q))[0]
            && waiting_ids(*final(q)) == waiting_ids(*old(q)).drop_first(),
{
    q.pop().ok()
}

/// `AtomicWaker::new`: a handle with no task bound to it yet. Nothing is
/// claimed of the value.
#[verifier::external_body]
pub(crate) fn handle_new() -> (handle: AtomicWaker) {
    AtomicWaker::new()
}

/// `AtomicWaker::register`: binds the handle to the task behind `waker`,
/// of which it keeps a clone. Nothing is claimed of the handle afterwards.
#[verifier::external_body]
pub(crate) fn handle_register(handle: &mut AtomicWaker, waker: &Waker) {
    handle.register(waker)
}

/// `AtomicWaker::wake`: asks the scheduler to resume the task bound to the
/// handle, and does nothing when none is bound. The handle is consumed.
#[verifier::external_body]
pub(crate) fn handle_wake(handle: AtomicWaker) {
    handle.wake()
}

/// `AtomicWaker::take`: unbinds the task from the handle without waking
/// it. The handle and what it held are dropped.
#[verifier::external_body]
pub(crate) fn handle_discard(handle: AtomicWaker) {
    handle.take();
}

} // verus!
