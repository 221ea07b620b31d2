use scancode_channel::channel::{ProducerReport, ScancodeChannel, DEFAULT_CAPACITY};
use scancode_channel::decode::{Decoder, KeyOutput};
use scancode_channel::queue::MAX_CAPACITY;
use scancode_channel::stream::{Cleanup, PollReport, ScancodeStream, StreamState};
use std::sync::{Arc, Mutex};
use std::task::{Wake, Waker};

struct WakeCounter {
    wakes: Mutex<u32>,
}

impl Wake for WakeCounter {
    fn wake(self: Arc<Self>) {
        let mut wakes = self.wakes.lock().unwrap();
        *wakes += 1;
    }
}

fn counter() -> Arc<WakeCounter> {
    Arc::new(WakeCounter { wakes: Mutex::new(0) })
}

fn wakes_of(counter: &Arc<WakeCounter>) -> u32 {
    *counter.wakes.lock().unwrap()
}

fn waker_of(counter: &Arc<WakeCounter>) -> Waker {
    Waker::from(counter.clone())
}

fn ready(byte: u8) -> PollReport {
    PollReport { item: Some(byte), registry_full: false }
}

fn pending() -> PollReport {
    PollReport { item: None, registry_full: false }
}

#[test]
fn make_and_break_code_reach_a_late_consumer_in_order() {
    let mut channel = ScancodeChannel::with_default_capacity();
    assert_eq!(channel.add_scancode(0x1E), ProducerReport { woken: 0, dropped: 0 });
    assert_eq!(channel.add_scancode(0x9E), ProducerReport { woken: 0, dropped: 0 });

    let task = counter();
    let waker = waker_of(&task);
    let mut stream = ScancodeStream::new(&mut channel);
    let mut decoder = Decoder::new();

    let first = stream.poll_next(&mut channel, &waker);
    assert_eq!(first, ready(0x1E));
    assert_eq!(decoder.decode(0x1E), Some(KeyOutput::Character('a')));

    let second = stream.poll_next(&mut channel, &waker);
    assert_eq!(second, ready(0x9E));
    assert_eq!(decoder.decode(0x9E), None);

    assert_eq!(stream.poll_next(&mut channel, &waker), pending());
    assert_eq!(wakes_of(&task), 0);
}

#[test]
fn byte_arriving_before_registration_is_found_by_the_recheck() {
    let mut channel = ScancodeChannel::new(4);
    let task = counter();
    let waker = waker_of(&task);
    let mut stream = ScancodeStream::new(&mut channel);

    assert_eq!(stream.try_take(&mut channel), None);
    assert_eq!(channel.add_scancode(0x23), ProducerReport { woken: 0, dropped: 0 });
    assert!(stream.register(&mut channel, &waker));
    assert_eq!(stream.state(), StreamState::Registered);
    assert_eq!(stream.recheck(&mut channel), (Some(0x23), Cleanup::Own));
    assert_eq!(stream.state(), StreamState::Idle);

    // The stream's own handle is gone: the next byte finds nobody to wake.
    assert_eq!(channel.add_scancode(0x24), ProducerReport { woken: 0, dropped: 0 });
    assert_eq!(wakes_of(&task), 0);
}

#[test]
fn byte_arriving_after_registration_is_found_by_the_recheck() {
    let mut channel = ScancodeChannel::new(4);
    let task = counter();
    let waker = waker_of(&task);
    let mut stream = ScancodeStream::new(&mut channel);

    assert_eq!(stream.try_take(&mut channel), None);
    assert!(stream.register(&mut channel, &waker));
    assert_eq!(channel.add_scancode(0x23), ProducerReport { woken: 1, dropped: 0 });
    assert_eq!(wakes_of(&task), 1);
    assert_eq!(stream.recheck(&mut channel), (Some(0x23), Cleanup::NothingLeft));
    assert_eq!(stream.state(), StreamState::Registered);
    assert_eq!(stream.try_take(&mut channel), None);
}

#[test]
fn recheck_without_a_byte_changes_nothing() {
    let mut channel = ScancodeChannel::new(4);
    let task = counter();
    let waker = waker_of(&task);
    let mut stream = ScancodeStream::new(&mut channel);
    assert!(stream.register(&mut channel, &waker));
    assert_eq!(stream.recheck(&mut channel), (None, Cleanup::NotAttempted));
    assert_eq!(stream.state(), StreamState::Registered);
    assert_eq!(channel.add_scancode(9), ProducerReport { woken: 1, dropped: 0 });
}

#[test]
fn recheck_wakes_another_consumers_handle() {
    let mut channel = ScancodeChannel::new(4);
    let first_task = counter();
    let second_task = counter();
    let mut first = ScancodeStream::new(&mut channel);
    let mut second = ScancodeStream::new(&mut channel);

    assert_eq!(channel.add_scancode(0x10), ProducerReport { woken: 0, dropped: 0 });
    assert!(first.register(&mut channel, &waker_of(&first_task)));
    assert!(second.register(&mut channel, &waker_of(&second_task)));
    assert_eq!(second.recheck(&mut channel), (Some(0x10), Cleanup::Foreign(first.id())));
    assert_eq!(wakes_of(&first_task), 1);
    assert_eq!(wakes_of(&second_task), 0);
    assert_eq!(second.state(), StreamState::Registered);

    // Only the second consumer's handle is left.
    assert_eq!(channel.add_scancode(0x11), ProducerReport { woken: 1, dropped: 0 });
    assert_eq!(wakes_of(&second_task), 1);
}

#[test]
fn every_waiting_consumer_gets_a_copy() {
    let mut channel = ScancodeChannel::new(8);
    let tasks = [counter(), counter(), counter()];
    let mut streams = [ScancodeStream::new(&mut channel), ScancodeStream::new(&mut channel), ScancodeStream::new(&mut channel)];
    for (stream, task) in streams.iter_mut().zip(tasks.iter()) {
        assert_eq!(stream.poll_next(&mut channel, &waker_of(task)), pending());
        assert_eq!(stream.state(), StreamState::Registered);
    }
    assert_eq!(channel.add_scancode(0x2C), ProducerReport { woken: 3, dropped: 0 });
    for (stream, task) in streams.iter_mut().zip(tasks.iter()) {
        assert_eq!(wakes_of(task), 1);
        assert_eq!(stream.poll_next(&mut channel, &waker_of(task)), ready(0x2C));
        assert_eq!(stream.state(), StreamState::Idle);
    }
    assert_eq!(channel.take_scancode(), None);
}

#[test]
fn one_byte_too_many_is_dropped() {
    let mut channel = ScancodeChannel::with_default_capacity();
    let mut dropped: usize = 0;
    let mut sent: usize = 0;
    let mut byte: u8 = 0;
    while sent < DEFAULT_CAPACITY + 1 {
        let report = channel.add_scancode(byte);
        assert_eq!(report.woken, 0);
        dropped += report.dropped;
        sent += 1;
        byte += 1;
    }
    assert_eq!(dropped, 1);

    let mut taken: usize = 0;
    let mut expected: u8 = 0;
    while let Some(item) = channel.take_scancode() {
        assert_eq!(item, expected);
        expected += 1;
        taken += 1;
    }
    assert_eq!(taken, DEFAULT_CAPACITY);
    assert_eq!(DEFAULT_CAPACITY, 100);
}

#[test]
fn bytes_come_out_in_production_order() {
    let mut channel = ScancodeChannel::new(5);
    let task = counter();
    let waker = waker_of(&task);
    let mut stream = ScancodeStream::new(&mut channel);
    for byte in [3u8, 1, 4, 1, 5] {
        assert_eq!(channel.add_scancode(byte), ProducerReport { woken: 0, dropped: 0 });
    }
    for byte in [3u8, 1, 4, 1, 5] {
        assert_eq!(stream.poll_next(&mut channel, &waker), ready(byte));
    }
    assert_eq!(stream.poll_next(&mut channel, &waker), pending());
}

#[test]
fn copies_beyond_the_capacity_are_dropped_but_their_consumers_woken() {
    let mut channel = ScancodeChannel::new(2);
    let tasks = [counter(), counter(), counter()];
    assert_eq!(channel.add_scancode(0x01), ProducerReport { woken: 0, dropped: 0 });
    let mut stream = ScancodeStream::new(&mut channel);
    assert!(stream.register(&mut channel, &waker_of(&tasks[0])));
    assert!(stream.register(&mut channel, &waker_of(&tasks[1])));
    assert!(!stream.register(&mut channel, &waker_of(&tasks[2])));
    assert_eq!(channel.add_scancode(0x02), ProducerReport { woken: 2, dropped: 1 });
    assert_eq!(wakes_of(&tasks[0]), 1);
    assert_eq!(wakes_of(&tasks[1]), 1);
    assert_eq!(wakes_of(&tasks[2]), 0);
    assert_eq!(channel.take_scancode(), Some(0x01));
    assert_eq!(channel.take_scancode(), Some(0x02));
    assert_eq!(channel.take_scancode(), None);
}

#[test]
fn full_channel_without_waiters_drops_the_byte() {
    let mut channel = ScancodeChannel::new(1);
    assert_eq!(channel.add_scancode(0xAA), ProducerReport { woken: 0, dropped: 0 });
    assert_eq!(channel.add_scancode(0xBB), ProducerReport { woken: 0, dropped: 1 });
    assert_eq!(channel.take_scancode(), Some(0xAA));
    assert_eq!(channel.take_scancode(), None);
}

#[test]
fn poll_reports_a_full_registry() {
    let mut channel = ScancodeChannel::new(1);
    let task = counter();
    let waker = waker_of(&task);
    let mut first = ScancodeStream::new(&mut channel);
    let mut second = ScancodeStream::new(&mut channel);
    assert_eq!(first.poll_next(&mut channel, &waker), pending());
    assert_eq!(
        second.poll_next(&mut channel, &waker),
        PollReport { item: None, registry_full: true }
    );
    assert_eq!(second.state(), StreamState::Idle);
    assert_eq!(channel.add_scancode(0x40), ProducerReport { woken: 1, dropped: 0 });
    assert_eq!(wakes_of(&task), 1);
}

#[test]
fn waking_a_finished_task_is_harmless() {
    let mut channel = ScancodeChannel::new(4);
    let task = counter();
    {
        let mut stream = ScancodeStream::new(&mut channel);
        let waker = waker_of(&task);
        assert_eq!(stream.poll_next(&mut channel, &waker), pending());
        assert_eq!(stream.poll_next(&mut channel, &waker), pending());
    }
    // The consumer is gone; its two handles are still registered.
    assert_eq!(channel.add_scancode(0x30), ProducerReport { woken: 2, dropped: 0 });
    assert_eq!(wakes_of(&task), 2);
    assert_eq!(channel.add_scancode(0x31), ProducerReport { woken: 0, dropped: 0 });
    assert_eq!(wakes_of(&task), 2);

    let mut late = ScancodeStream::new(&mut channel);
    let waker = waker_of(&task);
    assert_eq!(late.poll_next(&mut channel, &waker), ready(0x30));
    assert_eq!(late.poll_next(&mut channel, &waker), ready(0x30));
    assert_eq!(late.poll_next(&mut channel, &waker), ready(0x31));
    assert_eq!(late.poll_next(&mut channel, &waker), pending());
}

#[test]
fn new_stream_is_idle_and_never_ends() {
    let mut channel = ScancodeChannel::new(3);
    let stream = ScancodeStream::new(&mut channel);
    assert_eq!(stream.id(), 0);
    assert_eq!(stream.state(), StreamState::Idle);
    assert_eq!(stream.size_hint(), (0, None));
    assert_eq!(ScancodeStream::new(&mut channel).id(), 1);
    assert_eq!(channel.issue_id(), 2);
    assert_eq!(ScancodeStream::new(&mut channel).id(), 3);
}

#[test]
fn largest_capacity_can_be_created() {
    let mut channel = ScancodeChannel::new(MAX_CAPACITY);
    assert_eq!(channel.add_scancode(1), ProducerReport { woken: 0, dropped: 0 });
    assert_eq!(channel.take_scancode(), Some(1));
}

#[test]
fn decoder_follows_the_shift_key() {
    let mut decoder = Decoder::new();
    assert_eq!(decoder.decode(0x1E), Some(KeyOutput::Character('a')));
    assert_eq!(decoder.decode(0x9E), None);
    assert_eq!(decoder.decode(0x2A), None);
    assert_eq!(decoder.decode(0x1E), Some(KeyOutput::Character('A')));
    assert_eq!(decoder.decode(0xAA), None);
    assert_eq!(decoder.decode(0x1E), Some(KeyOutput::Character('a')));
}

#[test]
fn decoder_names_keys_without_a_character() {
    let mut decoder = Decoder::new();
    assert_eq!(decoder.decode(0x3B), Some(KeyOutput::Raw(String::from("F1"))));
    assert_eq!(decoder.decode(0xBB), None);
}

#[test]
fn decoder_yields_nothing_for_incomplete_and_unknown_bytes() {
    let mut decoder = Decoder::new();
    assert_eq!(decoder.decode(0xE0), None);
    assert_eq!(decoder.decode(0x48), Some(KeyOutput::Raw(String::from("ArrowUp"))));
    assert_eq!(decoder.decode(0x54), None);
    assert_eq!(decoder.decode(0x1E), Some(KeyOutput::Character('a')));
}

#[test]
fn fresh_decoder_starts_a_sequence_with_num_lock_on() {
    let mut decoder = Decoder::new();
    // At the start of a sequence the byte is a key of its own, and with num
    // lock on the numpad gives digits.
    assert_eq!(decoder.decode(0x48), Some(KeyOutput::Character('8')));
    assert_eq!(decoder.decode(0xC8), None);
    // Num lock off: the same key is an arrow.
    assert_eq!(decoder.decode(0x45), None);
    assert_eq!(decoder.decode(0xC5), None);
    assert_eq!(decoder.decode(0x48), Some(KeyOutput::Raw(String::from("ArrowUp"))));
}

#[test]
fn unplaced_byte_leaves_the_modifiers_alone() {
    let mut decoder = Decoder::new();
    assert_eq!(decoder.decode(0x2A), None);
    assert_eq!(decoder.decode(0x54), None);
    assert_eq!(decoder.decode(0x1E), Some(KeyOutput::Character('A')));
}
