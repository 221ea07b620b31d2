//! An interrupt-safe byte channel that carries keyboard scancodes from a
//! producer to cooperatively scheduled consumers.
//!
//! The channel is an explicitly constructed handle holding two bounded
//! lock-free queues: the scancodes waiting to be consumed and the wake
//! handles of the consumers waiting for one. Every operation is described by
//! a pure transition on [`channel::ChannelState`], and the laws that relate
//! the operations are proved over those transitions.

pub mod queue;
pub mod channel;
pub mod stream;
pub mod decode;
pub mod laws;
