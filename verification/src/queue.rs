//! The bounded queue between a session and its body, and the flag of a session.
//!
//! The queue is `tokio::sync::mpsc`, and the flag is an atomic boolean behind an
//! `Arc`. Verus does not look inside either, and nothing is claimed of what they
//! hold: the items below only make and duplicate them.

use std::sync::atomic::AtomicBool;
use std::sync::Arc;
use tokio::sync::mpsc::{Receiver, Sender};
use vstd::prelude::*;

use crate::message::Message;

verus! {

/// `tokio::sync::mpsc::Sender`, the producer half of the bounded queue.
#[verifier::external_type_specification]
#[verifier::external_body]
#[verifier::reject_recursive_types(T)]
pub struct ExSender<T>(tokio::sync::mpsc::Sender<T>);

/// `tokio::sync::mpsc::Receiver`, the consumer half of the bounded queue.
#[verifier::external_type_specification]
#[verifier::external_body]
#[verifier::reject_recursive_types(T)]
pub struct ExReceiver<T>(tokio::sync::mpsc::Receiver<T>);

/// `tokio::sync::mpsc::channel`: a bounded queue with room for `capacity` messages,
/// as its producer and its consumer half. Nothing is claimed of the two halves.
#[verifier::external_body]
pub(crate) fn bounded_queue(capacity: usize) -> (halves: (Sender<Message>, Receiver<Message>))
    requires
        0 < capacity <= usize::MAX / 8,
{
    tokio::sync::mpsc::channel(capacity)
}

/// `Sender::clone`: one more producer half of the same queue. Nothing is claimed of
/// it.
#[verifier::external_body]
pub(crate) fn another_producer(producer: &Sender<Message>) -> (copy: Sender<Message>) {
    producer.clone()
}

/// `Arc::clone`: one more reference to the same flag. Nothing is claimed of it.
#[verifier::external_body]
pub(crate) fn same_flag(flag: &Arc<AtomicBool>) -> (copy: Arc<AtomicBool>) {
    Arc::clone(flag)
}

} // verus!
