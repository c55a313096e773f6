//! Bounded, non-blocking hand-off of samples from the audio-rate producer
//! to the analysis consumer.
//!
//! The producer half never blocks and never allocates: a sample that finds
//! the queue full is silently dropped, which is acceptable because the
//! spectrum is a visual approximation, not a lossless signal path. The
//! consumer half drains opportunistically, once per draw request. What a
//! queue shared with another thread holds can change at any moment, so the
//! contracts below promise only what holds of every outcome; the consumers
//! of the drained samples are verified for every value that comes out.

use crossbeam_channel::{Receiver, Sender};
use vstd::prelude::*;

verus! {

/// The largest capacity a sample queue may be created with.
pub const MAX_TRANSPORT_CAPACITY: usize = 0x0001_0000;

#[verifier::external_type_specification]
#[verifier::external_body]
#[verifier::reject_recursive_types(T)]
pub struct ExSender<T>(Sender<T>);

#[verifier::external_type_specification]
#[verifier::external_body]
#[verifier::reject_recursive_types(T)]
pub struct ExReceiver<T>(Receiver<T>);

/// Relies on crossbeam_channel's Clone for Sender: another handle on the
/// same queue. What the queue holds depends on every handle's thread, so
/// nothing is promised of it.
pub assume_specification<T>[ <Sender<T> as Clone>::clone ](sender: &Sender<T>) -> Sender<T>;

/// Relies on crossbeam_channel::bounded: creates a queue that holds at most
/// `capacity` messages at a time. Its documentation reserves a panic only
/// for capacities too large to initialize, which the bound here rules out.
#[verifier::external_body]
fn bounded_channel(capacity: usize) -> (ends: (Sender<u32>, Receiver<u32>))
    requires
        1 <= capacity <= MAX_TRANSPORT_CAPACITY,
{
    crossbeam_channel::bounded(capacity)
}

/// Relies on crossbeam_channel::Sender::try_send: queues the message and
/// returns Ok without blocking, or returns it back in an error when the
/// queue is full or the receiver is gone. Whether there is room depends on
/// the other thread, so nothing more is promised of the outcome.
#[verifier::external_body]
fn try_send(sender: &Sender<u32>, sample: u32) -> (accepted: bool) {
    sender.try_send(sample).is_ok()
}

/// Relies on crossbeam_channel::Receiver::try_recv: removes and returns the
/// oldest queued message without blocking, or reports an empty or
/// disconnected queue. What is queued depends on the other thread, so
/// nothing more is promised of the outcome.
#[verifier::external_body]
fn try_recv(receiver: &Receiver<u32>) -> (sample: Option<u32>) {
    match receiver.try_recv() {
        Ok(s) => Some(s),
        Err(_) => None,
    }
}

/// The producer's end of the sample queue. It is handed to the audio-rate
/// callback and used through `push` alone; cloning it yields another handle
/// on the same queue.
#[derive(Clone)]
pub struct SampleSource {
    sender: Sender<u32>,
}

impl SampleSource {
    /// Offer one sample to the queue without blocking. The sample is
    /// dropped, and `false` returned, when the queue is full or the
    /// consumer is gone.
    pub fn push(&self, sample: u32) -> (accepted: bool) {
        try_send(&self.sender, sample)
    }
}

/// The consumer's end of the sample queue, together with the capacity it
/// was created with.
pub struct SampleTransport {
    receiver: Receiver<u32>,
    capacity: usize,
}

impl SampleTransport {
    /// The capacity the queue was created with.
    pub closed spec fn capacity_spec(&self) -> usize {
        self.capacity
    }

    /// Create the two ends of a bounded sample queue.
    pub fn new(capacity: usize) -> (ends: (SampleSource, SampleTransport))
        requires
            1 <= capacity <= MAX_TRANSPORT_CAPACITY,
        ensures
            ends.1.capacity_spec() == capacity,
    {
        let (sender, receiver) = bounded_channel(capacity);
        (SampleSource { sender }, SampleTransport { receiver, capacity })
    }

    /// The capacity the queue was created with.
    pub fn capacity(&self) -> (c: usize)
        ensures
            c == self.capacity_spec(),
    {
        self.capacity
    }

    /// Remove and return, in queue order, every sample currently queued,
    /// without blocking. At most one queue's worth of samples is taken per
    /// call, which covers everything that was queued when the call began;
    /// samples arriving while the drain runs wait for the next draw request.
    pub fn drain_all(&self) -> (samples: Vec<u32>)
        ensures
            samples.len() <= self.capacity_spec(),
    {
        let mut samples: Vec<u32> = Vec::new();
        let mut fuel: usize = self.capacity;
        while fuel > 0
            invariant_except_break
                samples.len() + fuel <= self.capacity,
            ensures
                samples.len() <= self.capacity,
            decreases fuel,
        {
            match try_recv(&self.receiver) {
                Some(sample) => samples.push(sample),
                None => {
                    break;
                },
            }
            fuel = fuel - 1;
        }
        samples
    }
}

} // verus!
