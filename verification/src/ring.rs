//! The bounded sample channel between the audio input callback and the
//! audio output callback. The backing store is the lock-free
//! single-producer/single-consumer heap ring buffer of the `ringbuf`
//! crate; this module is the trusted boundary around it, and every
//! contract here states what that crate's source shows.
//!
//! Samples are signed 16-bit amplitudes: the fixed-point stand-in for
//! the normalized [-1, 1] range, converted from and to the device's
//! native format at the process boundary.

use vstd::prelude::*;

verus! {

/// Both ends of one fixed-capacity FIFO sample queue. Pushing on a
/// full channel drops the sample (an overrun); popping an empty one
/// yields nothing (an underrun); neither ever blocks.
#[verifier::external_body]
pub struct RingChannel {
    producer: ringbuf::HeapProducer<i16>,
    consumer: ringbuf::HeapConsumer<i16>,
}

/// The samples buffered in the channel, oldest first.
pub uninterp spec fn ring_samples(c: RingChannel) -> Seq<i16>;

/// The fixed capacity the channel was created with.
pub uninterp spec fn ring_capacity(c: RingChannel) -> nat;

/// The channel never holds more samples than its capacity.
pub open spec fn ring_wf(c: RingChannel) -> bool {
    ring_samples(c).len() <= ring_capacity(c)
}

impl RingChannel {
    /// Relies on ringbuf's `HeapRb::new` and `SharedRb::split`: a
    /// fresh ring buffer is empty and holds at most `capacity` items.
    /// `HeapRb::new` panics on a zero capacity, so zero is excluded.
    #[verifier::external_body]
    pub fn with_capacity(capacity: usize) -> (c: RingChannel)
        requires
            capacity >= 1,
        ensures
            ring_samples(c) == Seq::<i16>::empty(),
            ring_capacity(c) == capacity as nat,
    {
        let (producer, consumer) = ringbuf::HeapRb::<i16>::new(capacity).split();
        RingChannel { producer, consumer }
    }

    /// Relies on ringbuf's `Producer::push`: the sample is appended in
    /// FIFO position exactly when the buffer is not yet full, and is
    /// dropped otherwise; the call never blocks.
    #[verifier::external_body]
    pub fn push(&mut self, sample: i16) -> (ok: bool)
        ensures
            ring_capacity(*final(self)) == ring_capacity(*old(self)),
            ring_wf(*final(self)),
            ok == (ring_samples(*old(self)).len() < ring_capacity(*old(self))),
            ok ==> ring_samples(*final(self)) == ring_samples(*old(self)).push(sample),
            !ok ==> ring_samples(*final(self)) == ring_samples(*old(self)),
    {
        self.producer.push(sample).is_ok()
    }

    /// Relies on ringbuf's `Consumer::pop`: the oldest sample is
    /// removed and returned, or nothing when the buffer is empty; the
    /// call never blocks.
    #[verifier::external_body]
    pub fn pop(&mut self) -> (r: Option<i16>)
        ensures
            ring_capacity(*final(self)) == ring_capacity(*old(self)),
            ring_wf(*final(self)),
            (match r {
                Some(s) => ring_samples(*old(self)).len() > 0
                    && s == ring_samples(*old(self))[0]
                    && ring_samples(*final(self)) == ring_samples(*old(self)).drop_first(),
                None => ring_samples(*old(self)).len() == 0
                    && ring_samples(*final(self)) == ring_samples(*old(self)),
            }),
    {
        self.consumer.pop()
    }

    /// Relies on ringbuf's `Consumer::len`: the number of samples
    /// currently buffered.
    #[verifier::external_body]
    pub fn len(&self) -> (n: usize)
        ensures
            n == ring_samples(*self).len(),
    {
        self.consumer.len()
    }

    /// Relies on ringbuf's `Consumer::capacity`: the fixed capacity
    /// the buffer was created with.
    #[verifier::external_body]
    pub fn capacity(&self) -> (n: usize)
        ensures
            n == ring_capacity(*self),
    {
        self.consumer.capacity()
    }
}

} // verus!
