//! The bounded single-producer/single-consumer sample queue between the
//! decoder and the output callback.
//!
//! Samples are 32-bit floats; the queue carries each as its bit pattern
//! (`f32::to_bits`), which the output side turns back with `f32::from_bits`.
//! Nothing here computes with a sample.
use vstd::prelude::*;
use ringbuf::traits::{Consumer, Observer, Producer, Split};

verus! {

/// Write end of a sample queue.
#[verifier::external_body]
pub struct SampleProducer {
    inner: ringbuf::HeapProd<u32>,
}

/// Read end of a sample queue.
#[verifier::external_body]
pub struct SampleConsumer {
    inner: ringbuf::HeapCons<u32>,
}

/// How many samples the queue behind this write end can hold.
pub uninterp spec fn producer_capacity(p: SampleProducer) -> nat;

/// How many samples the queue behind this read end can hold.
pub uninterp spec fn consumer_capacity(c: SampleConsumer) -> nat;

/// Every sample this write end has put into the queue, in order.
pub uninterp spec fn sent(p: SampleProducer) -> Seq<u32>;

/// Every sample this read end has taken out of the queue (read or
/// discarded), in order. Only the read end's own calls change it.
pub uninterp spec fn received(c: SampleConsumer) -> Seq<u32>;

/// How many times this read end has emptied the queue.
pub uninterp spec fn flushes(c: SampleConsumer) -> nat;

/// Relies on `ringbuf::HeapRb::new` (storage of exactly `capacity` slots,
/// read and write index at zero; panics on zero) and `Split::split`.
#[verifier::external_body]
pub(crate) fn new_sample_queue(capacity: usize) -> (r: (SampleProducer, SampleConsumer))
    requires
        capacity > 0,
    ensures
        producer_capacity(r.0) == capacity,
        consumer_capacity(r.1) == capacity,
        sent(r.0) == Seq::<u32>::empty(),
        received(r.1) == Seq::<u32>::empty(),
        flushes(r.1) == 0,
{
    let (p, c) = ringbuf::HeapRb::<u32>::new(capacity).split();
    (SampleProducer { inner: p }, SampleConsumer { inner: c })
}

impl SampleProducer {
    /// Relies on `Producer::push_slice`: appends a prefix of `samples[from..]`
    /// to the queue, as much as fits, and returns its length.
    #[verifier::external_body]
    pub(crate) fn push_from(&mut self, samples: &Vec<u32>, from: usize) -> (n: usize)
        requires
            from <= samples.len(),
        ensures
            from + n <= samples.len(),
            sent(*final(self)) == sent(*old(self)) + samples@.subrange(from as int, from + n),
            producer_capacity(*final(self)) == producer_capacity(*old(self)),
    {
        self.inner.push_slice(&samples[from..])
    }
}

impl SampleConsumer {
    /// Relies on `Consumer::pop_slice`: moves the oldest queued samples into
    /// the front of `buf`, as many as are queued and fit, and returns how many.
    #[verifier::external_body]
    pub(crate) fn pop_into(&mut self, buf: &mut Vec<u32>) -> (n: usize)
        ensures
            n <= old(buf).len(),
            final(buf).len() == old(buf).len(),
            received(*final(self)) == received(*old(self)) + final(buf)@.take(n as int),
            consumer_capacity(*final(self)) == consumer_capacity(*old(self)),
            flushes(*final(self)) == flushes(*old(self)),
    {
        self.inner.pop_slice(buf.as_mut_slice())
    }

    /// Relies on `Consumer::clear`: drops every queued sample and returns how many.
    #[verifier::external_body]
    pub(crate) fn discard_queued(&mut self) -> (n: usize)
        ensures
            received(*final(self)).len() == received(*old(self)).len() + n,
            received(*final(self)).take(received(*old(self)).len() as int) == received(*old(self)),
            consumer_capacity(*final(self)) == consumer_capacity(*old(self)),
            flushes(*final(self)) == flushes(*old(self)) + 1,
    {
        self.inner.clear()
    }
}

} // verus!
