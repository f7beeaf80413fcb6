//! The bounded single-producer/single-consumer ring buffer, held by the `rb`
//! crate. The write end blocks while the ring is full; the read end never
//! blocks. Each end may move to its own thread.

use rb::{Consumer, Producer, RbConsumer, RbProducer, SpscRb, RB};
use vstd::prelude::*;

verus! {

#[verifier::external_type_specification]
#[verifier::external_body]
#[verifier::reject_recursive_types(T)]
pub struct ExSpscRb<T>(SpscRb<T>);

#[verifier::external_type_specification]
#[verifier::external_body]
#[verifier::reject_recursive_types(T)]
pub struct ExProducer<T>(Producer<T>);

#[verifier::external_type_specification]
#[verifier::external_body]
#[verifier::reject_recursive_types(T)]
pub struct ExConsumer<T>(Consumer<T>);

/// Relies on rb::SpscRb::new, which allocates a vector of `capacity + 1`
/// slots (neither the sum nor the byte size may overflow).
#[verifier::external_body]
fn spsc_new<T: Copy + Default>(capacity: usize) -> (r: SpscRb<T>)
    requires
        capacity < usize::MAX,
        (capacity + 1) * vstd::layout::size_of::<T>() <= isize::MAX,
{
    SpscRb::new(capacity)
}

/// Relies on rb::RB::producer: a write view into the ring.
#[verifier::external_body]
fn spsc_producer<T: Copy + Default>(ring: &SpscRb<T>) -> (r: Producer<T>) {
    ring.producer()
}

/// Relies on rb::RB::consumer: a read view into the ring.
#[verifier::external_body]
fn spsc_consumer<T: Copy + Default>(ring: &SpscRb<T>) -> (r: Consumer<T>) {
    ring.consumer()
}

/// Relies on rb::RbProducer::write_blocking: `None` exactly for an empty
/// slice; otherwise waits while the ring is full and stores a prefix of
/// `data`, whose length it returns (the count may be 0 after a spurious
/// wake-up).
#[verifier::external_body]
fn producer_write_blocking<T: Copy>(p: &Producer<T>, data: &[T]) -> (r: Option<usize>)
    ensures
        r.is_none() == (data@.len() == 0),
        r matches Some(n) ==> n <= data@.len(),
{
    p.write_blocking(data)
}

/// Relies on rb::RbConsumer::read: never waits; copies the oldest pending
/// samples into a prefix of `dest` and returns their number, leaving the rest
/// of `dest` as it was (an empty ring reads 0 and changes nothing).
#[verifier::external_body]
fn consumer_read<T: Copy>(c: &Consumer<T>, dest: &mut [T]) -> (n: usize)
    ensures
        n <= old(dest)@.len(),
        final(dest)@.len() == old(dest)@.len(),
        forall|i: int| n <= i < old(dest)@.len() ==> #[trigger] final(dest)@[i] == old(dest)@[i],
{
    c.read(dest).unwrap_or(0)
}

/// The write end of a ring: handed to the feeder.
#[verifier::reject_recursive_types(T)]
pub struct RingWriter<T> {
    producer: Producer<T>,
    capacity: Ghost<nat>,
    accepted: Ghost<Seq<T>>,
}

/// The read end of a ring: handed to the real-time sink.
#[verifier::reject_recursive_types(T)]
pub struct RingReader<T> {
    consumer: Consumer<T>,
    capacity: Ghost<nat>,
    taken: Ghost<nat>,
}

impl<T> RingWriter<T> {
    /// The capacity the ring was made with.
    pub closed spec fn capacity(&self) -> nat {
        self.capacity@
    }

    /// Every sample the ring has accepted through this end, in order.
    pub closed spec fn accepted(&self) -> Seq<T> {
        self.accepted@
    }
}

impl<T> RingReader<T> {
    /// The capacity the ring was made with.
    pub closed spec fn capacity(&self) -> nat {
        self.capacity@
    }

    /// How many samples have been read through this end.
    pub closed spec fn taken(&self) -> nat {
        self.taken@
    }
}

/// A ring of `capacity` samples can be made: the capacity is positive and
/// its slots fit in one allocation.
pub open spec fn can_hold<T>(capacity: usize) -> bool {
    &&& 0 < capacity < usize::MAX
    &&& (capacity + 1) * vstd::layout::size_of::<T>() <= isize::MAX
}

/// A fresh, empty ring of `capacity` samples, split into its two ends;
/// `None` where no such ring can be made.
pub fn ring<T: Copy + Default>(capacity: usize) -> (r: Option<(RingWriter<T>, RingReader<T>)>)
    ensures
        r.is_some() == can_hold::<T>(capacity),
        r matches Some((w, rd)) ==> {
            &&& w.capacity() == capacity
            &&& rd.capacity() == capacity
            &&& w.accepted() == Seq::<T>::empty()
            &&& rd.taken() == 0
        },
{
    if capacity == 0 || capacity == usize::MAX {
        return None;
    }
    let size = core::mem::size_of::<T>();
    match (capacity + 1).checked_mul(size) {
        Some(bytes) => if bytes > isize::MAX as usize {
            return None;
        },
        None => {
            return None;
        },
    }
    let rb = spsc_new::<T>(capacity);
    let producer = spsc_producer(&rb);
    let consumer = spsc_consumer(&rb);
    let writer = RingWriter {
        producer,
        capacity: Ghost(capacity as nat),
        accepted: Ghost(Seq::empty()),
    };
    let reader = RingReader { consumer, capacity: Ghost(capacity as nat), taken: Ghost(0) };
    Some((writer, reader))
}

impl<T: Copy> RingWriter<T> {
    /// Stores a prefix of `data`, waiting while the ring is full; returns the
    /// length of that prefix, `None` for an empty `data`. The prefix is
    /// added to what the ring has accepted.
    pub fn write_blocking(&mut self, data: &[T]) -> (r: Option<usize>)
        ensures
            r.is_none() == (data@.len() == 0),
            r matches Some(n) ==> n <= data@.len(),
            final(self).capacity() == old(self).capacity(),
            r matches Some(n) ==> final(self).accepted() == old(self).accepted() + data@.subrange(
                0,
                n as int,
            ),
            r.is_none() ==> final(self).accepted() == old(self).accepted(),
    {
        let r = producer_write_blocking(&self.producer, data);
        proof {
            if let Some(n) = r {
                self.accepted = Ghost(self.accepted@ + data@.subrange(0, n as int));
            }
        }
        r
    }
}

impl<T: Copy> RingReader<T> {
    /// Copies up to `dest.len()` pending samples into the front of `dest`,
    /// without waiting, and returns their number.
    pub fn read_nonblocking(&mut self, dest: &mut [T]) -> (n: usize)
        ensures
            n <= old(dest)@.len(),
            final(dest)@.len() == old(dest)@.len(),
            forall|i: int|
                n <= i < old(dest)@.len() ==> #[trigger] final(dest)@[i] == old(dest)@[i],
            final(self).capacity() == old(self).capacity(),
            final(self).taken() == old(self).taken() + n,
    {
        let n = consumer_read(&self.consumer, dest);
        proof {
            self.taken = Ghost(self.taken@ + n as nat);
        }
        n
    }
}

} // verus!
