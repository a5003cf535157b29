//! A bounded FIFO of samples, backed by `ringbuf`'s heap ring buffer.
//!
//! Samples travel through the queues as the bit patterns of single-precision
//! values, so silence is the all-zero word.

use vstd::prelude::*;

verus! {

/// The bit pattern of a silent sample.
pub const SILENCE: u32 = 0;

/// Storage of one queue: a `ringbuf::HeapRb<u32>`, opaque to the verifier.
#[verifier::external_body]
pub struct RingStore {
    inner: ringbuf::HeapRb<u32>,
}

/// The samples waiting in a store, eldest first.
pub uninterp spec fn ring_contents(store: RingStore) -> Seq<u32>;

/// The number of samples a store was built to hold.
pub uninterp spec fn ring_capacity(store: RingStore) -> nat;

/// `HeapRb::try_new`: on success an empty buffer of exactly the requested
/// capacity. Whether the allocation succeeds is left to the allocator. A
/// zero capacity makes `ringbuf` panic and is excluded.
#[verifier::external_body]
fn store_try_new(capacity: usize) -> (r: Option<RingStore>)
    requires
        capacity > 0,
    ensures
        r matches Some(store) ==> ring_contents(store) == Seq::<u32>::empty()
            && ring_capacity(store) == capacity,
{
    match ringbuf::HeapRb::<u32>::try_new(capacity) {
        Ok(inner) => Some(RingStore { inner }),
        Err(_) => None,
    }
}

/// `Producer::try_push` on the whole buffer: appends the sample when fewer
/// samples than the capacity are waiting, otherwise hands it back and leaves
/// the buffer as it was.
#[verifier::external_body]
fn store_try_push(store: &mut RingStore, sample: u32) -> (r: Result<(), u32>)
    ensures
        ring_capacity(*final(store)) == ring_capacity(*old(store)),
        r is Ok <==> ring_contents(*old(store)).len() < ring_capacity(*old(store)),
        r is Ok ==> ring_contents(*final(store)) == ring_contents(*old(store)).push(sample),
        r matches Err(back) ==> back == sample && ring_contents(*final(store)) == ring_contents(
            *old(store),
        ),
    no_unwind
{
    ringbuf::traits::Producer::try_push(&mut store.inner, sample)
}

/// `Consumer::try_pop` on the whole buffer: removes and returns the eldest
/// sample, or returns `None` and changes nothing when none is waiting.
#[verifier::external_body]
fn store_try_pop(store: &mut RingStore) -> (r: Option<u32>)
    ensures
        ring_capacity(*final(store)) == ring_capacity(*old(store)),
        r is Some <==> ring_contents(*old(store)).len() > 0,
        r matches Some(sample) ==> sample == ring_contents(*old(store))[0] && ring_contents(
            *final(store),
        ) == ring_contents(*old(store)).drop_first(),
        r is None ==> ring_contents(*final(store)) == ring_contents(*old(store)),
    no_unwind
{
    ringbuf::traits::Consumer::try_pop(&mut store.inner)
}

/// `Observer::occupied_len`: the number of samples waiting.
#[verifier::external_body]
fn store_occupied_len(store: &RingStore) -> (n: usize)
    ensures
        n == ring_contents(*store).len(),
{
    ringbuf::traits::Observer::occupied_len(&store.inner)
}

/// `Observer::capacity`: the capacity the buffer was built with.
#[verifier::external_body]
fn store_capacity(store: &RingStore) -> (n: usize)
    ensures
        n == ring_capacity(*store),
{
    ringbuf::traits::Observer::capacity(&store.inner).get()
}

/// A bounded first-in first-out queue of samples. Producers never wait: a
/// sample offered to a full queue is dropped.
pub struct SampleRing {
    store: RingStore,
}

impl View for SampleRing {
    type V = Seq<u32>;

    closed spec fn view(&self) -> Seq<u32> {
        ring_contents(self.store)
    }
}

impl SampleRing {
    /// The most samples the queue holds at once.
    pub closed spec fn spec_capacity(&self) -> nat {
        ring_capacity(self.store)
    }

    /// Every queue has room for at least one sample and never holds more
    /// than its capacity.
    #[verifier::type_invariant]
    closed spec fn bounded(&self) -> bool {
        0 < ring_capacity(self.store) && ring_contents(self.store).len() <= ring_capacity(
            self.store,
        )
    }

    /// The longest prefix of `samples` that fits beside `waiting` samples.
    pub open spec fn accepted(capacity: nat, waiting: nat, samples: Seq<u32>) -> Seq<u32> {
        if waiting + samples.len() <= capacity {
            samples
        } else if waiting >= capacity {
            Seq::<u32>::empty()
        } else {
            samples.take(capacity - waiting)
        }
    }

    /// The queue `waiting` after one sample is offered to it.
    pub open spec fn after_push(waiting: Seq<u32>, capacity: nat, sample: u32) -> Seq<u32> {
        if waiting.len() < capacity {
            waiting.push(sample)
        } else {
            waiting
        }
    }

    /// The sample a pull takes from the queue `waiting`.
    pub open spec fn front_or_silence(waiting: Seq<u32>) -> u32 {
        if waiting.len() > 0 {
            waiting[0]
        } else {
            SILENCE
        }
    }

    /// The queue `waiting` after one pull.
    pub open spec fn after_pop(waiting: Seq<u32>) -> Seq<u32> {
        if waiting.len() > 0 {
            waiting.drop_first()
        } else {
            waiting
        }
    }

    /// The queue `waiting` after a run of samples is offered to it.
    pub open spec fn after_push_all(waiting: Seq<u32>, capacity: nat, samples: Seq<u32>) -> Seq<
        u32,
    > {
        waiting + Self::accepted(capacity, waiting.len(), samples)
    }

    /// Allocates an empty queue. Fails on a zero capacity, or when the
    /// allocator refuses the request.
    pub fn new(capacity: usize) -> (r: Option<SampleRing>)
        ensures
            capacity == 0 ==> r is None,
            r matches Some(ring) ==> ring@ == Seq::<u32>::empty() && ring.spec_capacity()
                == capacity,
    {
        if capacity == 0 {
            return None;
        }
        Self::from_store(store_try_new(capacity))
    }

    /// Whether a store can back a queue: it has room for at least one
    /// sample and holds no more than it has room for.
    pub open spec fn spec_usable(store: RingStore) -> bool {
        0 < ring_capacity(store) && ring_contents(store).len() <= ring_capacity(store)
    }

    /// Makes a queue of what an allocation yielded. There is a queue exactly
    /// when the allocation yielded a usable store, and the queue then holds
    /// what the store holds and has the store's capacity.
    pub fn from_store(allocated: Option<RingStore>) -> (r: Option<SampleRing>)
        ensures
            match r {
                Some(ring) => allocated matches Some(store) && Self::spec_usable(store) && ring@
                    == ring_contents(store) && ring.spec_capacity() == ring_capacity(store),
                None => !(allocated matches Some(store) && Self::spec_usable(store)),
            },
    {
        match allocated {
            Some(store) => {
                let room = store_capacity(&store);
                let waiting = store_occupied_len(&store);
                if 0 < room && waiting <= room {
                    Some(SampleRing { store })
                } else {
                    None
                }
            },
            None => None,
        }
    }

    pub fn capacity(&self) -> (n: usize)
        ensures
            n == self.spec_capacity(),
            n > 0,
    {
        proof {
            use_type_invariant(self);
        }
        store_capacity(&self.store)
    }

    pub fn len(&self) -> (n: usize)
        ensures
            n == self@.len(),
            n <= self.spec_capacity(),
    {
        proof {
            use_type_invariant(self);
        }
        store_occupied_len(&self.store)
    }

    /// Offers one sample. Returns whether it was queued; a full queue drops
    /// it and stays as it was.
    pub fn push(&mut self, sample: u32) -> (queued: bool)
        ensures
            final(self).spec_capacity() == old(self).spec_capacity(),
            queued == (old(self)@.len() < old(self).spec_capacity()),
            final(self)@ == Self::after_push(old(self)@, old(self).spec_capacity(), sample),
            final(self)@.len() <= final(self).spec_capacity(),
        no_unwind
    {
        proof {
            use_type_invariant(&*self);
        }
        match store_try_push(&mut self.store, sample) {
            Ok(()) => true,
            Err(_) => false,
        }
    }

    /// Takes the eldest sample, or yields silence when none is waiting.
    /// Never waits and never fails.
    pub fn pop_or_silence(&mut self) -> (sample: u32)
        ensures
            final(self).spec_capacity() == old(self).spec_capacity(),
            sample == Self::front_or_silence(old(self)@),
            final(self)@ == Self::after_pop(old(self)@),
            final(self)@.len() <= final(self).spec_capacity(),
        no_unwind
    {
        proof {
            use_type_invariant(&*self);
        }
        match store_try_pop(&mut self.store) {
            Some(sample) => sample,
            None => SILENCE,
        }
    }

    /// Offers every sample in order and returns how many were queued. The
    /// queue takes the longest prefix that fits and drops the rest.
    pub fn push_all(&mut self, samples: &[u32]) -> (queued: usize)
        ensures
            final(self).spec_capacity() == old(self).spec_capacity(),
            final(self)@ == Self::after_push_all(old(self)@, old(self).spec_capacity(), samples@),
            queued == Self::accepted(old(self).spec_capacity(), old(self)@.len(), samples@).len(),
            final(self)@.len() <= final(self).spec_capacity(),
    {
        proof {
            use_type_invariant(&*self);
        }
        let mut queued: usize = 0;
        let mut i: usize = 0;
        while i < samples.len()
            invariant
                self@.len() <= self.spec_capacity(),
                self.spec_capacity() == old(self).spec_capacity(),
                0 <= queued <= i <= samples.len(),
                self@ == old(self)@ + samples@.take(queued as int),
                queued < i ==> self@.len() == self.spec_capacity(),
            decreases samples.len() - i,
        {
            let took = self.push(samples[i]);
            if took {
                proof {
                    assert(samples@.take(queued as int).push(samples@[i as int])
                        =~= samples@.take(queued + 1));
                    assert(self@ =~= old(self)@ + samples@.take(queued + 1));
                }
                queued = queued + 1;
            }
            i = i + 1;
        }
        proof {
            let acc = Self::accepted(old(self).spec_capacity(), old(self)@.len(), samples@);
            assert(samples@.take(samples@.len() as int) =~= samples@);
            assert(samples@.take(0) =~= Seq::<u32>::empty());
            assert(acc =~= samples@.take(queued as int));
        }
        queued
    }
}

/// The queue `waiting` after the samples are offered one at a time.
pub open spec fn after_pushes(waiting: Seq<u32>, capacity: nat, samples: Seq<u32>) -> Seq<u32>
    decreases samples.len(),
{
    if samples.len() == 0 {
        waiting
    } else {
        after_pushes(
            SampleRing::after_push(waiting, capacity, samples[0]),
            capacity,
            samples.drop_first(),
        )
    }
}

/// No sequence of offers and pulls takes a queue beyond its capacity.
pub proof fn lemma_queue_stays_bounded(waiting: Seq<u32>, capacity: nat, sample: u32, samples: Seq<u32>)
    requires
        waiting.len() <= capacity,
    ensures
        SampleRing::after_push(waiting, capacity, sample).len() <= capacity,
        SampleRing::after_pop(waiting).len() <= capacity,
        SampleRing::after_push_all(waiting, capacity, samples).len() <= capacity,
{
}

/// Overflow harms nothing. An offer to a full queue leaves it exactly as it
/// was; the next pull still takes the eldest sample, and the offer after
/// that pull is queued behind the rest.
pub proof fn lemma_overflow_keeps_queue_intact(
    waiting: Seq<u32>,
    capacity: nat,
    dropped: u32,
    next: u32,
)
    requires
        0 < capacity,
        waiting.len() == capacity,
    ensures
        SampleRing::after_push(waiting, capacity, dropped) == waiting,
        SampleRing::front_or_silence(SampleRing::after_push(waiting, capacity, dropped))
            == waiting[0],
        SampleRing::after_push(
            SampleRing::after_pop(SampleRing::after_push(waiting, capacity, dropped)),
            capacity,
            next,
        ) == waiting.drop_first().push(next),
{
}

/// Offering a run of samples at once queues exactly what offering them one
/// by one would queue.
pub proof fn lemma_push_all_is_push_by_push(waiting: Seq<u32>, capacity: nat, samples: Seq<u32>)
    requires
        waiting.len() <= capacity,
    ensures
        SampleRing::after_push_all(waiting, capacity, samples) == after_pushes(
            waiting,
            capacity,
            samples,
        ),
    decreases samples.len(),
{
    if samples.len() == 0 {
        assert(SampleRing::after_push_all(waiting, capacity, samples) =~= waiting);
    } else {
        let first = samples[0];
        let rest = samples.drop_first();
        let stepped = SampleRing::after_push(waiting, capacity, first);
        lemma_push_all_is_push_by_push(stepped, capacity, rest);
        if waiting.len() < capacity {
            let room = (capacity - waiting.len()) as nat;
            if samples.len() <= room {
                assert(waiting.push(first) + rest =~= waiting + samples);
            } else {
                assert(rest.take(room - 1) =~= samples.take(room as int).drop_first());
                assert(waiting.push(first) + rest.take(room - 1) =~= waiting + samples.take(
                    room as int,
                ));
            }
        } else {
            assert(waiting + Seq::<u32>::empty() =~= waiting);
        }
        assert(SampleRing::after_push_all(stepped, capacity, rest) =~= SampleRing::after_push_all(
            waiting,
            capacity,
            samples,
        ));
    }
}

} // verus!
