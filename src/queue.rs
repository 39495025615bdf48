use vstd::prelude::*;
use vstd::slice::slice_subrange;
use ringbuf::{HeapConsumer, HeapProducer, HeapRb, Rb};

verus! {

/// A bounded FIFO of PCM samples held in a `ringbuf` heap ring buffer.
#[verifier::external_body]
pub struct SampleQueue {
    rb: HeapRb<i16>,
}

/// The samples held by a queue, oldest first.
pub uninterp spec fn queued(q: SampleQueue) -> Seq<i16>;

/// The fixed number of samples a queue can hold.
pub uninterp spec fn queue_capacity(q: SampleQueue) -> nat;

/// Free room of a queue holding `held` out of `cap`.
pub open spec fn room(held: Seq<i16>, cap: nat) -> nat {
    if held.len() >= cap {
        0
    } else {
        (cap - held.len()) as nat
    }
}

/// How many samples of `input` a push keeps: as many as fit, from the front.
pub open spec fn accepted(held: Seq<i16>, cap: nat, input: Seq<i16>) -> nat {
    if input.len() <= room(held, cap) {
        input.len()
    } else {
        room(held, cap)
    }
}

/// The contents after pushing `input`: the leading samples that fit are appended.
pub open spec fn after_push(held: Seq<i16>, cap: nat, input: Seq<i16>) -> Seq<i16> {
    held + input.take(accepted(held, cap, input) as int)
}

/// How many samples a drain of at most `max` hands out.
pub open spec fn drained_count(held: Seq<i16>, max: nat) -> nat {
    if held.len() <= max {
        held.len()
    } else {
        max
    }
}

/// Relies on ringbuf's `HeapRb::new`: an empty ring buffer of the given capacity,
/// which panics on a zero capacity.
#[verifier::external_body]
fn rb_new(capacity: usize) -> (r: SampleQueue)
    requires
        capacity > 0,
    ensures
        queued(r) == Seq::<i16>::empty(),
        queue_capacity(r) == capacity,
{
    SampleQueue { rb: HeapRb::new(capacity) }
}

/// Relies on ringbuf's `Rb::len`: the number of items stored, never above the capacity.
#[verifier::external_body]
fn rb_len(q: &SampleQueue) -> (r: usize)
    ensures
        r == queued(*q).len(),
        r <= queue_capacity(*q),
{
    q.rb.len()
}

/// Relies on ringbuf's `Rb::free_len`: the capacity less the number of items stored.
#[verifier::external_body]
fn rb_free_len(q: &SampleQueue) -> (r: usize)
    ensures
        r + queued(*q).len() == queue_capacity(*q),
{
    q.rb.free_len()
}

/// Relies on ringbuf's `Rb::push_slice`: appends the whole slice, and panics
/// when it is longer than the free room.
#[verifier::external_body]
fn rb_push_slice(q: &mut SampleQueue, elems: &[i16])
    requires
        queued(*old(q)).len() + elems@.len() <= queue_capacity(*old(q)),
    ensures
        queued(*final(q)) == queued(*old(q)) + elems@,
        queue_capacity(*final(q)) == queue_capacity(*old(q)),
{
    q.rb.push_slice(elems)
}

/// Relies on ringbuf's `Rb::pop`: removes and returns the oldest item, `None` when empty.
#[verifier::external_body]
fn rb_pop(q: &mut SampleQueue) -> (r: Option<i16>)
    ensures
        queue_capacity(*final(q)) == queue_capacity(*old(q)),
        queued(*old(q)).len() == 0 ==> r is None && queued(*final(q)) == queued(*old(q)),
        queued(*old(q)).len() > 0 ==> r == Some(queued(*old(q))[0]) && queued(*final(q))
            == queued(*old(q)).drop_first(),
{
    q.rb.pop()
}

/// Relies on ringbuf's `Rb::skip`: removes exactly `count` oldest items, and panics
/// when fewer are stored.
#[verifier::external_body]
fn rb_skip(q: &mut SampleQueue, count: usize)
    requires
        count <= queued(*old(q)).len(),
    ensures
        queued(*final(q)) == queued(*old(q)).skip(count as int),
        queue_capacity(*final(q)) == queue_capacity(*old(q)),
{
    q.rb.skip(count);
}

/// Relies on ringbuf's `SharedRb::split`: a producer and a consumer handle over the
/// same buffer, whose capacity both report.
#[verifier::external_body]
fn rb_split(q: SampleQueue) -> (r: (SampleProducer, SampleConsumer))
    ensures
        producer_capacity(r.0) == queue_capacity(q),
        consumer_capacity(r.1) == queue_capacity(q),
{
    let (p, c) = q.rb.split();
    (SampleProducer { inner: p }, SampleConsumer { inner: c })
}

impl SampleQueue {
    /// An empty queue of `capacity` samples.
    pub fn new(capacity: usize) -> (r: Self)
        requires
            capacity > 0,
        ensures
            queued(r) == Seq::<i16>::empty(),
            queue_capacity(r) == capacity,
    {
        rb_new(capacity)
    }

    /// The number of samples ready to be drained.
    pub fn available(&self) -> (r: usize)
        ensures
            r == queued(*self).len(),
    {
        rb_len(self)
    }

    /// The number of samples a push can still take.
    pub fn free_space(&self) -> (r: usize)
        ensures
            r == room(queued(*self), queue_capacity(*self)),
    {
        rb_free_len(self)
    }

    /// Appends the leading samples of `samples` that fit and drops the rest;
    /// returns how many were kept. Never blocks and never fails.
    pub fn push(&mut self, samples: &[i16]) -> (r: usize)
        ensures
            r == accepted(queued(*old(self)), queue_capacity(*old(self)), samples@),
            queued(*final(self)) == after_push(
                queued(*old(self)),
                queue_capacity(*old(self)),
                samples@,
            ),
            queue_capacity(*final(self)) == queue_capacity(*old(self)),
    {
        let free = rb_free_len(self);
        let n = if samples.len() <= free {
            samples.len()
        } else {
            free
        };
        let head = slice_subrange(samples, 0, n);
        rb_push_slice(self, head);
        n
    }

    /// Removes and returns up to `max` of the oldest samples, in order.
    pub fn drain(&mut self, max: usize) -> (r: Vec<i16>)
        ensures
            r@ == queued(*old(self)).take(drained_count(queued(*old(self)), max as nat) as int),
            queued(*final(self)) == queued(*old(self)).skip(r@.len() as int),
            queue_capacity(*final(self)) == queue_capacity(*old(self)),
    {
        let ghost start = queued(*self);
        let mut out: Vec<i16> = Vec::new();
        let mut done = false;
        while out.len() < max && !done
            invariant
                out@.len() <= max,
                out@ == start.take(out@.len() as int),
                queued(*self) == start.skip(out@.len() as int),
                queue_capacity(*self) == queue_capacity(*old(self)),
                start == queued(*old(self)),
                done ==> out@.len() == start.len(),
                out@.len() <= start.len(),
            decreases max - out@.len() + if done { 0int } else { 1int },
        {
            match rb_pop(self) {
                Some(x) => {
                    assert(start.take(out@.len() + 1int) =~= start.take(out@.len() as int).push(x));
                    assert(start.skip(out@.len() as int).drop_first() =~= start.skip(out@.len() + 1int));
                    out.push(x);
                },
                None => {
                    done = true;
                },
            }
        }
        out
    }

    /// Removes up to `count` of the oldest samples; returns how many went.
    pub fn discard(&mut self, count: usize) -> (r: usize)
        ensures
            r == drained_count(queued(*old(self)), count as nat),
            queued(*final(self)) == queued(*old(self)).skip(r as int),
            queue_capacity(*final(self)) == queue_capacity(*old(self)),
    {
        let len = rb_len(self);
        let n = if count <= len {
            count
        } else {
            len
        };
        rb_skip(self, n);
        n
    }

    /// Hands the queue out as a producer handle for the capture side and a
    /// consumer handle for the streaming side.
    pub fn split(self) -> (r: (SampleProducer, SampleConsumer))
        ensures
            producer_capacity(r.0) == queue_capacity(self),
            consumer_capacity(r.1) == queue_capacity(self),
    {
        rb_split(self)
    }
}

/// The write end of a split queue, for the capture callback.
#[verifier::external_body]
pub struct SampleProducer {
    inner: HeapProducer<i16>,
}

/// The read end of a split queue, for the streaming task.
#[verifier::external_body]
pub struct SampleConsumer {
    inner: HeapConsumer<i16>,
}

/// The fixed capacity of the buffer behind a producer handle.
pub uninterp spec fn producer_capacity(p: SampleProducer) -> nat;

/// The fixed capacity of the buffer behind a consumer handle.
pub uninterp spec fn consumer_capacity(c: SampleConsumer) -> nat;

/// Relies on ringbuf's `Producer::push_slice`: appends as many leading items as fit
/// and returns that count, never more than the slice holds nor than the free room,
/// itself within the capacity, which stays fixed.
#[verifier::external_body]
fn producer_push_slice(p: &mut SampleProducer, elems: &[i16]) -> (r: usize)
    ensures
        r <= elems@.len(),
        r <= producer_capacity(*old(p)),
        producer_capacity(*final(p)) == producer_capacity(*old(p)),
{
    p.inner.push_slice(elems)
}

/// Relies on ringbuf's `Consumer::capacity`: the buffer's constant capacity.
#[verifier::external_body]
fn consumer_capacity_of(c: &SampleConsumer) -> (r: usize)
    ensures
        r == consumer_capacity(*c),
{
    c.inner.capacity()
}

/// Relies on ringbuf's `Consumer::len`: the number of items the consumer can read
/// now, never above the capacity.
#[verifier::external_body]
fn consumer_len(c: &SampleConsumer) -> (r: usize)
    ensures
        r <= consumer_capacity(*c),
{
    c.inner.len()
}

/// Relies on ringbuf's `Consumer::pop`: the oldest item, `None` when empty; the
/// capacity stays fixed.
#[verifier::external_body]
fn consumer_pop(c: &mut SampleConsumer) -> (r: Option<i16>)
    ensures
        consumer_capacity(*final(c)) == consumer_capacity(*old(c)),
{
    c.inner.pop()
}

impl SampleProducer {
    /// Appends the leading samples that fit, drops the rest, and returns how many
    /// were kept. Never blocks, never allocates.
    pub fn push(&mut self, samples: &[i16]) -> (r: usize)
        ensures
            r <= samples@.len(),
            r <= producer_capacity(*old(self)),
            producer_capacity(*final(self)) == producer_capacity(*old(self)),
    {
        producer_push_slice(self, samples)
    }
}

impl SampleConsumer {
    /// The number of samples ready now, within the capacity.
    pub fn available(&self) -> (r: usize)
        ensures
            r <= consumer_capacity(*self),
    {
        consumer_len(self)
    }

    /// Removes up to `max` samples that are ready, oldest first, and never more
    /// than the capacity in one call.
    pub fn drain(&mut self, max: usize) -> (r: Vec<i16>)
        ensures
            r@.len() <= max,
            r@.len() <= consumer_capacity(*old(self)),
            consumer_capacity(*final(self)) == consumer_capacity(*old(self)),
    {
        let cap = consumer_capacity_of(self);
        let limit = if max <= cap {
            max
        } else {
            cap
        };
        let mut out: Vec<i16> = Vec::new();
        let mut done = false;
        while out.len() < limit && !done
            invariant
                out@.len() <= limit,
                limit <= max,
                limit <= cap,
                cap == consumer_capacity(*old(self)),
                consumer_capacity(*self) == consumer_capacity(*old(self)),
            decreases limit - out@.len() + if done { 0int } else { 1int },
        {
            match consumer_pop(self) {
                Some(x) => out.push(x),
                None => {
                    done = true;
                },
            }
        }
        out
    }
}

/// A push that fits is taken whole, and a later drain of at least everything held
/// returns what was held followed by the pushed samples, in order.
pub proof fn lemma_push_within_room_kept_in_order(
    held: Seq<i16>,
    cap: nat,
    input: Seq<i16>,
    max: nat,
)
    requires
        held.len() + input.len() <= cap,
        max >= held.len() + input.len(),
    ensures
        accepted(held, cap, input) == input.len(),
        after_push(held, cap, input) == held + input,
        after_push(held, cap, input).take(
            drained_count(after_push(held, cap, input), max) as int,
        ) == held + input,
        after_push(held, cap, input).skip(
            drained_count(after_push(held, cap, input), max) as int,
        ).len() == 0,
{
    assert(input.take(input.len() as int) =~= input);
    assert((held + input).take((held + input).len() as int) =~= held + input);
}

/// A push that does not fit keeps exactly as many leading samples as there was room
/// for, and the queue is then full.
pub proof fn lemma_push_over_room_truncates(held: Seq<i16>, cap: nat, input: Seq<i16>)
    requires
        held.len() <= cap,
        held.len() + input.len() > cap,
    ensures
        accepted(held, cap, input) == cap - held.len(),
        after_push(held, cap, input) == held + input.take(cap - held.len()),
        after_push(held, cap, input).len() == cap,
{
}

} // verus!
