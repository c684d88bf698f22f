use vstd::prelude::*;
use crate::event::UIHandleMsg;

verus! {

/// Largest capacity that a command queue may be made with.
pub const MAX_QUEUE_CAPACITY: usize = 65536;

/// Bounded first-in first-out queue of commands from the audio thread to the
/// interface, held as the two ends of an `rtrb` ring buffer. A push onto a full
/// queue drops the command.
#[verifier::external_body]
pub struct CommandChannel {
    producer: rtrb::Producer<UIHandleMsg>,
    consumer: rtrb::Consumer<UIHandleMsg>,
}

/// The commands in the queue, oldest first.
pub uninterp spec fn queued(q: CommandChannel) -> Seq<UIHandleMsg>;

/// The capacity that the queue was made with.
pub uninterp spec fn queue_capacity(q: CommandChannel) -> nat;

/// The queue after one push of `m`: `m` is appended where there is room, and
/// dropped where the queue is full.
pub open spec fn after_push(q: Seq<UIHandleMsg>, cap: nat, m: UIHandleMsg) -> Seq<UIHandleMsg> {
    if q.len() < cap {
        q.push(m)
    } else {
        q
    }
}

/// The queue after pushing each of `msgs` in turn.
pub open spec fn after_pushes(q: Seq<UIHandleMsg>, cap: nat, msgs: Seq<UIHandleMsg>) -> Seq<UIHandleMsg>
    decreases msgs.len(),
{
    if msgs.len() == 0 {
        q
    } else {
        after_push(after_pushes(q, cap, msgs.drop_last()), cap, msgs.last())
    }
}

/// Relies on rtrb::RingBuffer::new: an empty queue of the given capacity. The
/// bound keeps its allocation and its position arithmetic in range.
#[verifier::external_body]
fn ring_new(capacity: usize) -> (r: CommandChannel)
    requires
        capacity <= MAX_QUEUE_CAPACITY,
    ensures
        queued(r) == Seq::<UIHandleMsg>::empty(),
        queue_capacity(r) == capacity,
{
    let (producer, consumer) = rtrb::RingBuffer::new(capacity);
    CommandChannel { producer, consumer }
}

/// Relies on rtrb::Producer::push: appends where fewer than `capacity` items are
/// queued, else fails and leaves the queue as it was.
#[verifier::external_body]
fn ring_push(q: &mut CommandChannel, m: UIHandleMsg) -> (r: bool)
    ensures
        r == (queued(*old(q)).len() < queue_capacity(*old(q))),
        queued(*final(q)) == after_push(queued(*old(q)), queue_capacity(*old(q)), m),
        queue_capacity(*final(q)) == queue_capacity(*old(q)),
{
    q.producer.push(m).is_ok()
}

/// Relies on rtrb::Consumer::pop: removes and returns the oldest item, or fails
/// on an empty queue.
#[verifier::external_body]
fn ring_pop(q: &mut CommandChannel) -> (r: Option<UIHandleMsg>)
    ensures
        queued(*old(q)).len() == 0 ==> r is None && queued(*final(q)) == queued(*old(q)),
        queued(*old(q)).len() > 0 ==> r == Some(queued(*old(q))[0])
            && queued(*final(q)) == queued(*old(q)).drop_first(),
        queue_capacity(*final(q)) == queue_capacity(*old(q)),
{
    q.consumer.pop().ok()
}

impl CommandChannel {
    /// An empty queue that holds up to `capacity` commands.
    pub fn new(capacity: usize) -> (r: Self)
        requires
            capacity <= MAX_QUEUE_CAPACITY,
        ensures
            queued(r) == Seq::<UIHandleMsg>::empty(),
            queue_capacity(r) == capacity,
    {
        ring_new(capacity)
    }

    /// Sends `m` without blocking. Returns whether it was queued; on a full
    /// queue it is dropped and the queue is left as it was.
    pub fn push(&mut self, m: UIHandleMsg) -> (r: bool)
        ensures
            r == (queued(*old(self)).len() < queue_capacity(*old(self))),
            queued(*final(self)) == after_push(queued(*old(self)), queue_capacity(*old(self)), m),
            queue_capacity(*final(self)) == queue_capacity(*old(self)),
    {
        ring_push(self, m)
    }

    /// Takes every queued command, oldest first, leaving the queue empty.
    pub fn drain_all(&mut self) -> (r: Vec<UIHandleMsg>)
        ensures
            r@ == queued(*old(self)),
            queued(*final(self)) == Seq::<UIHandleMsg>::empty(),
            queue_capacity(*final(self)) == queue_capacity(*old(self)),
    {
        let mut out: Vec<UIHandleMsg> = Vec::new();
        loop
            invariant
                out@ + queued(*self) == queued(*old(self)),
                queue_capacity(*self) == queue_capacity(*old(self)),
            ensures
                out@ == queued(*old(self)),
                queued(*self) == Seq::<UIHandleMsg>::empty(),
                queue_capacity(*self) == queue_capacity(*old(self)),
            decreases queued(*self).len(),
        {
            let ghost before = queued(*self);
            match ring_pop(self) {
                Some(m) => {
                    out.push(m);
                    assert(out@ + queued(*self) =~= queued(*old(self))) by {
                        assert(before =~= seq![m] + before.drop_first());
                    }
                },
                None => {
                    assert(out@ =~= queued(*old(self)));
                    assert(queued(*self) =~= Seq::<UIHandleMsg>::empty());
                    break;
                },
            }
        }
        out
    }
}

/// Pushing commands one after another keeps, in order, as many of them as there
/// was room for and drops only the rest: from a queue `q` that holds at most
/// `cap` commands, the result is `q` followed by the first `cap - |q|` of `msgs`
/// (all of them where they fit).
pub proof fn lemma_push_keeps_prefix(q: Seq<UIHandleMsg>, cap: nat, msgs: Seq<UIHandleMsg>)
    requires
        q.len() <= cap,
    ensures
        msgs.len() <= cap - q.len() ==> after_pushes(q, cap, msgs) == q + msgs,
        msgs.len() > cap - q.len() ==> after_pushes(q, cap, msgs) == q + msgs.take(cap - q.len()),
    decreases msgs.len(),
{
    if msgs.len() > 0 {
        let init = msgs.drop_last();
        lemma_push_keeps_prefix(q, cap, init);
        if init.len() < cap - q.len() {
            assert(after_pushes(q, cap, init) == q + init);
            assert(q + init + seq![msgs.last()] =~= q + msgs);
            assert((q + init).push(msgs.last()) =~= q + msgs);
        } else {
            assert(init.take(cap - q.len()) =~= msgs.take(cap - q.len()));
            if init.len() == cap - q.len() {
                assert(init =~= msgs.take(cap - q.len()));
            }
        }
    }
}

} // verus!
