use vstd::prelude::*;

verus! {

/// A control request for the playback engine: load the track at a
/// path, or stop. Immutable once enqueued.
pub enum Command {
    Load(String),
    Stop,
}

#[verifier::external_type_specification]
#[verifier::external_body]
#[verifier::reject_recursive_types(T)]
pub struct ExSegQueue<T>(crossbeam_queue::SegQueue<T>);

/// The commands a queue holds, oldest first.
pub uninterp spec fn queue_seq(q: crossbeam_queue::SegQueue<Command>) -> Seq<Command>;

/// Relies on crossbeam_queue::SegQueue::new: the fresh queue is empty.
#[verifier::external_body]
fn seg_new() -> (q: crossbeam_queue::SegQueue<Command>)
    ensures
        queue_seq(q) == Seq::<Command>::empty(),
{
    crossbeam_queue::SegQueue::new()
}

/// Relies on crossbeam_queue::SegQueue::push: it appends the element
/// at the back of the queue and never blocks or fails.
#[verifier::external_body]
fn seg_push(q: &mut crossbeam_queue::SegQueue<Command>, c: Command)
    ensures
        queue_seq(*final(q)) == queue_seq(*old(q)).push(c),
{
    q.push(c)
}

/// Relies on crossbeam_queue::SegQueue::pop: it removes and returns
/// the element at the front of the queue, or returns nothing at once
/// when the queue is empty.
#[verifier::external_body]
fn seg_pop(q: &mut crossbeam_queue::SegQueue<Command>) -> (r: Option<Command>)
    ensures
        queue_seq(*old(q)).len() == 0 ==> r is None && queue_seq(*final(q)) == queue_seq(*old(q)),
        queue_seq(*old(q)).len() > 0 ==> r == Some(queue_seq(*old(q))[0]) && queue_seq(*final(q))
            == queue_seq(*old(q)).drop_first(),
{
    q.pop()
}

/// A non-blocking first-in-first-out command queue carrying control
/// requests into the playback engine. The queue underneath is safe for
/// several producers at once; the contracts here describe its behaviour
/// as one thread at a time observes it.
pub struct Channel {
    queue: crossbeam_queue::SegQueue<Command>,
}

impl View for Channel {
    type V = Seq<Command>;

    closed spec fn view(&self) -> Seq<Command> {
        queue_seq(self.queue)
    }
}

impl Channel {
    pub fn new() -> (c: Channel)
        ensures
            c@ == Seq::<Command>::empty(),
    {
        Channel { queue: seg_new() }
    }

    /// Enqueues a command behind all earlier ones; always succeeds.
    pub fn push(&mut self, c: Command)
        ensures
            final(self)@ == old(self)@.push(c),
    {
        seg_push(&mut self.queue, c)
    }

    /// Dequeues the oldest command, or returns nothing at once when no
    /// command is queued; the consumer never waits.
    pub fn try_pop(&mut self) -> (r: Option<Command>)
        ensures
            old(self)@.len() == 0 ==> r is None && final(self)@ == old(self)@,
            old(self)@.len() > 0 ==> r == Some(old(self)@[0]) && final(self)@ == old(
                self,
            )@.drop_first(),
    {
        seg_pop(&mut self.queue)
    }
}

} // verus!
