//! The queue of send times that a pipelined connection matches replies with.

use crossbeam_deque::{Injector, Steal};
use vstd::prelude::*;

verus! {

/// A first-in first-out queue.
///
/// Trusted: `crossbeam_deque::Injector`, whose content is named [`queued`].
#[verifier::external_type_specification]
#[verifier::external_body]
#[verifier::reject_recursive_types(T)]
pub struct ExInjector<T>(crossbeam_deque::Injector<T>);

/// The times in a queue, the one that entered first in front.
pub uninterp spec fn queued(queue: Injector<u64>) -> Seq<u64>;

/// What an attempt to take a time from the queue gave.
#[derive(Clone, Copy, Debug, PartialEq, Eq, Structural)]
pub enum Taken {
    /// The queue was empty.
    Empty,
    /// The time that had entered first.
    Time(u64),
    /// The attempt was disturbed and took nothing.
    Disturbed,
}

/// Trusted: `Injector::new` makes an empty queue.
#[verifier::external_body]
fn new_queue() -> (r: Injector<u64>)
    ensures
        queued(r) == Seq::<u64>::empty(),
{
    Injector::new()
}

/// Trusted: `Injector::push` puts a time at the end of the queue.
#[verifier::external_body]
fn push_back(queue: &mut Injector<u64>, time: u64)
    ensures
        queued(*final(queue)) == queued(*old(queue)).push(time),
{
    queue.push(time);
}

/// Trusted: `Injector::steal` takes the time at the front of the queue. It
/// reports an empty queue as `Empty`, and may give up with `Retry` and leave
/// the queue as it is.
#[verifier::external_body]
fn take_front(queue: &mut Injector<u64>) -> (r: Taken)
    ensures
        match r {
            Taken::Empty => queued(*old(queue)).len() == 0 && queued(*final(queue)) == queued(
                *old(queue),
            ),
            Taken::Time(time) => queued(*old(queue)).len() > 0 && time == queued(
                *old(queue),
            ).first() && queued(*final(queue)) == queued(*old(queue)).drop_first(),
            Taken::Disturbed => queued(*old(queue)).len() > 0 && queued(*final(queue)) == queued(
                *old(queue),
            ),
        },
{
    match queue.steal() {
        Steal::Empty => Taken::Empty,
        Steal::Success(time) => Taken::Time(time),
        Steal::Retry => Taken::Disturbed,
    }
}

/// The send times of the messages that wait for a reply.
pub struct SentTimes {
    queue: Injector<u64>,
    attempts: Ghost<nat>,
}

impl View for SentTimes {
    type V = Seq<u64>;

    closed spec fn view(&self) -> Seq<u64> {
        queued(self.queue)
    }
}

/// The queue after an attempt to take a time from it.
pub open spec fn after_take(queue: Seq<u64>, taken: Taken) -> Seq<u64> {
    if taken is Time {
        queue.drop_first()
    } else {
        queue
    }
}

/// What an attempt to take a time from a queue can give.
pub open spec fn may_give(queue: Seq<u64>, taken: Taken) -> bool {
    match taken {
        Taken::Empty => queue.len() == 0,
        Taken::Time(time) => queue.len() > 0 && time == queue.first(),
        Taken::Disturbed => queue.len() > 0,
    }
}

impl SentTimes {
    /// How often it was tried to take a time.
    pub closed spec fn attempts(&self) -> nat {
        self.attempts@
    }

    /// No message waits.
    pub fn new() -> (r: Self)
        ensures
            r@ == Seq::<u64>::empty(),
            r.attempts() == 0,
    {
        SentTimes { queue: new_queue(), attempts: Ghost(0) }
    }

    /// A message was sent.
    pub fn push(&mut self, time: u64)
        ensures
            final(self)@ == old(self)@.push(time),
            final(self).attempts() == old(self).attempts(),
    {
        push_back(&mut self.queue, time);
    }

    /// Takes the send time of the message that waits longest.
    pub fn take(&mut self) -> (r: Taken)
        ensures
            may_give(old(self)@, r),
            final(self)@ == after_take(old(self)@, r),
            final(self).attempts() == old(self).attempts() + 1,
    {
        self.attempts = Ghost((self.attempts@ + 1) as nat);
        take_front(&mut self.queue)
    }
}

} // verus!
