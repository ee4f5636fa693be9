use vstd::prelude::*;

verus! {

/// The answer to one poll of a relay.
#[derive(Debug, PartialEq, Eq)]
pub enum RelayPoll<T> {
    /// The oldest queued item.
    Ready(T),
    /// The source is closed and every item has been handed out.
    Finished,
    /// Nothing queued yet: the consumer is to wait for a wake-up.
    Pending,
}

/// The queue between a relay's background worker, which pushes what the
/// source channel yields and closes the queue when the source ends, and the
/// consumer, which polls.
pub struct RelayQueue<T> {
    items: Vec<T>,
    source_closed: bool,
}

/// One poll on a queue holding `items`, closed or not: the new contents and the answer.
pub open spec fn poll_step<T>(items: Seq<T>, closed: bool) -> (Seq<T>, RelayPoll<T>) {
    if items.len() > 0 {
        (items.drop_first(), RelayPoll::Ready(items[0]))
    } else if closed {
        (items, RelayPoll::Finished)
    } else {
        (items, RelayPoll::Pending)
    }
}

/// The answers to `n` successive polls, with nothing pushed in between.
pub open spec fn polls<T>(items: Seq<T>, closed: bool, n: nat) -> Seq<RelayPoll<T>>
    decreases n,
{
    if n == 0 {
        Seq::empty()
    } else {
        let (rest, answer) = poll_step(items, closed);
        seq![answer] + polls(rest, closed, (n - 1) as nat)
    }
}

/// Relay draining: once the source is closed, every item still queued comes
/// out, oldest first, before the end of the sequence is signalled.
pub proof fn lemma_closed_queue_drains<T>(items: Seq<T>)
    ensures
        polls(items, true, items.len() + 1) == items.map_values(|x: T| RelayPoll::Ready(x)).push(
            RelayPoll::<T>::Finished,
        ),
    decreases items.len(),
{
    let ready = |x: T| RelayPoll::Ready(x);
    if items.len() == 0 {
        assert(polls(items, true, 0) == Seq::<RelayPoll<T>>::empty());
        assert(polls(items, true, 1) =~= seq![RelayPoll::<T>::Finished]);
        assert(items.map_values(ready).push(RelayPoll::<T>::Finished) =~= seq![
            RelayPoll::<T>::Finished,
        ]);
    } else {
        let rest = items.drop_first();
        lemma_closed_queue_drains(rest);
        assert(polls(items, true, items.len() + 1) == seq![RelayPoll::Ready(items[0])] + polls(
            rest,
            true,
            rest.len() + 1,
        ));
        assert(items.map_values(ready).push(RelayPoll::<T>::Finished) =~= seq![
            RelayPoll::Ready(items[0]),
        ] + rest.map_values(ready).push(RelayPoll::<T>::Finished));
    }
}

impl<T> RelayQueue<T> {
    /// The queued items, oldest first.
    pub closed spec fn spec_items(&self) -> Seq<T> {
        self.items@
    }

    /// Whether the source has ended.
    pub closed spec fn spec_closed(&self) -> bool {
        self.source_closed
    }

    /// An empty queue whose source is open.
    pub fn new() -> (r: RelayQueue<T>)
        ensures
            r.spec_items() == Seq::<T>::empty(),
            !r.spec_closed(),
    {
        RelayQueue { items: Vec::new(), source_closed: false }
    }

    /// Queues an item that the source yielded.
    pub fn push(&mut self, item: T)
        ensures
            final(self).spec_items() == old(self).spec_items().push(item),
            final(self).spec_closed() == old(self).spec_closed(),
    {
        self.items.push(item);
    }

    /// Records that the source has ended; queued items stay.
    pub fn close(&mut self)
        ensures
            final(self).spec_items() == old(self).spec_items(),
            final(self).spec_closed(),
    {
        self.source_closed = true;
    }

    /// Whether the source has ended.
    pub fn is_closed(&self) -> (r: bool)
        ensures
            r == self.spec_closed(),
    {
        self.source_closed
    }

    /// The number of queued items.
    pub fn len(&self) -> (r: usize)
        ensures
            r == self.spec_items().len(),
    {
        self.items.len()
    }

    /// Hands out the oldest item; with none queued, `Finished` once the source
    /// has ended and `Pending` before.
    pub fn poll(&mut self) -> (r: RelayPoll<T>)
        ensures
            (final(self).spec_items(), r) == poll_step(old(self).spec_items(), old(self).spec_closed()),
            final(self).spec_closed() == old(self).spec_closed(),
    {
        if self.items.len() > 0 {
            let item = self.items.remove(0);
            proof {
                assert(self.items@ =~= old(self).items@.drop_first());
            }
            RelayPoll::Ready(item)
        } else if self.source_closed {
            RelayPoll::Finished
        } else {
            RelayPoll::Pending
        }
    }
}

} // verus!
