use vstd::prelude::*;

verus! {

/// The one-directional bridge between the UI scheduler and the simulation
/// scheduler: a single-producer, single-consumer, unbounded FIFO queue.
///
/// The two schedulers are cooperative and never run a send and a drain at the
/// same time, so the channel is modelled as one value: the sender side owns
/// `send`, the receiver side owns `drain_into`. The receiver starts detached;
/// the simulation bootstrap attaches it at build time, and page unmount tears
/// it down. A value sent while the receiver is detached or torn down is
/// silently discarded: a send never fails and never blocks.
pub struct Bridge<T> {
    queue: Vec<T>,
    receiver_live: bool,
}

/// What one send leaves in the channel: the value is enqueued at the back
/// while the receiver is live, and silently discarded otherwise.
pub open spec fn sent<T>(pending: Seq<T>, live: bool, value: T) -> Seq<T> {
    if live {
        pending.push(value)
    } else {
        pending
    }
}

/// What a whole sequence of sends, oldest first, leaves in the channel.
pub open spec fn sent_all<T>(pending: Seq<T>, live: bool, values: Seq<T>) -> Seq<T>
    decreases values.len(),
{
    if values.len() == 0 {
        pending
    } else {
        sent_all(sent(pending, live, values[0]), live, values.drop_first())
    }
}

impl<T> Bridge<T> {
    /// The values sent and not yet drained, oldest first.
    pub closed spec fn pending(&self) -> Seq<T> {
        self.queue@
    }

    /// Whether the receiver is attached and not torn down.
    pub closed spec fn is_live(&self) -> bool {
        self.receiver_live
    }

    /// Creates the channel, empty, with the receiver not yet attached.
    ///
    /// Until the simulation bootstrap attaches the receiver, sent values are
    /// lost silently: that is an accepted edge of the protocol, not a fault.
    pub fn new() -> (bridge: Self)
        ensures
            bridge.pending() == Seq::<T>::empty(),
            !bridge.is_live(),
    {
        Bridge { queue: Vec::new(), receiver_live: false }
    }

    /// Attaches the receiver to the simulation instance. Called once at build
    /// time, before the simulation's first frame.
    pub fn attach_receiver(&mut self)
        ensures
            final(self).is_live(),
            final(self).pending() == old(self).pending(),
    {
        self.receiver_live = true;
    }

    /// Sender side: enqueues `value` while the receiver is live and discards
    /// it otherwise. Never fails and never blocks, whatever the receiver's
    /// state (fire-and-forget).
    pub fn send(&mut self, value: T)
        ensures
            final(self).pending() == sent(old(self).pending(), old(self).is_live(), value),
            final(self).is_live() == old(self).is_live(),
    {
        if self.receiver_live {
            self.queue.push(value);
        }
    }

    /// Receiver side, run once per simulation frame: pops every currently
    /// enqueued value in FIFO order, appends them to the simulation's internal
    /// event queue, and leaves the channel empty.
    pub fn drain_into(&mut self, queue: &mut Vec<T>)
        ensures
            final(self).pending() == Seq::<T>::empty(),
            final(self).is_live() == old(self).is_live(),
            final(queue)@ == old(queue)@ + old(self).pending(),
    {
        queue.append(&mut self.queue);
    }

    /// Tears the receiver down at page unmount: in-flight values are
    /// discarded, and later sends fall on a dead channel.
    pub fn tear_down(&mut self)
        ensures
            !final(self).is_live(),
            final(self).pending() == Seq::<T>::empty(),
    {
        self.receiver_live = false;
        self.queue = Vec::new();
    }
}

/// FIFO law: any sequence of values sent through a live channel before a
/// single drain comes out equal to the sent sequence, in the same order.
/// `drain_into` hands back exactly `pending()`, and this lemma shows that
/// after the sends `pending()` is the prior contents followed by the sent
/// values; from an empty channel it is the sent sequence itself.
pub proof fn lemma_fifo_order<T>(pending: Seq<T>, values: Seq<T>)
    ensures
        sent_all(pending, true, values) == pending + values,
    decreases values.len(),
{
    if values.len() == 0 {
        assert(pending + values =~= pending);
    } else {
        lemma_fifo_order(pending.push(values[0]), values.drop_first());
        assert(pending.push(values[0]) + values.drop_first() =~= pending + values);
    }
}

/// FIFO law at the channel's rest state: from an empty channel, the drained
/// sequence is exactly the sent sequence.
pub proof fn lemma_fifo_drained_equals_sent<T>(values: Seq<T>)
    ensures
        sent_all(Seq::<T>::empty(), true, values) == values,
{
    lemma_fifo_order(Seq::<T>::empty(), values);
    assert(Seq::<T>::empty() + values =~= values);
}

/// Dead-channel law: values sent while the receiver is detached or torn down
/// leave the channel exactly as it was, so they appear in no later drain.
/// `send` returns nothing and has no failure path, so such a send also raises
/// no error.
pub proof fn lemma_dead_sends_dropped<T>(pending: Seq<T>, values: Seq<T>)
    ensures
        sent_all(pending, false, values) == pending,
    decreases values.len(),
{
    if values.len() > 0 {
        lemma_dead_sends_dropped(pending, values.drop_first());
    }
}

} // verus!
