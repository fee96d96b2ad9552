//! The locked state of the executor's message channel: values that wait for a
//! receiver, and receivers that wait for a value. A value sent while a
//! receiver waits goes straight to that receiver; a receiver that finds no
//! value parks. So the two never both hold something.
use vstd::multiset::Multiset;
use vstd::prelude::*;

verus! {

/// The abstract state of a channel. `W` is the handle that resumes a parked
/// receiver.
#[verifier::ext_equal]
pub struct ChannelModel<T, W> {
    /// The values that wait for a receiver; the last one is taken first.
    pub buffer: Seq<T>,
    /// The parked receivers; the last one to park is resumed first.
    pub waiting: Seq<W>,
}

impl<T, W> ChannelModel<T, W> {
    /// An empty channel.
    pub open spec fn empty() -> Self {
        ChannelModel { buffer: Seq::empty(), waiting: Seq::empty() }
    }

    /// Values and parked receivers never wait at the same time.
    pub open spec fn wf(self) -> bool {
        self.buffer.len() == 0 || self.waiting.len() == 0
    }

    /// The receiver that a send of `value` resumes, with the value, if any.
    pub open spec fn offer_handoff(self, value: T) -> Option<(W, T)> {
        if self.waiting.len() > 0 {
            Some((self.waiting.last(), value))
        } else {
            None
        }
    }

    /// The state after a send of `value`.
    pub open spec fn offer(self, value: T) -> Self {
        if self.waiting.len() > 0 {
            ChannelModel { waiting: self.waiting.drop_last(), ..self }
        } else {
            ChannelModel { buffer: self.buffer.push(value), ..self }
        }
    }

    /// The value that a receive takes, if any.
    pub open spec fn taken(self) -> Option<T> {
        if self.buffer.len() > 0 {
            Some(self.buffer.last())
        } else {
            None
        }
    }

    /// The state after a receive takes a value, or finds none.
    pub open spec fn take(self) -> Self {
        if self.buffer.len() > 0 {
            ChannelModel { buffer: self.buffer.drop_last(), ..self }
        } else {
            self
        }
    }

    /// The state after a receiver parks.
    pub open spec fn park(self, waiter: W) -> Self {
        ChannelModel { waiting: self.waiting.push(waiter), ..self }
    }
}

/// A send keeps values and parked receivers apart, and so do a receive and
/// the parking of a receiver that found no value.
pub proof fn lemma_channel_keeps_wf<T, W>(c: ChannelModel<T, W>, value: T, waiter: W)
    requires
        c.wf(),
    ensures
        c.offer(value).wf(),
        c.take().wf(),
        c.buffer.len() == 0 ==> c.park(waiter).wf(),
{
}

/// Parking a receiver adds it to the waiting receivers, whatever the channel
/// holds: one more waiting, the new one last, the others kept in order, the
/// buffer untouched. The next send then goes to that receiver and undoes the
/// parking, so every parked receiver is resumed by a later send.
pub proof fn lemma_park_adds_receiver<T, W>(c: ChannelModel<T, W>, waiter: W, value: T)
    ensures
        c.park(waiter).waiting.len() == c.waiting.len() + 1,
        c.park(waiter).waiting.last() == waiter,
        forall|i: int| 0 <= i < c.waiting.len() ==> c.park(waiter).waiting[i] == c.waiting[i],
        c.park(waiter).buffer == c.buffer,
        c.park(waiter).offer_handoff(value) == Some((waiter, value)),
        c.park(waiter).offer(value) == c,
{
    assert(c.park(waiter).offer(value).waiting =~= c.waiting);
}

/// With no receiver parked, a sent value is what the next receive takes, and
/// the channel is as before.
pub proof fn lemma_send_then_receive<T, W>(c: ChannelModel<T, W>, value: T)
    requires
        c.waiting.len() == 0,
    ensures
        c.offer_handoff(value) is None,
        c.offer(value).taken() == Some(value),
        c.offer(value).take() == c,
{
    assert(c.offer(value).take().buffer =~= c.buffer);
}

/// A receiver that parked on an empty channel is handed the next value sent,
/// and the channel is empty again.
pub proof fn lemma_parked_receiver_gets_next_value<T, W>(waiter: W, value: T)
    ensures
        ChannelModel::<T, W>::empty().park(waiter).offer_handoff(value) == Some((waiter, value)),
        ChannelModel::<T, W>::empty().park(waiter).offer(value) == ChannelModel::<T, W>::empty(),
{
    assert(ChannelModel::<T, W>::empty().park(waiter).offer(value).waiting =~= Seq::<W>::empty());
}

/// One operation on a channel: a send of a value, or a receive by a receiver
/// that takes the last buffered value or, finding none, parks.
pub enum ChannelOp<T, W> {
    /// A sender sends the value.
    Send(T),
    /// The receiver receives.
    Receive(W),
}

/// The values that a run of operations sends.
pub open spec fn sent_values<T, W>(ops: Seq<ChannelOp<T, W>>) -> Multiset<T>
    decreases ops.len(),
{
    if ops.len() == 0 {
        Multiset::empty()
    } else {
        let first = match ops[0] {
            ChannelOp::Send(v) => Multiset::singleton(v),
            ChannelOp::Receive(_) => Multiset::empty(),
        };
        first.add(sent_values(ops.drop_first()))
    }
}

impl<T, W> ChannelModel<T, W> {
    /// The state after one operation, and the values it delivers to
    /// receivers: a send delivers its value when a receiver is parked, a
    /// receive delivers the last buffered value when there is one.
    pub open spec fn step(self, op: ChannelOp<T, W>) -> (Self, Multiset<T>) {
        match op {
            ChannelOp::Send(v) => (
                self.offer(v),
                if self.waiting.len() > 0 {
                    Multiset::singleton(v)
                } else {
                    Multiset::empty()
                },
            ),
            ChannelOp::Receive(w) => if self.buffer.len() > 0 {
                (self.take(), Multiset::singleton(self.buffer.last()))
            } else {
                (self.park(w), Multiset::empty())
            },
        }
    }

    /// The state after a run of operations, and all the values delivered to
    /// receivers along the way.
    pub open spec fn run_ops(self, ops: Seq<ChannelOp<T, W>>) -> (Self, Multiset<T>)
        decreases ops.len(),
    {
        if ops.len() == 0 {
            (self, Multiset::empty())
        } else {
            let (next, delivered) = self.step(ops[0]);
            let (last, rest) = next.run_ops(ops.drop_first());
            (last, delivered.add(rest))
        }
    }
}

/// One operation neither loses nor invents nor duplicates a value: what it
/// delivers plus what stays buffered is what was buffered plus what it sends.
pub proof fn lemma_step_conserves_values<T, W>(c: ChannelModel<T, W>, op: ChannelOp<T, W>)
    ensures
        c.step(op).1.add(c.step(op).0.buffer.to_multiset()) == c.buffer.to_multiset().add(
            sent_values(seq![op]),
        ),
{
    broadcast use vstd::seq_lib::group_to_multiset_ensures;
    let ops = seq![op];
    assert(ops.drop_first() =~= Seq::<ChannelOp<T, W>>::empty());
    assert(sent_values(ops.drop_first()) =~= Multiset::<T>::empty());
    match op {
        ChannelOp::Send(v) => {
            if c.waiting.len() > 0 {
                assert(c.step(op).1.add(c.step(op).0.buffer.to_multiset()) =~= c.buffer.to_multiset().add(
                    sent_values(ops),
                ));
            } else {
                assert(c.buffer.push(v).to_multiset() =~= c.buffer.to_multiset().insert(v));
                assert(c.step(op).1.add(c.step(op).0.buffer.to_multiset()) =~= c.buffer.to_multiset().add(
                    sent_values(ops),
                ));
            }
        },
        ChannelOp::Receive(w) => {
            if c.buffer.len() > 0 {
                let n = c.buffer.len() - 1;
                assert(c.buffer.drop_last() =~= c.buffer.remove(n));
                assert(c.buffer.remove(n).to_multiset() =~= c.buffer.to_multiset().remove(c.buffer[n]));
                assert(c.buffer.to_multiset().count(c.buffer[n]) > 0) by {
                    assert(c.buffer.contains(c.buffer[n]));
                }
                assert(c.step(op).1.add(c.step(op).0.buffer.to_multiset()) =~= c.buffer.to_multiset().add(
                    sent_values(ops),
                ));
            } else {
                assert(c.step(op).1.add(c.step(op).0.buffer.to_multiset()) =~= c.buffer.to_multiset().add(
                    sent_values(ops),
                ));
            }
        },
    }
}

/// Over any run of sends and receives, no value is lost, invented or
/// delivered twice: the values delivered to receivers, together with the
/// values still buffered, are exactly the values buffered at the start and
/// the values sent. In particular, from an empty channel, once nothing is
/// buffered, receivers have got exactly the values sent. Values and parked
/// receivers stay apart all along.
pub proof fn lemma_channel_conserves_values<T, W>(c: ChannelModel<T, W>, ops: Seq<ChannelOp<T, W>>)
    requires
        c.wf(),
    ensures
        c.run_ops(ops).1.add(c.run_ops(ops).0.buffer.to_multiset()) == c.buffer.to_multiset().add(
            sent_values(ops),
        ),
        c.run_ops(ops).0.wf(),
        c.buffer.len() == 0 && c.run_ops(ops).0.buffer.len() == 0 ==> c.run_ops(ops).1 == sent_values(ops),
    decreases ops.len(),
{
    broadcast use vstd::seq_lib::group_to_multiset_ensures;

    if ops.len() == 0 {
        assert(sent_values(ops) =~= Multiset::<T>::empty());
        assert(c.run_ops(ops).1.add(c.run_ops(ops).0.buffer.to_multiset()) =~= c.buffer.to_multiset().add(
            sent_values(ops),
        ));
    } else {
        let op = ops[0];
        let (next, delivered) = c.step(op);
        lemma_step_conserves_values(c, op);
        assert(next.wf());
        lemma_channel_conserves_values(next, ops.drop_first());
        let single = match op {
            ChannelOp::Send(v) => Multiset::singleton(v),
            ChannelOp::Receive(_) => Multiset::empty(),
        };
        assert(sent_values(ops) == single.add(sent_values(ops.drop_first())));
        assert(sent_values(seq![op]) =~= single) by {
            assert(seq![op].drop_first() =~= Seq::<ChannelOp<T, W>>::empty());
            assert(sent_values(seq![op].drop_first()) =~= Multiset::<T>::empty());
        }
        let (last, rest) = next.run_ops(ops.drop_first());
        assert(c.run_ops(ops) == (last, delivered.add(rest)));
        assert(delivered.add(next.buffer.to_multiset()) == c.buffer.to_multiset().add(single));
        assert(rest.add(last.buffer.to_multiset()) == next.buffer.to_multiset().add(
            sent_values(ops.drop_first()),
        ));
        assert forall|x: T|
            #[trigger] delivered.add(rest).add(last.buffer.to_multiset()).count(x)
                == c.buffer.to_multiset().add(sent_values(ops)).count(x) by {
            assert(delivered.add(next.buffer.to_multiset()).count(x) == c.buffer.to_multiset().add(
                single,
            ).count(x));
            assert(rest.add(last.buffer.to_multiset()).count(x) == next.buffer.to_multiset().add(
                sent_values(ops.drop_first()),
            ).count(x));
        }
        assert(delivered.add(rest).add(last.buffer.to_multiset()) =~= c.buffer.to_multiset().add(
            sent_values(ops),
        ));
    }
    if c.buffer.len() == 0 && c.run_ops(ops).0.buffer.len() == 0 {
        assert(c.buffer.to_multiset() =~= Multiset::<T>::empty());
        assert(c.run_ops(ops).0.buffer.to_multiset() =~= Multiset::<T>::empty());
        assert forall|x: T| #[trigger] c.run_ops(ops).1.count(x) == sent_values(ops).count(x) by {
            assert(c.run_ops(ops).1.add(c.run_ops(ops).0.buffer.to_multiset()).count(x)
                == c.buffer.to_multiset().add(sent_values(ops)).count(x));
        }
        assert(c.run_ops(ops).1 =~= sent_values(ops));
    }
}

/// What a channel holds, behind its lock.
#[derive(Debug)]
pub struct ChannelState<T, W> {
    buffer: Vec<T>,
    resume: Vec<W>,
}

impl<T, W> View for ChannelState<T, W> {
    type V = ChannelModel<T, W>;

    closed spec fn view(&self) -> ChannelModel<T, W> {
        ChannelModel { buffer: self.buffer@, waiting: self.resume@ }
    }
}

impl<T, W> ChannelState<T, W> {
    /// An empty channel.
    pub fn new() -> (c: Self)
        ensures
            c@ == ChannelModel::<T, W>::empty(),
    {
        let c = ChannelState { buffer: Vec::new(), resume: Vec::new() };
        assert(c@ =~= ChannelModel::<T, W>::empty());
        c
    }

    /// Sends `value`: to the receiver that parked last, which is handed back
    /// with the value to be resumed, or into the buffer when none waits.
    pub fn offer(&mut self, value: T) -> (handoff: Option<(W, T)>)
        ensures
            handoff == old(self)@.offer_handoff(value),
            final(self)@ == old(self)@.offer(value),
    {
        match self.resume.pop() {
            Some(waiter) => {
                assert(self@ =~= old(self)@.offer(value));
                Some((waiter, value))
            },
            None => {
                self.buffer.push(value);
                assert(self@ =~= old(self)@.offer(value));
                None
            },
        }
    }

    /// Takes the value that was buffered last, if any.
    pub fn take(&mut self) -> (value: Option<T>)
        ensures
            value == old(self)@.taken(),
            final(self)@ == old(self)@.take(),
    {
        let value = self.buffer.pop();
        assert(self@ =~= old(self)@.take());
        value
    }

    /// Parks a receiver that found no value.
    pub fn park(&mut self, waiter: W)
        requires
            old(self)@.buffer.len() == 0,
        ensures
            final(self)@ == old(self)@.park(waiter),
    {
        self.resume.push(waiter);
        assert(self@ =~= old(self)@.park(waiter));
    }

    /// The number of buffered values.
    pub fn buffered_len(&self) -> (n: usize)
        ensures
            n == self@.buffer.len(),
    {
        self.buffer.len()
    }

    /// The number of parked receivers.
    pub fn waiting_len(&self) -> (n: usize)
        ensures
            n == self@.waiting.len(),
    {
        self.resume.len()
    }
}

} // verus!
