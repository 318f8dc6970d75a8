//! The async bridge: exposing "wait for exactly one message" as a
//! cooperative suspension. On each scheduler-driven resumption the
//! bridge makes exactly one bounded non-blocking poll and decides:
//! resolve with the message, report still-pending, or resolve with the
//! error — never blocking the thread beyond that one bounded poll, and
//! never retrying a failure.

use vstd::prelude::*;

use crate::channel::Channel;
use crate::channel::next_message;
use crate::channel::queue_after_receive;
use crate::error::Error;

verus! {

/// What one scheduler-driven resumption of the suspension decides.
pub enum MessagePoll {
    /// A message was pending: the suspension resolves with it, the
    /// single shot spent.
    Ready(Vec<u8>),
    /// Nothing was pending within the bounded poll: the suspension
    /// stays pending and the scheduler re-polls on its own cadence.
    Pending,
    /// The poll failed: the suspension resolves with the error; no
    /// retry.
    Failed(Error),
}

/// The bridge's whole decision, from the outcome of one bounded
/// synchronous poll.
pub fn bridge_poll(outcome: Result<Option<Vec<u8>>, Error>) -> (s: MessagePoll)
    ensures
        outcome matches Ok(Some(v)) ==> s == MessagePoll::Ready(v),
        outcome matches Ok(None) ==> s is Pending,
        outcome matches Err(e) ==> s == MessagePoll::Failed(e),
{
    match outcome {
        Ok(Some(v)) => MessagePoll::Ready(v),
        Ok(None) => MessagePoll::Pending,
        Err(e) => MessagePoll::Failed(e),
    }
}

/// One resumption of the suspension against a channel: a single
/// bounded poll, then the bridge's decision. On the model transport it
/// resolves with the oldest pending message — consuming exactly that
/// one — or stays pending on an empty queue, leaving it untouched.
pub fn poll_channel(c: &mut Channel) -> (s: MessagePoll)
    ensures
        final(c)@ == queue_after_receive(old(c)@),
        next_message(old(c)@) matches Some(m) ==> (s matches MessagePoll::Ready(v) && v.deep_view()
            == m),
        next_message(old(c)@) is None ==> s is Pending,
        !(s is Failed),
{
    bridge_poll(c.try_receive())
}

/// What a queue holds after `n` resumptions of the suspension.
pub open spec fn queue_after_polls(q: Seq<Seq<u8>>, n: nat) -> Seq<Seq<u8>>
    decreases n,
{
    if n == 0 {
        q
    } else {
        queue_after_polls(queue_after_receive(q), (n - 1) as nat)
    }
}

/// The messages that `n` resumptions of the suspension resolve with,
/// in resolution order.
pub open spec fn polled_messages(q: Seq<Seq<u8>>, n: nat) -> Seq<Seq<u8>>
    decreases n,
{
    if n == 0 {
        Seq::<Seq<u8>>::empty()
    } else {
        match next_message(q) {
            Some(m) => seq![m] + polled_messages(queue_after_receive(q), (n - 1) as nat),
            None => polled_messages(queue_after_receive(q), (n - 1) as nat),
        }
    }
}

/// Async single shot: each resumption resolves with at most one
/// message, so awaiting the bridge `n` times against a channel holding
/// at least `n` messages yields exactly the oldest `n`, each exactly
/// once, in arrival order, and leaves exactly the rest pending.
pub proof fn lemma_async_single_shot(q: Seq<Seq<u8>>, n: nat)
    requires
        n <= q.len(),
    ensures
        polled_messages(q, n) == q.take(n as int),
        queue_after_polls(q, n) == q.skip(n as int),
    decreases n,
{
    if n == 0 {
        assert(polled_messages(q, n) =~= q.take(0));
        assert(queue_after_polls(q, n) =~= q.skip(0));
    } else {
        lemma_async_single_shot(q.drop_first(), (n - 1) as nat);
        assert(seq![q[0]] + q.drop_first().take(n - 1) =~= q.take(n as int));
        assert(q.drop_first().skip(n - 1) =~= q.skip(n as int));
    }
}

} // verus!
