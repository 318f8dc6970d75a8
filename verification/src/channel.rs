//! The reference semantics of a channel: a FIFO queue of byte
//! messages, oldest first. Every transport-backed sender and receiver
//! pair behaves as these operations do, and the delivery guarantees —
//! arrival order is delivery order, a rejected send changes nothing,
//! an empty poll changes nothing and never errors — are stated and
//! proved over this model.

use vstd::prelude::*;
use vstd::slice::slice_to_vec;

use crate::MESSAGE_SIZE_CEILING;
use crate::error::Error;
use crate::windows::check_message_size;

verus! {

/// What a queue holds after one send: unchanged when a ceiling-
/// enforcing sender rejects the message, else the message appended.
pub open spec fn queue_after_send(q: Seq<Seq<u8>>, enforce_ceiling: bool, m: Seq<u8>) -> Seq<
    Seq<u8>,
> {
    if enforce_ceiling && m.len() > MESSAGE_SIZE_CEILING {
        q
    } else {
        q.push(m)
    }
}

/// The message one receive attempt yields: the oldest pending one, or
/// nothing from an empty queue.
pub open spec fn next_message(q: Seq<Seq<u8>>) -> Option<Seq<u8>> {
    if q.len() == 0 {
        None
    } else {
        Some(q[0])
    }
}

/// What a queue holds after one receive attempt: unchanged when it was
/// empty, else everything but the oldest message.
pub open spec fn queue_after_receive(q: Seq<Seq<u8>>) -> Seq<Seq<u8>> {
    if q.len() == 0 {
        q
    } else {
        q.drop_first()
    }
}

/// What a queue holds after the messages `msgs` are sent onto it in
/// order.
pub open spec fn queue_after_sends(q: Seq<Seq<u8>>, msgs: Seq<Seq<u8>>, enforce_ceiling: bool) -> Seq<
    Seq<u8>,
>
    decreases msgs.len(),
{
    if msgs.len() == 0 {
        q
    } else {
        queue_after_sends(queue_after_send(q, enforce_ceiling, msgs[0]), msgs.drop_first(), enforce_ceiling)
    }
}

/// A named channel's pending-message queue.
pub struct Channel {
    pending: Vec<Vec<u8>>,
}

impl View for Channel {
    type V = Seq<Seq<u8>>;

    closed spec fn view(&self) -> Seq<Seq<u8>> {
        self.pending.deep_view()
    }
}

proof fn lemma_bytes_deep_view(v: Vec<u8>)
    ensures
        v.deep_view() == v@,
{
    assert(v.deep_view() =~= v@);
}

impl Channel {
    /// A freshly created channel holds no messages.
    pub fn new() -> (c: Channel)
        ensures
            c@ =~= Seq::<Seq<u8>>::empty(),
    {
        let c = Channel { pending: Vec::new() };
        proof {
            assert(c@ =~= Seq::<Seq<u8>>::empty());
        }
        c
    }

    /// One sender's whole send step: the ceiling check first, and only
    /// when it passes does the transport append the message, atomically
    /// from the sender's point of view. A rejected message leaves the
    /// queue exactly as it was and names its offending size.
    pub fn send(&mut self, enforce_ceiling: bool, msg: &[u8]) -> (r: Result<(), Error>)
        ensures
            final(self)@ == queue_after_send(old(self)@, enforce_ceiling, msg@),
            enforce_ceiling && msg@.len() > MESSAGE_SIZE_CEILING ==> r == Err::<(), Error>(
                Error::MessageTooLarge(msg@.len() as usize),
            ),
            !(enforce_ceiling && msg@.len() > MESSAGE_SIZE_CEILING) ==> r is Ok,
    {
        match check_message_size(enforce_ceiling, msg.len()) {
            Err(e) => Err(e),
            Ok(()) => {
                let owned = slice_to_vec(msg);
                proof {
                    lemma_bytes_deep_view(owned);
                }
                self.pending.push(owned);
                proof {
                    assert(self@ =~= old(self)@.push(msg@));
                }
                Ok(())
            },
        }
    }

    /// The single synchronous receive primitive: non-blocking from the
    /// caller's view, it removes and returns the oldest pending
    /// message, reports "no message" on an empty queue — the queue
    /// unchanged either way beyond that removal — and never errors on
    /// the model transport.
    pub fn try_receive(&mut self) -> (r: Result<Option<Vec<u8>>, Error>)
        ensures
            final(self)@ == queue_after_receive(old(self)@),
            r matches Ok(m) && m.deep_view() == next_message(old(self)@),
    {
        if self.pending.len() == 0 {
            proof {
                assert(self@ =~= queue_after_receive(old(self)@));
            }
            Ok(None)
        } else {
            let front = self.pending.remove(0);
            proof {
                lemma_bytes_deep_view(front);
                assert(self@ =~= old(self)@.drop_first());
            }
            Ok(Some(front))
        }
    }

    /// Draining: repeated `try_receive` until it reports "no message"
    /// observes exactly the pending messages, in arrival order,
    /// byte-for-byte, and leaves the channel empty.
    pub fn drain(&mut self) -> (msgs: Vec<Vec<u8>>)
        ensures
            msgs.deep_view() == old(self)@,
            final(self)@.len() == 0,
    {
        let mut msgs: Vec<Vec<u8>> = Vec::new();
        let mut done = false;
        proof {
            assert(msgs.deep_view() + self@ =~= old(self)@);
        }
        while !done
            invariant
                msgs.deep_view() + self@ == old(self)@,
                done ==> self@.len() == 0,
            decreases self@.len() + (if done { 0int } else { 1int }),
        {
            let ghost pre = self@;
            let ghost pre_msgs = msgs.deep_view();
            match self.try_receive() {
                Ok(Some(m)) => {
                    proof {
                        lemma_bytes_deep_view(m);
                    }
                    msgs.push(m);
                    proof {
                        assert(msgs.deep_view() =~= pre_msgs.push(pre[0]));
                        assert(msgs.deep_view() + self@ =~= old(self)@);
                    }
                },
                Ok(None) => {
                    done = true;
                },
                Err(_) => {
                    proof {
                        assert(false);
                    }
                },
            }
        }
        proof {
            assert(msgs.deep_view() =~= old(self)@);
        }
        msgs
    }
}

/// Round trip: messages each within the ceiling, sent in order onto a
/// queue, extend it by exactly those messages in that order — so a
/// receiver that drains a fresh channel after they were sent observes
/// exactly them, byte-for-byte, whichever senders they arrived from.
pub proof fn lemma_round_trip(q: Seq<Seq<u8>>, msgs: Seq<Seq<u8>>, enforce_ceiling: bool)
    requires
        forall|i: int| 0 <= i < msgs.len() ==> #[trigger] msgs[i].len() <= MESSAGE_SIZE_CEILING,
    ensures
        queue_after_sends(q, msgs, enforce_ceiling) == q + msgs,
    decreases msgs.len(),
{
    if msgs.len() == 0 {
        assert(queue_after_sends(q, msgs, enforce_ceiling) =~= q + msgs);
    } else {
        assert(msgs[0].len() <= MESSAGE_SIZE_CEILING);
        lemma_round_trip(q.push(msgs[0]), msgs.drop_first(), enforce_ceiling);
        assert(q.push(msgs[0]) + msgs.drop_first() =~= q + msgs);
    }
}

/// Empty-queue idempotence: a receive attempt on an empty queue yields
/// no message and leaves the queue empty, so every further attempt
/// does the same; `try_receive` never turns this case into an error.
pub proof fn lemma_empty_queue_idempotent(q: Seq<Seq<u8>>)
    requires
        q.len() == 0,
    ensures
        next_message(q) is None,
        queue_after_receive(q) == q,
{
}

} // verus!
