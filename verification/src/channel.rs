//! The channel core: shared state, sender and receiver roles.
//!
//! `MpscQueue` is the state that every handle of one channel shares; the host
//! keeps exactly one instance per channel behind its lock and passes it, as
//! `&mut`, to each operation.  `Sender` and `Receiver` are the two roles:
//! many senders may exist at once (the count is part of the shared state),
//! while the single receiver owns a private cache that lets it drain a batch
//! of values without going back to the shared buffer for every item.

use std::collections::VecDeque;
use vstd::prelude::*;

verus! {

/// The outcome of one receiver step on the shared state.
///
/// `WouldBlock` asks the host to wait on its condition variable and retry;
/// the core itself never blocks.
#[derive(Debug, PartialEq, Eq)]
pub enum DequeueStep<T> {
    /// The oldest pending value.
    Received(T),
    /// Nothing pends and the channel is closed: no value will ever arrive.
    EndOfStream,
    /// Nothing pends but senders are still live: a value may yet arrive.
    WouldBlock,
}

/// What one receiver step returns, as a function of the values still pending
/// (receiver cache first, then the shared buffer) and the closed flag.
pub open spec fn step_outcome<T>(pending: Seq<T>, closed: bool) -> DequeueStep<T> {
    if pending.len() > 0 {
        DequeueStep::Received(pending[0])
    } else if closed {
        DequeueStep::EndOfStream
    } else {
        DequeueStep::WouldBlock
    }
}

/// One disconnect of a live sender, on the (sender count, closed) part of the
/// state: the count drops by one, and the channel closes exactly when the
/// last sender goes.
pub open spec fn spec_disconnect(state: (nat, bool)) -> (nat, bool) {
    (((state.0 - 1) as nat), state.1 || state.0 == 1)
}

/// The shared state of one channel: the FIFO buffer, the number of live
/// sender handles, and the closed flag.
///
/// Closed means every sender is gone; values already buffered are still
/// delivered (drain-before-close), and the flag never reverts.
pub struct MpscQueue<T> {
    buffer_: VecDeque<T>,
    senders_: u64,
    closed_: bool,
}

/// The sender role.  The host pairs it with its shared reference to the
/// channel state; the state's sender count counts these handles.
pub struct Sender;

/// The receiver role: at most one per channel.  Its private cache holds
/// values already moved out of the shared buffer but not yet handed to the
/// caller; they are older than anything still buffered.
pub struct Receiver<T> {
    cache_: VecDeque<T>,
}

impl<T> MpscQueue<T> {
    /// The values in the shared buffer, oldest first.
    pub closed spec fn buffered(&self) -> Seq<T> {
        self.buffer_@
    }

    /// How many sender handles are live.
    pub closed spec fn senders(&self) -> u64 {
        self.senders_
    }

    /// Whether the channel is closed (every sender disconnected).
    pub closed spec fn is_closed(&self) -> bool {
        self.closed_
    }

    /// The state invariant: a closed channel has no live sender.
    pub open spec fn wf(&self) -> bool {
        self.is_closed() ==> self.senders() == 0
    }

    /// Creates one channel: fresh shared state with an empty buffer, one live
    /// sender and the channel open, plus the two role handles.
    pub fn new() -> (r: (Sender, Receiver<T>, MpscQueue<T>))
        ensures
            r.2.wf(),
            r.2.buffered() == Seq::<T>::empty(),
            r.2.senders() == 1,
            !r.2.is_closed(),
            r.1.cached() == Seq::<T>::empty(),
    {
        let state = MpscQueue { buffer_: VecDeque::new(), senders_: 1, closed_: false };
        let receiver = Receiver { cache_: VecDeque::new() };
        (Sender, receiver, state)
    }

    /// Appends a value at the tail of the shared buffer; nothing else moves.
    pub fn push_back(&mut self, value: T)
        requires
            old(self).wf(),
        ensures
            final(self).wf(),
            final(self).buffered() == old(self).buffered().push(value),
            final(self).senders() == old(self).senders(),
            final(self).is_closed() == old(self).is_closed(),
    {
        self.buffer_.push_back(value);
    }

    /// Removes and returns the oldest buffered value, if any; never blocks.
    pub fn pop_front(&mut self) -> (r: Option<T>)
        requires
            old(self).wf(),
        ensures
            final(self).wf(),
            final(self).senders() == old(self).senders(),
            final(self).is_closed() == old(self).is_closed(),
            old(self).buffered().len() > 0 ==> r == Some(old(self).buffered().first())
                && final(self).buffered() == old(self).buffered().drop_first(),
            old(self).buffered().len() == 0 ==> r is None
                && final(self).buffered() == old(self).buffered(),
    {
        self.buffer_.pop_front()
    }

    /// The live sender count, for the host's own bookkeeping.
    pub fn sender_count(&self) -> (n: u64)
        ensures
            n == self.senders(),
    {
        self.senders_
    }

    /// Whether the channel is closed, for the host's own bookkeeping.
    pub fn closed(&self) -> (b: bool)
        ensures
            b == self.is_closed(),
    {
        self.closed_
    }
}

impl Sender {
    /// Appends `value` at the tail of the shared buffer.  The host must wake
    /// one waiting receiver afterwards (see `lemma_no_lost_wakeup`).
    pub fn enqueue<T>(&self, state: &mut MpscQueue<T>, value: T)
        requires
            old(state).wf(),
        ensures
            final(state).wf(),
            final(state).buffered() == old(state).buffered().push(value),
            final(state).senders() == old(state).senders(),
            final(state).is_closed() == old(state).is_closed(),
    {
        state.push_back(value);
    }

    /// A new sender handle on the same channel: the live count rises by one,
    /// nothing else moves.  A sender can only be cloned while it is live, so
    /// the channel is open here.
    pub fn clone_sender<T>(&self, state: &mut MpscQueue<T>) -> (s: Sender)
        requires
            old(state).wf(),
            !old(state).is_closed(),
            old(state).senders() < u64::MAX,
        ensures
            final(state).wf(),
            final(state).senders() == old(state).senders() + 1,
            final(state).buffered() == old(state).buffered(),
            final(state).is_closed() == old(state).is_closed(),
    {
        state.senders_ = state.senders_ + 1;
        Sender
    }

    /// Gives the handle up: the live count drops by one and the channel
    /// closes exactly when the last sender goes — even with values still
    /// buffered, which the receiver will drain first.  Returns whether this
    /// disconnect closed the channel; the host must then wake the receiver
    /// unconditionally.
    pub fn disconnect<T>(self, state: &mut MpscQueue<T>) -> (wake: bool)
        requires
            old(state).wf(),
            old(state).senders() >= 1,
        ensures
            final(state).wf(),
            final(state).buffered() == old(state).buffered(),
            final(state).senders() as nat == spec_disconnect(
                (old(state).senders() as nat, old(state).is_closed()),
            ).0,
            final(state).is_closed() == spec_disconnect(
                (old(state).senders() as nat, old(state).is_closed()),
            ).1,
            old(state).is_closed() ==> final(state).is_closed(),
            wake == (final(state).is_closed() && !old(state).is_closed()),
    {
        state.senders_ = state.senders_ - 1;
        if state.senders_ == 0 {
            state.closed_ = true;
            true
        } else {
            false
        }
    }
}

impl<T> Receiver<T> {
    /// The values in the receiver's private cache, oldest first.
    pub closed spec fn cached(&self) -> Seq<T> {
        self.cache_@
    }

    /// Everything still pending for this receiver: its cached values, then
    /// the shared buffer — delivery order.
    pub open spec fn pending(&self, state: &MpscQueue<T>) -> Seq<T> {
        self.cached() + state.buffered()
    }

    /// One receiver step.  Delivers the oldest pending value if there is
    /// one; otherwise reports end-of-stream on a closed channel, and
    /// `WouldBlock` on an open one — in which case the host waits on its
    /// condition variable and calls again (nothing was changed).
    ///
    /// When the cache is empty the whole shared buffer is moved into it in
    /// one swap, so a batch of values is drained without touching the shared
    /// state again; the swap keeps delivery order, since cached values are
    /// older than buffered ones.
    pub fn dequeue(&mut self, state: &mut MpscQueue<T>) -> (r: DequeueStep<T>)
        requires
            old(state).wf(),
        ensures
            final(state).wf(),
            final(state).senders() == old(state).senders(),
            final(state).is_closed() == old(state).is_closed(),
            r == step_outcome(old(self).pending(old(state)), old(state).is_closed()),
            old(self).pending(old(state)).len() > 0 ==> final(self).pending(final(state))
                == old(self).pending(old(state)).drop_first(),
            old(self).pending(old(state)).len() == 0 ==> final(self).pending(final(state))
                == old(self).pending(old(state)),
    {
        if self.cache_.len() > 0 {
            let v = self.cache_.pop_front().unwrap();
            proof {
                assert(self.cached() + state.buffered() =~= (old(self).cached()
                    + old(state).buffered()).drop_first());
            }
            DequeueStep::Received(v)
        } else {
            core::mem::swap(&mut self.cache_, &mut state.buffer_);
            proof {
                assert(self.cached() + state.buffered() =~= old(self).cached()
                    + old(state).buffered());
            }
            if self.cache_.len() > 0 {
                let v = self.cache_.pop_front().unwrap();
                proof {
                    assert(self.cached() + state.buffered() =~= (old(self).cached()
                        + old(state).buffered()).drop_first());
                }
                DequeueStep::Received(v)
            } else if state.closed_ {
                DequeueStep::EndOfStream
            } else {
                DequeueStep::WouldBlock
            }
        }
    }
}

} // verus!
