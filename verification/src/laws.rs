//! The channel's laws, proved once and for all over the spec functions that
//! the core's contracts use.

use vstd::prelude::*;
use crate::channel::spec_disconnect;
use crate::channel::step_outcome;
use crate::channel::DequeueStep;

verus! {

/// The values still pending after `n` receiver steps that each delivered one
/// value, starting from the pending sequence `p`.
pub open spec fn remaining_after<T>(p: Seq<T>, n: nat) -> Seq<T>
    decreases n,
{
    if n == 0 {
        p
    } else {
        remaining_after(p, (n - 1) as nat).drop_first()
    }
}

/// The values delivered by the first `n` receiver steps, in delivery order,
/// starting from the pending sequence `p`.
pub open spec fn delivered_after<T>(p: Seq<T>, n: nat) -> Seq<T>
    decreases n,
{
    if n == 0 {
        Seq::<T>::empty()
    } else {
        delivered_after(p, (n - 1) as nat).push(remaining_after(p, (n - 1) as nat).first())
    }
}

proof fn lemma_dequeue_sequence<T>(p: Seq<T>, n: nat)
    requires
        n <= p.len(),
    ensures
        remaining_after(p, n) == p.skip(n as int),
        delivered_after(p, n) == p.take(n as int),
    decreases n,
{
    if n == 0 {
        assert(remaining_after(p, n) =~= p.skip(0));
        assert(delivered_after(p, n) =~= p.take(0));
    } else {
        lemma_dequeue_sequence(p, (n - 1) as nat);
        assert(p.skip(n as int - 1).drop_first() =~= p.skip(n as int));
        assert(p.take(n as int - 1).push(p[n as int - 1]) =~= p.take(n as int));
        assert(remaining_after(p, (n - 1) as nat).first() == p[n as int - 1]);
    }
}

/// FIFO order: from a pending sequence `p`, the first `n` delivering steps
/// hand out exactly the first `n` values of `p`, in order, and the next step
/// delivers `p[n]` — so values come out in the order they went in.
pub proof fn lemma_fifo_order<T>(p: Seq<T>, closed: bool, n: nat)
    requires
        n <= p.len(),
    ensures
        delivered_after(p, n) == p.take(n as int),
        n < p.len() ==> step_outcome(remaining_after(p, n), closed) == DequeueStep::Received(
            p[n as int],
        ),
{
    lemma_dequeue_sequence(p, n);
}

/// Drain-before-close: on a closed channel, every pending value is still
/// delivered, in order, and end-of-stream is reported exactly when nothing
/// pends — never while undelivered values remain.
pub proof fn lemma_drain_before_close<T>(p: Seq<T>, n: nat)
    requires
        n <= p.len(),
    ensures
        n < p.len() ==> step_outcome(remaining_after(p, n), true) == DequeueStep::Received(
            p[n as int],
        ),
        n == p.len() ==> step_outcome(remaining_after(p, n), true)
            == DequeueStep::<T>::EndOfStream,
        n == p.len() ==> delivered_after(p, n) == p,
{
    lemma_dequeue_sequence(p, n);
    if n == p.len() {
        assert(p.take(n as int) =~= p);
    }
}

/// An enqueue extends the pending sequence: appending to the shared buffer
/// appends to the receiver's pending values, wherever the boundary between
/// its cache and the shared buffer happens to lie.
pub proof fn lemma_enqueue_extends_pending<T>(cached: Seq<T>, buffered: Seq<T>, v: T)
    ensures
        cached + buffered.push(v) == (cached + buffered).push(v),
{
    assert(cached + buffered.push(v) =~= (cached + buffered).push(v));
}

/// No lost wakeup, the decision half: a receiver step asks to block exactly
/// on an empty, open channel, and after either wake event — (a) a value was
/// enqueued, (b) the last sender disconnected and closed the channel — the
/// re-checked step no longer blocks.  Waking the thread itself is the host's
/// side of the bargain.
pub proof fn lemma_no_lost_wakeup<T>(p: Seq<T>, closed: bool, v: T)
    ensures
        (step_outcome(p, closed) is WouldBlock) <==> (p.len() == 0 && !closed),
        step_outcome(p.push(v), closed) is Received,
        !(step_outcome(p, true) is WouldBlock),
{
}

/// Fan-in: each enqueue adds exactly its own value to the pending values,
/// and a full drain delivers exactly the pending sequence — so with any
/// interleaving of senders, every enqueued value is delivered exactly once
/// (order across senders unconstrained), and then end-of-stream.
pub proof fn lemma_fan_in<T>(p: Seq<T>, v: T)
    ensures
        p.push(v).to_multiset() == p.to_multiset().insert(v),
        p.push(v).len() == p.len() + 1,
        delivered_after(p, p.len()) == p,
        delivered_after(p, p.len()).to_multiset() == p.to_multiset(),
        step_outcome(remaining_after(p, p.len()), true) == DequeueStep::<T>::EndOfStream,
{
    p.to_multiset_ensures();
    assert(p.push(v).to_multiset() =~= p.to_multiset().insert(v));
    lemma_dequeue_sequence(p, p.len());
    assert(p.take(p.len() as int) =~= p);
}

/// The (sender count, closed) part of the state after `n` disconnects,
/// starting from `k` live senders on an open channel.
pub open spec fn after_disconnects(k: nat, n: nat) -> (nat, bool)
    decreases n,
{
    if n == 0 {
        (k, false)
    } else {
        spec_disconnect(after_disconnects(k, (n - 1) as nat))
    }
}

/// Idempotent close: starting from `k` live senders on an open channel, the
/// sender count after `n` disconnects is `k - n`, and the channel is closed
/// after the `n`-th disconnect exactly when it was the last sender — it
/// closes once, at that disconnect and at no other.
pub proof fn lemma_close_exactly_once(k: nat, n: nat)
    requires
        n <= k,
    ensures
        after_disconnects(k, n).0 == k - n,
        after_disconnects(k, n).1 <==> (n == k && k >= 1),
    decreases n,
{
    if n > 0 {
        lemma_close_exactly_once(k, (n - 1) as nat);
    }
}

/// Closing never reverts: a disconnect on an already-closed state leaves it
/// closed (and enqueue and dequeue steps do not touch the flag at all, per
/// their contracts).
pub proof fn lemma_close_is_monotone(state: (nat, bool))
    ensures
        state.1 ==> spec_disconnect(state).1,
{
}

} // verus!
