//! The shutdown protocol of the worker-pool bootstrap, as a state machine.
//!
//! A [`crate::synthesize::Bootstrap::WorkerPool`] body runs one shared
//! executor, one single-use shutdown channel, and `n` worker threads beside
//! the calling thread. The protocol is: the calling thread captures the
//! body's result, then closes the channel; each worker polls the executor
//! until it observes the close signal and only then exits; the outer call
//! returns only once every worker has exited. This module states those steps
//! and proves the ordering they guarantee, for every execution.

use vstd::prelude::*;

verus! {

/// One snapshot of a pool execution with a fixed worker count.
#[verifier::ext_equal]
pub ghost struct PoolState {
    /// How many worker threads this execution spawned.
    pub workers: nat,
    /// The calling thread has captured the inner body's result (success or
    /// error value alike).
    pub result_captured: bool,
    /// The sender end of the shutdown channel has been dropped, delivering
    /// the close signal to every worker's receiver.
    pub shutdown_sent: bool,
    /// The workers, by index, that have observed shutdown and exited.
    pub exited: Set<nat>,
    /// The outer call has returned the captured result.
    pub returned: bool,
}

/// The state right after spawning: nothing captured, nothing sent, every
/// worker polling.
pub open spec fn pool_init(n: nat) -> PoolState {
    PoolState {
        workers: n,
        result_captured: false,
        shutdown_sent: false,
        exited: Set::empty(),
        returned: false,
    }
}

/// The calling thread finishes driving the inner body and captures its
/// result.
pub open spec fn capture_step(pre: PoolState, post: PoolState) -> bool {
    &&& !pre.result_captured
    &&& post == PoolState { result_captured: true, ..pre }
}

/// The calling thread drops the sender end of the shutdown channel — only
/// after the result is captured.
pub open spec fn shutdown_step(pre: PoolState, post: PoolState) -> bool {
    &&& pre.result_captured
    &&& !pre.shutdown_sent
    &&& post == PoolState { shutdown_sent: true, ..pre }
}

/// Worker `i` observes the close signal on its receiver and exits. Receiving
/// shutdown is a worker's only exit condition.
pub open spec fn worker_exit_step(pre: PoolState, post: PoolState, i: nat) -> bool {
    &&& i < pre.workers
    &&& pre.shutdown_sent
    &&& !pre.exited.contains(i)
    &&& post == PoolState { exited: pre.exited.insert(i), ..pre }
}

/// The calling thread joins the workers and returns the captured result —
/// only once every worker has exited.
pub open spec fn return_step(pre: PoolState, post: PoolState) -> bool {
    &&& pre.result_captured
    &&& pre.shutdown_sent
    &&& (forall|i: nat| i < pre.workers ==> pre.exited.contains(i))
    &&& !pre.returned
    &&& post == PoolState { returned: true, ..pre }
}

/// Any one protocol step.
pub open spec fn pool_step(pre: PoolState, post: PoolState) -> bool {
    ||| capture_step(pre, post)
    ||| shutdown_step(pre, post)
    ||| (exists|i: nat| worker_exit_step(pre, post, i))
    ||| return_step(pre, post)
}

/// The ordering the protocol guarantees, as an invariant over snapshots:
/// shutdown is never sent before the result is captured; no worker exits
/// before shutdown is sent, and only spawned workers exit; the outer call
/// never returns before the result is captured, shutdown is sent and every
/// worker has exited.
pub open spec fn pool_inv(s: PoolState) -> bool {
    &&& (s.shutdown_sent ==> s.result_captured)
    &&& (forall|i: nat| s.exited.contains(i) ==> i < s.workers && s.shutdown_sent)
    &&& (s.returned ==> s.result_captured && s.shutdown_sent && (forall|i: nat|
        i < s.workers ==> s.exited.contains(i)))
}

/// The initial state satisfies the invariant.
pub proof fn lemma_pool_init_inv(n: nat)
    ensures
        pool_inv(pool_init(n)),
{
}

/// Every protocol step preserves the invariant.
pub proof fn lemma_pool_step_inv(pre: PoolState, post: PoolState)
    requires
        pool_inv(pre),
        pool_step(pre, post),
    ensures
        pool_inv(post),
{
    if capture_step(pre, post) || shutdown_step(pre, post) || return_step(pre, post) {
    } else {
        let i = choose|i: nat| worker_exit_step(pre, post, i);
        assert(worker_exit_step(pre, post, i));
        assert(post.exited == pre.exited.insert(i));
        assert forall|j: nat| post.exited.contains(j) implies j < post.workers
            && post.shutdown_sent by {
            if j != i {
                assert(pre.exited.contains(j));
            }
        }
    }
}

/// One recorded execution of a pool with `n` workers: it starts at the
/// initial state and moves only by protocol steps.
pub open spec fn is_pool_trace(t: Seq<PoolState>, n: nat) -> bool {
    &&& t.len() > 0
    &&& t[0] == pool_init(n)
    &&& forall|k: int| 0 <= k < t.len() - 1 ==> pool_step(#[trigger] t[k], t[k + 1])
}

/// Every snapshot of every execution satisfies the invariant: in no
/// execution is shutdown sent before the result is captured, does a worker
/// exit before shutdown, or does the outer call return before all `n`
/// workers have exited.
pub proof fn lemma_pool_trace_inv(t: Seq<PoolState>, n: nat, k: int)
    requires
        is_pool_trace(t, n),
        0 <= k < t.len(),
    ensures
        pool_inv(t[k]),
    decreases k,
{
    if k == 0 {
        lemma_pool_init_inv(n);
    } else {
        lemma_pool_trace_inv(t, n, k - 1);
        lemma_pool_step_inv(t[k - 1], t[k]);
    }
}

/// The worker count never changes over an execution.
pub proof fn lemma_pool_trace_workers(t: Seq<PoolState>, n: nat, k: int)
    requires
        is_pool_trace(t, n),
        0 <= k < t.len(),
    ensures
        t[k].workers == n,
    decreases k,
{
    if k > 0 {
        lemma_pool_trace_workers(t, n, k - 1);
    }
}

/// If an execution ends with the outer call returned, then the result was
/// captured, shutdown was sent, and all `n` workers — no others — exited
/// first.
pub proof fn lemma_pool_graceful_drain(t: Seq<PoolState>, n: nat)
    requires
        is_pool_trace(t, n),
        t.last().returned,
    ensures
        t.last().result_captured,
        t.last().shutdown_sent,
        forall|i: nat| i < n <==> t.last().exited.contains(i),
{
    let k = t.len() - 1;
    lemma_pool_trace_inv(t, n, k);
    lemma_pool_trace_workers(t, n, k);
}

} // verus!
