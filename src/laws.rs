use vstd::prelude::*;
use crate::codec::hex_decoded;
use crate::dispatch::{solution_post, Dispatcher, Plan, DispatchError, Submission};
use crate::hashrate::{Hashrate, HASH_PER_ROUND};
use crate::protocol::{Message, Puzzle, WorkerError};
use crate::worker::{Round, Worker, WorkerCore};

verus! {

/// A worker whose attempt met the target in the batch at whose end it finds a new
/// puzzle reports that solution first, tagged with the puzzle it was searching and
/// carrying the nonce that was hashed, and only then switches to the new puzzle.
pub proof fn lemma_solution_before_switch<C>(
    c0: WorkerCore<C>,
    c1: WorkerCore<C>,
    round: Round,
    next: Puzzle<C>,
    now_ms: u64,
    c2: WorkerCore<C>,
    finish: bool,
)
    requires
        c0.phase is Hashing,
        next.wf(),
        WorkerCore::record_post(c0, true, c1, round),
        WorkerCore::receive_post(c1, Message::Puzzle(next), now_ms, c2, finish),
    ensures
        round.solution is Some,
        round.solution->0.found,
        round.solution->0.id == c0.phase->Hashing_0.id,
        round.solution->0.nonce@ == c0.hashed_nonce@,
        finish,
        c2.phase is Hashing,
        c2.phase->Hashing_0.id == next.id,
{
}

/// The key text of an answer that holds a puzzle.
pub open spec fn answer_key(q: Option<(Seq<char>, Seq<char>, usize, usize, u32, u64)>) -> Seq<char> {
    match q {
        Some((key, _, _, _, _, _)) => key,
        None => Seq::empty(),
    }
}

/// A key repeated by consecutive dispatches reuses the context: from a dispatcher with
/// no context, dispatching puzzles keyed K, K, then K' (another key) rebuilds the
/// context twice, for the first K and for K', and not for the repeated K.
pub proof fn lemma_context_reuse<W, C>(
    d0: Dispatcher<W, C>,
    d1: Dispatcher<W, C>,
    d2: Dispatcher<W, C>,
    d3: Dispatcher<W, C>,
    q1: Option<(Seq<char>, Seq<char>, usize, usize, u32, u64)>,
    q2: Option<(Seq<char>, Seq<char>, usize, usize, u32, u64)>,
    q3: Option<(Seq<char>, Seq<char>, usize, usize, u32, u64)>,
    r1: Result<Plan, DispatchError>,
    r2: Result<Plan, DispatchError>,
    r3: Result<Plan, DispatchError>,
    key: Seq<u8>,
    other_key: Seq<u8>,
)
    requires
        d0.cached_key() is None,
        Dispatcher::process_post(d0, q1, d1, r1),
        Dispatcher::process_post(d1, q2, d2, r2),
        Dispatcher::process_post(d2, q3, d3, r3),
        r1 is Ok && r1->Ok_0 is Dispatch,
        r2 is Ok && r2->Ok_0 is Dispatch,
        r3 is Ok && r3->Ok_0 is Dispatch,
        q1 is Some && hex_decoded(answer_key(q1)) == Some(key),
        q2 is Some && hex_decoded(answer_key(q2)) == Some(key),
        q3 is Some && hex_decoded(answer_key(q3)) == Some(other_key),
        other_key != key,
    ensures
        r1->Ok_0->Dispatch_0.rebuild,
        !r2->Ok_0->Dispatch_0.rebuild,
        r3->Ok_0->Dispatch_0.rebuild,
{
}

/// Suspending a worker that is already waiting changes nothing and ends no search.
pub proof fn lemma_idle_break_is_noop<C>(c0: WorkerCore<C>, now_ms: u64, c1: WorkerCore<C>, finish: bool)
    requires
        c0.phase is Idle,
        WorkerCore::receive_post(c0, Message::Break, now_ms, c1, finish),
    ensures
        c1 == c0,
        !finish,
{
}

/// Terminating a worker twice hands out its thread's handle once: the second call
/// fails with `Terminated` and changes nothing.
pub proof fn lemma_terminate_once<S, H>(
    w0: Worker<S, H>,
    w1: Worker<S, H>,
    w2: Worker<S, H>,
    r1: Result<H, WorkerError>,
    r2: Result<H, WorkerError>,
)
    requires
        w0.alive(),
        Worker::terminate_post(w0, w1, r1),
        Worker::terminate_post(w1, w2, r2),
    ensures
        r1 is Ok,
        r2 == Err::<H, WorkerError>(WorkerError::Terminated),
        w2 == w1,
{
}

/// The same answer processed twice in a row is dispatched at most once: the second
/// time nothing is to be done and the dispatcher is left as it was.
pub proof fn lemma_same_answer_once<W, C>(
    d0: Dispatcher<W, C>,
    d1: Dispatcher<W, C>,
    d2: Dispatcher<W, C>,
    q: Option<(Seq<char>, Seq<char>, usize, usize, u32, u64)>,
    r1: Result<Plan, DispatchError>,
    r2: Result<Plan, DispatchError>,
)
    requires
        Dispatcher::process_post(d0, q, d1, r1),
        Dispatcher::process_post(d1, q, d2, r2),
    ensures
        r2 is Ok && r2->Ok_0 is Unchanged,
        d2 == d1,
{
}

/// In pool mode a worker that reports a solution keeps searching: no suspension is
/// asked for, and its next complete batch yields a rate sample. Otherwise every
/// worker is suspended, and a suspended worker yields no sample until a new puzzle.
pub proof fn lemma_pool_mode_keeps_hashing<C>(
    c0: WorkerCore<C>,
    c1: WorkerCore<C>,
    round: Round,
    pool: bool,
    sub: Option<Submission>,
    now_ms: u64,
    c2: WorkerCore<C>,
    sample: Option<(u32, Hashrate)>,
)
    requires
        c0.phase is Hashing,
        WorkerCore::record_post(c0, true, c1, round),
        solution_post(round.solution->0, pool, sub),
        pool ==> WorkerCore::end_batch_post(c1, now_ms, c2, sample),
    ensures
        sub is Some,
        sub->0.suspend_all == !pool,
        c1.phase is Hashing,
        pool && c1.counter >= HASH_PER_ROUND ==> sample is Some,
{
}

/// A suspended worker yields no rate sample, whenever its batch is ended.
pub proof fn lemma_suspended_no_sample<C>(
    c0: WorkerCore<C>,
    now_ms: u64,
    c1: WorkerCore<C>,
    finish: bool,
    later_ms: u64,
    c2: WorkerCore<C>,
    sample: Option<(u32, Hashrate)>,
)
    requires
        !(c0.phase is Terminated),
        WorkerCore::receive_post(c0, Message::Break, now_ms, c1, finish),
        WorkerCore::end_batch_post(c1, later_ms, c2, sample),
    ensures
        sample is None,
        c2 == c1,
{
}

} // verus!
