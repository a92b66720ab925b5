use vstd::prelude::*;
use crate::hashrate::{ema, instant_rate_spec, Hashrate, Sampler, HASH_PER_ROUND};
use crate::protocol::{read_region, splice, write_region, Message, Puzzle, Solution, WorkerError};

verus! {

/// Relies on rand's `thread_rng` and `RngCore::fill_bytes`: `len` bytes drawn from the
/// thread-local generator. Nothing is promised of their values.
#[verifier::external_body]
fn random_bytes(len: usize) -> (r: Vec<u8>)
    ensures
        r@.len() == len,
{
    let mut bytes = vec![0u8; len];
    rand::RngCore::fill_bytes(&mut rand::thread_rng(), &mut bytes);
    bytes
}

/// Where a worker stands between two control messages.
pub enum Phase<C> {
    /// Waiting for a message.
    Idle,
    /// Searching for a nonce of this puzzle.
    Hashing(Puzzle<C>),
    /// Ended; the worker takes no more messages.
    Terminated,
}

/// The decisions of one worker thread: which puzzle it searches, the nonce whose hash
/// is in flight, how many attempts the current batch has made, and its rate estimate.
/// The thread that drives it does the blocking receive, the hashing and the sending.
pub struct WorkerCore<C> {
    pub worker_id: u32,
    pub phase: Phase<C>,
    /// The nonce of the blob state whose hash the hasher returns next.
    pub hashed_nonce: Vec<u8>,
    /// Hash attempts in the current batch.
    pub counter: u64,
    pub sampler: Sampler,
}

/// What one hash attempt yields: a solution if the output met the target, and whether
/// the batch is complete, so that the control channel must be polled.
pub struct Round {
    pub solution: Option<Solution>,
    pub poll_due: bool,
}

/// `q` is `p` at the start of a search: the same puzzle with a fresh nonce region.
pub open spec fn started<C>(p: Puzzle<C>, q: Puzzle<C>) -> bool {
    &&& q.id == p.id
    &&& q.context == p.context
    &&& q.offset == p.offset
    &&& q.count == p.count
    &&& q.target == p.target
    &&& q.blob@.len() == p.blob@.len()
    &&& q.blob@ == splice(p.blob@, p.offset as int, q.region())
}

impl<C> WorkerCore<C> {
    pub open spec fn wf(&self) -> bool {
        &&& self.counter <= HASH_PER_ROUND
        &&& self.phase is Hashing ==> self.phase->Hashing_0.wf()
    }

    /// What receiving `msg` at `now_ms` does to a worker in state `c0`, yielding `c1`;
    /// `finish` tells whether the search in progress ended, so that its hasher must be
    /// finalized. A new search starts with a fresh nonce region and a new sampling
    /// window; a puzzle whose nonce region lies outside its blob is dropped and the
    /// worker waits again.
    pub open spec fn receive_post(c0: Self, msg: Message<C>, now_ms: u64, c1: Self, finish: bool) -> bool {
        if c0.phase is Terminated {
            c1 == c0 && !finish
        } else {
            &&& finish == (c0.phase is Hashing)
            &&& c1.worker_id == c0.worker_id
            &&& c1.sampler.value == c0.sampler.value
            &&& match msg {
                Message::Break => if c0.phase is Idle {
                    c1 == c0
                } else {
                    c1.phase is Idle && c1.counter == 0
                },
                Message::Terminate => c1.phase is Terminated,
                Message::Puzzle(p) => if p.wf() {
                    &&& c1.phase is Hashing
                    &&& started(p, c1.phase->Hashing_0)
                    &&& c1.hashed_nonce@ == c1.phase->Hashing_0.region()
                    &&& c1.counter == 0
                    &&& c1.sampler.window_start_ms == now_ms
                } else {
                    c1.phase is Idle && c1.counter == 0
                },
            }
        }
    }

    /// One hash attempt whose output did or did not meet the target (`meets`), by a
    /// worker in state `c0`, yielding `c1` and `r`.
    pub open spec fn record_post(c0: Self, meets: bool, c1: Self, r: Round) -> bool {
        if c0.phase is Hashing {
            let p = c0.phase->Hashing_0;
            &&& c1.phase == c0.phase
            &&& c1.worker_id == c0.worker_id
            &&& c1.hashed_nonce == c0.hashed_nonce
            &&& c1.sampler == c0.sampler
            &&& c1.counter == (if c0.counter < HASH_PER_ROUND { c0.counter + 1 } else { c0.counter as int })
            &&& r.solution is Some == meets
            &&& meets ==> r.solution->0.id == p.id && r.solution->0.nonce@ == c0.hashed_nonce@
                && r.solution->0.found
            &&& r.poll_due == (c1.counter >= HASH_PER_ROUND)
        } else {
            c1 == c0 && r.solution is None && !r.poll_due
        }
    }

    /// Ending a batch at `now_ms` in state `c0`, yielding `c1` and `r`: a complete batch of
    /// a searching worker yields a rate sample; anything else yields none.
    pub open spec fn end_batch_post(c0: Self, now_ms: u64, c1: Self, r: Option<(u32, Hashrate)>) -> bool {
        if c0.phase is Hashing && c0.counter >= HASH_PER_ROUND {
            &&& r == Some((c0.worker_id, c1.sampler.value))
            &&& c1.counter == 0
            &&& c1.phase == c0.phase
            &&& c1.worker_id == c0.worker_id
            &&& c1.hashed_nonce == c0.hashed_nonce
            &&& c1.sampler.window_start_ms == now_ms
            &&& now_ms > c0.sampler.window_start_ms ==> c1.sampler.value.0 == ema(
                c0.sampler.value.0 as nat,
                instant_rate_spec(c0.counter, (now_ms - c0.sampler.window_start_ms) as u64) as nat,
            )
            &&& now_ms <= c0.sampler.window_start_ms ==> c1.sampler.value == c0.sampler.value
        } else {
            r is None && c1 == c0
        }
    }

    /// A worker waiting for its first message.
    pub fn new(worker_id: u32, now_ms: u64) -> (r: Self)
        ensures
            r.wf(),
            r.worker_id == worker_id,
            r.phase is Idle,
            r.counter == 0,
            r.sampler == Sampler::new_spec(now_ms),
    {
        WorkerCore {
            worker_id,
            phase: Phase::Idle,
            hashed_nonce: Vec::new(),
            counter: 0,
            sampler: Sampler::new(now_ms),
        }
    }

    /// Whether the worker is searching a puzzle.
    pub fn is_hashing(&self) -> (r: bool)
        ensures
            r == (self.phase is Hashing),
    {
        match self.phase {
            Phase::Hashing(_) => true,
            _ => false,
        }
    }

    /// Whether the worker has ended.
    pub fn is_terminated(&self) -> (r: bool)
        ensures
            r == (self.phase is Terminated),
    {
        match self.phase {
            Phase::Terminated => true,
            _ => false,
        }
    }

    /// Applies a control message received at `now_ms`, as `receive_post` describes.
    pub fn receive(&mut self, msg: Message<C>, now_ms: u64) -> (finish: bool)
        requires
            old(self).wf(),
        ensures
            final(self).wf(),
            Self::receive_post(*old(self), msg, now_ms, *final(self), finish),
    {
        if self.is_terminated() {
            return false;
        }
        let finish = self.is_hashing();
        match msg {
            Message::Break => {
                if finish {
                    self.phase = Phase::Idle;
                    self.counter = 0;
                }
            },
            Message::Terminate => {
                self.phase = Phase::Terminated;
            },
            Message::Puzzle(p) => {
                if p.is_well_formed() {
                    let mut p = p;
                    let fresh = random_bytes(p.count);
                    write_region(&mut p.blob, p.offset, &fresh);
                    proof {
                        assert(p.blob@.subrange(p.offset as int, p.offset as int + p.count as int) =~= fresh@);
                    }
                    self.hashed_nonce = fresh;
                    self.phase = Phase::Hashing(p);
                    self.counter = 0;
                    self.sampler.window_start_ms = now_ms;
                } else {
                    self.phase = Phase::Idle;
                    self.counter = 0;
                }
            },
        }
        finish
    }

    /// The blob of the puzzle being searched, as it stands.
    pub fn blob(&self) -> (r: Option<&Vec<u8>>)
        ensures
            self.phase is Hashing ==> r == Some(&self.phase->Hashing_0.blob),
            !(self.phase is Hashing) ==> r is None,
    {
        match &self.phase {
            Phase::Hashing(p) => Some(&p.blob),
            _ => None,
        }
    }

    /// Moves the search one step on: the nonce now in the blob becomes the one whose
    /// hash is in flight, and the region is refilled with fresh bytes. Returns whether
    /// the worker was searching; otherwise nothing changes.
    pub fn advance(&mut self) -> (r: bool)
        requires
            old(self).wf(),
        ensures
            final(self).wf(),
            r == (old(self).phase is Hashing),
            final(self).worker_id == old(self).worker_id,
            final(self).counter == old(self).counter,
            final(self).sampler == old(self).sampler,
            !r ==> *final(self) == *old(self),
            r ==> final(self).phase is Hashing && final(self).hashed_nonce@ == old(
                self,
            ).phase->Hashing_0.region() && started(
                old(self).phase->Hashing_0,
                final(self).phase->Hashing_0,
            ),
    {
        let ghost c0 = *self;
        let mut phase = Phase::Idle;
        std::mem::swap(&mut phase, &mut self.phase);
        match phase {
            Phase::Hashing(p) => {
                let mut p = p;
                self.hashed_nonce = read_region(&p.blob, p.offset, p.count);
                let fresh = random_bytes(p.count);
                write_region(&mut p.blob, p.offset, &fresh);
                proof {
                    assert(p.blob@.subrange(p.offset as int, p.offset as int + p.count as int) =~= fresh@);
                }
                self.phase = Phase::Hashing(p);
                true
            },
            other => {
                self.phase = other;
                proof {
                    assert(*self == c0);
                }
                false
            },
        }
    }

    /// Records one hash attempt whose output did or did not meet the target, as
    /// `record_post` describes. A solution carries the nonce whose hash was tested.
    pub fn record(&mut self, meets: bool) -> (r: Round)
        requires
            old(self).wf(),
        ensures
            final(self).wf(),
            Self::record_post(*old(self), meets, *final(self), r),
    {
        match &self.phase {
            Phase::Hashing(p) => {
                let id = p.id;
                if self.counter < HASH_PER_ROUND {
                    self.counter = self.counter + 1;
                }
                let solution = if meets {
                    Some(Solution { id, nonce: clone_bytes(&self.hashed_nonce), found: true })
                } else {
                    None
                };
                Round { solution, poll_due: self.counter >= HASH_PER_ROUND }
            },
            _ => Round { solution: None, poll_due: false },
        }
    }

    /// Ends a complete batch in which no control message was pending: the batch's
    /// rate is folded into the estimate at `now_ms` and a new batch starts. Returns the
    /// worker's id and its new estimate; `None`, with nothing changed, when the worker
    /// is not searching or the batch is not complete.
    pub fn end_batch(&mut self, now_ms: u64) -> (r: Option<(u32, Hashrate)>)
        requires
            old(self).wf(),
        ensures
            final(self).wf(),
            Self::end_batch_post(*old(self), now_ms, *final(self), r),
    {
        if self.is_hashing() && self.counter >= HASH_PER_ROUND {
            let value = self.sampler.sample(self.counter, now_ms);
            self.counter = 0;
            Some((self.worker_id, value))
        } else {
            None
        }
    }
}

/// A copy of `bytes`.
fn clone_bytes(bytes: &Vec<u8>) -> (r: Vec<u8>)
    ensures
        r@ == bytes@,
{
    let r = read_region(bytes, 0, bytes.len());
    assert(r@ =~= bytes@);
    r
}

/// A worker as its owner sees it: the sending end of its control channel `S`, and the
/// handle `H` of its thread while it has not been terminated.
pub struct Worker<S, H> {
    worker_id: u32,
    chan: S,
    handle: Option<H>,
}

impl<S, H> Worker<S, H> {
    pub closed spec fn id_spec(&self) -> u32 {
        self.worker_id
    }

    /// The worker has not been terminated.
    pub open spec fn alive(&self) -> bool {
        self.handle_spec() is Some
    }

    pub closed spec fn chan_spec(&self) -> S {
        self.chan
    }

    /// The handle of the worker's thread, until it is handed out.
    pub closed spec fn handle_spec(&self) -> Option<H> {
        self.handle
    }

    /// What terminating `w0` does: the first time it hands out the thread's handle, to
    /// be joined once; after that it fails with `Terminated` and changes nothing.
    pub open spec fn terminate_post(w0: Self, w1: Self, r: Result<H, WorkerError>) -> bool {
        &&& w1.id_spec() == w0.id_spec()
        &&& w1.chan_spec() == w0.chan_spec()
        &&& !w1.alive()
        &&& w0.alive() ==> r == Ok::<H, WorkerError>(w0.handle_spec()->0)
        &&& !w0.alive() ==> r == Err::<H, WorkerError>(WorkerError::Terminated) && w1 == w0
    }

    /// A live worker with id `worker_id`, control channel `chan` and thread `handle`.
    pub fn new(worker_id: u32, chan: S, handle: H) -> (r: Self)
        ensures
            r.id_spec() == worker_id,
            r.handle_spec() == Some(handle),
            r.chan_spec() == chan,
    {
        Worker { worker_id, chan, handle: Some(handle) }
    }

    pub fn id(&self) -> (r: u32)
        ensures
            r == self.id_spec(),
    {
        self.worker_id
    }

    pub fn is_alive(&self) -> (r: bool)
        ensures
            r == self.alive(),
    {
        self.handle.is_some()
    }

    /// The control channel to send a message on, if the worker has not been terminated.
    pub fn channel(&self) -> (r: Result<&S, WorkerError>)
        ensures
            self.alive() ==> r == Ok::<&S, WorkerError>(&self.chan_spec()),
            !self.alive() ==> r == Err::<&S, WorkerError>(WorkerError::Terminated),
    {
        if self.handle.is_some() {
            Ok(&self.chan)
        } else {
            Err(WorkerError::Terminated)
        }
    }

    /// Marks the worker terminated and hands out its thread's handle, as
    /// `terminate_post` describes.
    pub fn terminate(&mut self) -> (r: Result<H, WorkerError>)
        ensures
            Self::terminate_post(*old(self), *final(self), r),
    {
        match self.handle.take() {
            Some(h) => Ok(h),
            None => Err(WorkerError::Terminated),
        }
    }
}

} // verus!
