use vstd::prelude::*;
use crate::codec::{decode_hex, encode_hex, hex_decoded, hex_encoded};
use crate::protocol::Solution;

verus! {

/// A puzzle as the coordinator describes it: key and blob in hexadecimal, the nonce
/// region, and the difficulty target.
pub struct Request {
    pub key: String,
    pub blob: String,
    pub offset: usize,
    pub size: usize,
    pub target: u32,
    pub reward: u64,
}

/// One answer of the coordinator: a puzzle, or none when there is no work.
pub struct RequestWrapper {
    pub puzzle: Option<Request>,
}

impl View for Request {
    type V = (Seq<char>, Seq<char>, usize, usize, u32, u64);

    open spec fn view(&self) -> Self::V {
        (self.key@, self.blob@, self.offset, self.size, self.target, self.reward)
    }
}

impl View for RequestWrapper {
    type V = Option<(Seq<char>, Seq<char>, usize, usize, u32, u64)>;

    open spec fn view(&self) -> Self::V {
        match self.puzzle {
            Some(r) => Some(r@),
            None => None,
        }
    }
}

impl Request {
    /// A copy of this request.
    pub fn duplicate(&self) -> (r: Request)
        ensures
            r@ == self@,
    {
        Request {
            key: self.key.clone(),
            blob: self.blob.clone(),
            offset: self.offset,
            size: self.size,
            target: self.target,
            reward: self.reward,
        }
    }

    /// Whether two requests are equal field by field.
    pub fn same_as(&self, other: &Request) -> (r: bool)
        ensures
            r == (self@ == other@),
    {
        self.offset == other.offset && self.size == other.size && self.target == other.target
            && self.reward == other.reward && self.key == other.key && self.blob == other.blob
    }
}

impl RequestWrapper {
    /// A copy of this answer.
    pub fn duplicate(&self) -> (r: RequestWrapper)
        ensures
            r@ == self@,
    {
        match &self.puzzle {
            Some(p) => RequestWrapper { puzzle: Some(p.duplicate()) },
            None => RequestWrapper { puzzle: None },
        }
    }

    /// Whether two answers are equal, structurally over every field.
    pub fn same_as(&self, other: &RequestWrapper) -> (r: bool)
        ensures
            r == (self@ == other@),
    {
        match (&self.puzzle, &other.puzzle) {
            (Some(a), Some(b)) => a.same_as(b),
            (None, None) => true,
            _ => false,
        }
    }
}

/// Why an answer of the coordinator was not dispatched.
#[derive(Clone, Copy, Debug, PartialEq, Eq)]
pub enum DispatchError {
    /// The key or the blob is not valid hexadecimal.
    DecodeError,
    /// The nonce region does not lie inside the blob.
    InvalidRegion,
    /// Puzzle ids have run out.
    IdsExhausted,
}

/// A puzzle to broadcast, decoded, with the decisions that precede the broadcast.
pub struct Job {
    /// The hashing context must be rebuilt from `key` before the broadcast.
    pub rebuild: bool,
    /// Ids of the workers to start before the broadcast, in order.
    pub new_workers: Vec<u32>,
    pub id: u32,
    pub key: Vec<u8>,
    pub blob: Vec<u8>,
    pub offset: usize,
    pub count: usize,
    pub target: u32,
}

/// What an answer of the coordinator asks of the pool.
pub enum Plan {
    /// The answer is the one last processed: nothing is to be done.
    Unchanged,
    /// No work: every worker is to be suspended.
    Suspend,
    /// A new puzzle for every worker.
    Dispatch(Job),
}

/// Owns the pool of workers `W`, the cached hashing context `C` with the key it was
/// built from, and the counters of puzzle and worker ids.
pub struct Dispatcher<W, C> {
    threads: usize,
    cached_key: Option<Vec<u8>>,
    context: Option<C>,
    last: Option<RequestWrapper>,
    workers: Vec<W>,
    puzzle_id: u32,
    next_worker_id: u32,
}

/// Workers of `ws` whose entry in `keep` is true, in order.
pub open spec fn kept<W>(ws: Seq<W>, keep: Seq<bool>) -> Seq<W>
    decreases ws.len(),
{
    if ws.len() == 0 || keep.len() == 0 {
        Seq::empty()
    } else {
        let rest = kept(ws.drop_last(), keep.drop_last());
        if keep.last() {
            rest.push(ws.last())
        } else {
            rest
        }
    }
}

/// The ids given to `n` new workers from `next` on.
pub open spec fn id_run(next: u32, n: nat) -> Seq<u32> {
    Seq::new(n, |i: int| (next + i) as u32)
}

impl<W, C> Dispatcher<W, C> {
    pub closed spec fn threads_spec(&self) -> usize {
        self.threads
    }

    pub closed spec fn cached_key(&self) -> Option<Seq<u8>> {
        match self.cached_key {
            Some(k) => Some(k@),
            None => None,
        }
    }

    pub closed spec fn context_spec(&self) -> Option<C> {
        self.context
    }

    /// The answer last processed.
    pub closed spec fn last(&self) -> Option<Option<(Seq<char>, Seq<char>, usize, usize, u32, u64)>> {
        match self.last {
            Some(r) => Some(r@),
            None => None,
        }
    }

    pub closed spec fn workers_spec(&self) -> Seq<W> {
        self.workers@
    }

    pub closed spec fn puzzle_id_spec(&self) -> u32 {
        self.puzzle_id
    }

    pub closed spec fn next_worker_id_spec(&self) -> u32 {
        self.next_worker_id
    }

    /// Number of workers to start so that the pool reaches its size, as far as
    /// worker ids last.
    pub open spec fn missing(&self) -> nat {
        let want: nat = if self.workers_spec().len() < self.threads_spec() {
            (self.threads_spec() - self.workers_spec().len()) as nat
        } else {
            0
        };
        let room: nat = (u32::MAX - self.next_worker_id_spec()) as nat;
        if want <= room {
            want
        } else {
            room
        }
    }

    /// `d1` is `d0` with only the answer last processed set to `last`.
    pub open spec fn only_last_changed(d0: Self, d1: Self, last: Option<(Seq<char>, Seq<char>, usize, usize, u32, u64)>) -> bool {
        &&& d1.last() == Some(last)
        &&& d1.threads_spec() == d0.threads_spec()
        &&& d1.cached_key() == d0.cached_key()
        &&& d1.context_spec() == d0.context_spec()
        &&& d1.workers_spec() == d0.workers_spec()
        &&& d1.puzzle_id_spec() == d0.puzzle_id_spec()
        &&& d1.next_worker_id_spec() == d0.next_worker_id_spec()
    }

    /// What processing the answer `req` does to a dispatcher `d0`, yielding `d1` and `r`.
    pub open spec fn process_post(
        d0: Self,
        req: Option<(Seq<char>, Seq<char>, usize, usize, u32, u64)>,
        d1: Self,
        r: Result<Plan, DispatchError>,
    ) -> bool {
        if d0.last() == Some(req) {
            d1 == d0 && r is Ok && r->Ok_0 is Unchanged
        } else {
            match req {
                None => Self::only_last_changed(d0, d1, req) && r is Ok && r->Ok_0 is Suspend,
                Some((key, blob, offset, size, target, reward)) => {
                    if hex_decoded(key) is None || hex_decoded(blob) is None {
                        Self::only_last_changed(d0, d1, req) && r == Err::<Plan, DispatchError>(DispatchError::DecodeError)
                    } else if offset as int + size as int > hex_decoded(blob)->0.len() {
                        Self::only_last_changed(d0, d1, req) && r == Err::<Plan, DispatchError>(DispatchError::InvalidRegion)
                    } else if d0.puzzle_id_spec() == u32::MAX {
                        Self::only_last_changed(d0, d1, req) && r == Err::<Plan, DispatchError>(DispatchError::IdsExhausted)
                    } else {
                        let k = hex_decoded(key)->0;
                        let rebuild = d0.cached_key() != Some(k);
                        &&& r is Ok && r->Ok_0 is Dispatch
                        &&& r->Ok_0->Dispatch_0.rebuild == rebuild
                        &&& r->Ok_0->Dispatch_0.new_workers@ == id_run(d0.next_worker_id_spec(), d0.missing())
                        &&& r->Ok_0->Dispatch_0.id == d0.puzzle_id_spec()
                        &&& r->Ok_0->Dispatch_0.key@ == k
                        &&& r->Ok_0->Dispatch_0.blob@ == hex_decoded(blob)->0
                        &&& r->Ok_0->Dispatch_0.offset == offset
                        &&& r->Ok_0->Dispatch_0.count == size
                        &&& r->Ok_0->Dispatch_0.target == target
                        &&& d1.last() == Some(req)
                        &&& d1.threads_spec() == d0.threads_spec()
                        &&& d1.cached_key() == Some(k)
                        &&& d1.context_spec() == (if rebuild { None } else { d0.context_spec() })
                        &&& d1.workers_spec() == d0.workers_spec()
                        &&& d1.puzzle_id_spec() == d0.puzzle_id_spec() + 1
                        &&& d1.next_worker_id_spec() == d0.next_worker_id_spec() + d0.missing()
                    }
                },
            }
        }
    }

    /// A dispatcher for a pool of `threads` workers, with no context, no workers, and
    /// no answer processed yet.
    pub fn new(threads: usize) -> (r: Self)
        ensures
            r.threads_spec() == threads,
            r.cached_key() is None,
            r.context_spec() is None,
            r.last() is None,
            r.workers_spec() == Seq::<W>::empty(),
            r.puzzle_id_spec() == 0,
            r.next_worker_id_spec() == 0,
    {
        Dispatcher {
            threads,
            cached_key: None,
            context: None,
            last: None,
            workers: Vec::new(),
            puzzle_id: 0,
            next_worker_id: 0,
        }
    }

    /// Decides what the answer `req` asks of the pool, as `process_post` describes.
    /// An answer equal to the last one processed changes nothing. Otherwise it becomes
    /// the last one; no puzzle means suspending every worker; a puzzle is decoded,
    /// checked, and given the next puzzle id, the context is marked for rebuilding only
    /// if its key changed, and the workers that the pool lacks get the next worker ids.
    /// A puzzle that fails to decode or check changes nothing else.
    pub fn process_request(&mut self, req: &RequestWrapper) -> (r: Result<Plan, DispatchError>)
        ensures
            Self::process_post(*old(self), req@, *final(self), r),
    {
        if let Some(last) = &self.last {
            if last.same_as(req) {
                return Ok(Plan::Unchanged);
            }
        }
        self.last = Some(req.duplicate());
        let p = match &req.puzzle {
            None => {
                return Ok(Plan::Suspend);
            },
            Some(p) => p,
        };
        let key = match decode_hex(&p.key) {
            Some(k) => k,
            None => {
                return Err(DispatchError::DecodeError);
            },
        };
        let blob = match decode_hex(&p.blob) {
            Some(b) => b,
            None => {
                return Err(DispatchError::DecodeError);
            },
        };
        if p.size > blob.len() || p.offset > blob.len() - p.size {
            return Err(DispatchError::InvalidRegion);
        }
        if self.puzzle_id == u32::MAX {
            return Err(DispatchError::IdsExhausted);
        }
        let rebuild = match &self.cached_key {
            Some(k) => !same_bytes(k, &key),
            None => true,
        };
        if rebuild {
            self.context = None;
        }
        self.cached_key = Some(clone_key(&key));
        let new_workers = self.allocate_ids();
        let id = self.puzzle_id;
        self.puzzle_id = self.puzzle_id + 1;
        Ok(
            Plan::Dispatch(
                Job {
                    rebuild,
                    new_workers,
                    id,
                    key,
                    blob,
                    offset: p.offset,
                    count: p.size,
                    target: p.target,
                },
            ),
        )
    }

    /// Hands out the ids of the workers that the pool lacks.
    fn allocate_ids(&mut self) -> (r: Vec<u32>)
        ensures
            r@ == id_run(old(self).next_worker_id_spec(), old(self).missing()),
            final(self).next_worker_id_spec() == old(self).next_worker_id_spec() + old(self).missing(),
            final(self).threads_spec() == old(self).threads_spec(),
            final(self).cached_key() == old(self).cached_key(),
            final(self).context_spec() == old(self).context_spec(),
            final(self).last() == old(self).last(),
            final(self).workers_spec() == old(self).workers_spec(),
            final(self).puzzle_id_spec() == old(self).puzzle_id_spec(),
    {
        let want: usize = if self.workers.len() < self.threads {
            self.threads - self.workers.len()
        } else {
            0
        };
        let room: u32 = u32::MAX - self.next_worker_id;
        let n: u32 = if (want as u64) <= (room as u64) {
            want as u32
        } else {
            room
        };
        let start = self.next_worker_id;
        let mut ids: Vec<u32> = Vec::new();
        let mut i: u32 = 0;
        while i < n
            invariant
                i <= n,
                n as nat == old(self).missing(),
                start == old(self).next_worker_id_spec(),
                start as nat + n as nat <= u32::MAX,
                ids@ == id_run(start, i as nat),
            decreases n - i,
        {
            ids.push(start + i);
            i = i + 1;
            assert(ids@ =~= id_run(start, i as nat));
        }
        self.next_worker_id = start + n;
        ids
    }

    /// Stores the hashing context built for the cached key.
    pub fn install_context(&mut self, context: C)
        ensures
            final(self).context_spec() == Some(context),
            final(self).threads_spec() == old(self).threads_spec(),
            final(self).cached_key() == old(self).cached_key(),
            final(self).last() == old(self).last(),
            final(self).workers_spec() == old(self).workers_spec(),
            final(self).puzzle_id_spec() == old(self).puzzle_id_spec(),
            final(self).next_worker_id_spec() == old(self).next_worker_id_spec(),
    {
        self.context = Some(context);
    }

    /// The hashing context, once one is installed for the cached key.
    pub fn context(&self) -> (r: Option<&C>)
        ensures
            r == (match self.context_spec() {
                Some(c) => Some(&c),
                None => None::<&C>,
            }),
    {
        match &self.context {
            Some(c) => Some(c),
            None => None,
        }
    }

    /// Adds a started worker to the pool.
    pub fn add_worker(&mut self, worker: W)
        ensures
            final(self).workers_spec() == old(self).workers_spec().push(worker),
            final(self).threads_spec() == old(self).threads_spec(),
            final(self).cached_key() == old(self).cached_key(),
            final(self).context_spec() == old(self).context_spec(),
            final(self).last() == old(self).last(),
            final(self).puzzle_id_spec() == old(self).puzzle_id_spec(),
            final(self).next_worker_id_spec() == old(self).next_worker_id_spec(),
    {
        self.workers.push(worker);
    }

    /// The workers of the pool, in the order they were added.
    pub fn workers(&self) -> (r: &Vec<W>)
        ensures
            r@ == self.workers_spec(),
    {
        &self.workers
    }

    /// Removes every worker from the pool and hands them out.
    pub fn take_workers(&mut self) -> (r: Vec<W>)
        ensures
            r@ == old(self).workers_spec(),
            final(self).workers_spec() == Seq::<W>::empty(),
            final(self).threads_spec() == old(self).threads_spec(),
            final(self).cached_key() == old(self).cached_key(),
            final(self).context_spec() == old(self).context_spec(),
            final(self).last() == old(self).last(),
            final(self).puzzle_id_spec() == old(self).puzzle_id_spec(),
            final(self).next_worker_id_spec() == old(self).next_worker_id_spec(),
    {
        let mut taken: Vec<W> = Vec::new();
        std::mem::swap(&mut taken, &mut self.workers);
        taken
    }

    /// Keeps in the pool, in order, the workers whose entry in `delivered` is true:
    /// those that a broadcast reached. The others' threads have ended.
    pub fn prune(&mut self, delivered: &Vec<bool>)
        requires
            delivered@.len() == old(self).workers_spec().len(),
        ensures
            final(self).workers_spec() == kept(old(self).workers_spec(), delivered@),
            final(self).threads_spec() == old(self).threads_spec(),
            final(self).cached_key() == old(self).cached_key(),
            final(self).context_spec() == old(self).context_spec(),
            final(self).last() == old(self).last(),
            final(self).puzzle_id_spec() == old(self).puzzle_id_spec(),
            final(self).next_worker_id_spec() == old(self).next_worker_id_spec(),
    {
        let mut pool: Vec<W> = Vec::new();
        std::mem::swap(&mut pool, &mut self.workers);
        let ghost ws = pool@;
        let n: usize = pool.len();
        let mut out: Vec<W> = Vec::new();
        let mut i: usize = 0;
        while pool.len() > 0
            invariant
                ws.len() == n,
                ws.len() == delivered@.len(),
                i + pool@.len() == ws.len(),
                pool@ == ws.subrange(i as int, ws.len() as int),
                out@ == kept(ws.subrange(0, i as int), delivered@.subrange(0, i as int)),
            decreases pool@.len(),
        {
            let w = pool.remove(0);
            proof {
                let s = ws.subrange(0, i as int + 1);
                let d = delivered@.subrange(0, i as int + 1);
                assert(s.drop_last() =~= ws.subrange(0, i as int));
                assert(d.drop_last() =~= delivered@.subrange(0, i as int));
                assert(s.last() == w);
                assert(pool@ =~= ws.subrange(i as int + 1, ws.len() as int));
            }
            if delivered[i] {
                out.push(w);
            }
            i = i + 1;
        }
        assert(ws.subrange(0, i as int) =~= ws);
        assert(delivered@.subrange(0, i as int) =~= delivered@);
        self.workers = out;
    }
}

/// Whether two byte strings are equal.
fn same_bytes(a: &Vec<u8>, b: &Vec<u8>) -> (r: bool)
    ensures
        r == (a@ == b@),
{
    if a.len() != b.len() {
        return false;
    }
    let mut i: usize = 0;
    while i < a.len()
        invariant
            a@.len() == b@.len(),
            i <= a@.len(),
            a@.subrange(0, i as int) == b@.subrange(0, i as int),
        decreases a@.len() - i,
    {
        if a[i] != b[i] {
            assert(a@[i as int] != b@[i as int]);
            return false;
        }
        i = i + 1;
        assert(a@.subrange(0, i as int) =~= a@.subrange(0, i as int - 1).push(a@[i as int - 1]));
        assert(b@.subrange(0, i as int) =~= b@.subrange(0, i as int - 1).push(b@[i as int - 1]));
    }
    assert(a@ =~= a@.subrange(0, i as int));
    assert(b@ =~= b@.subrange(0, i as int));
    true
}

/// A copy of a key.
fn clone_key(k: &Vec<u8>) -> (r: Vec<u8>)
    ensures
        r@ == k@,
{
    let mut r: Vec<u8> = Vec::new();
    let mut i: usize = 0;
    while i < k.len()
        invariant
            i <= k@.len(),
            r@ == k@.subrange(0, i as int),
        decreases k@.len() - i,
    {
        r.push(k[i]);
        i = i + 1;
        assert(r@ =~= k@.subrange(0, i as int));
    }
    assert(k@.subrange(0, i as int) =~= k@);
    r
}

/// What the solution aggregator does with a genuine solution: whether every worker
/// is to be suspended first, and the nonce to submit, in hexadecimal.
pub struct Submission {
    pub suspend_all: bool,
    pub nonce_hex: String,
}

/// What the solution aggregator does with the record `sol`, as `handle_solution` says.
pub open spec fn solution_post(sol: Solution, pool: bool, r: Option<Submission>) -> bool {
    &&& !sol.found ==> r is None
    &&& sol.found ==> r is Some && r->0.suspend_all == !pool && r->0.nonce_hex@ == hex_encoded(sol.nonce@)
}

/// Decides what to do with a record of the solution channel. A record that is not a
/// genuine solution asks for nothing. A genuine one is submitted; unless the miner
/// runs in pool mode, every worker is suspended before that.
pub fn handle_solution(sol: &Solution, pool: bool) -> (r: Option<Submission>)
    ensures
        solution_post(*sol, pool, r),
{
    if sol.found {
        Some(Submission { suspend_all: !pool, nonce_hex: encode_hex(&sol.nonce) })
    } else {
        None
    }
}

} // verus!
