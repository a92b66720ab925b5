use vstd::prelude::*;

verus! {

/// One unit of work: a blob whose nonce region is varied until the hash of the blob
/// meets the target. `C` is the handle of the hashing context shared by the workers.
#[derive(Clone, Debug)]
pub struct Puzzle<C> {
    pub id: u32,
    pub context: C,
    pub blob: Vec<u8>,
    pub offset: usize,
    pub count: usize,
    pub target: u32,
}

impl<C> Puzzle<C> {
    /// The nonce region lies inside the blob.
    pub open spec fn wf(&self) -> bool {
        self.offset as int + self.count as int <= self.blob@.len()
    }

    /// The bytes of the nonce region.
    pub open spec fn region(&self) -> Seq<u8> {
        self.blob@.subrange(self.offset as int, self.offset as int + self.count as int)
    }

    /// Whether the nonce region lies inside the blob.
    pub fn is_well_formed(&self) -> (r: bool)
        ensures
            r == self.wf(),
    {
        self.count <= self.blob.len() && self.offset <= self.blob.len() - self.count
    }
}

/// A control message to one worker.
#[derive(Clone, Debug)]
pub enum Message<C> {
    /// Start hashing this puzzle, dropping any other.
    Puzzle(Puzzle<C>),
    /// Suspend hashing and wait for the next message.
    Break,
    /// End the worker.
    Terminate,
}

/// A record on the solution channel. `found` tells a genuine solution from a record
/// that carries no nonce worth submitting.
#[derive(Clone, Debug, PartialEq, Eq)]
pub struct Solution {
    pub id: u32,
    pub nonce: Vec<u8>,
    pub found: bool,
}

/// Why an operation on a worker failed.
#[derive(Clone, Copy, Debug, PartialEq, Eq)]
pub enum WorkerError {
    /// The worker's control channel has no receiver any more.
    MessageSendError,
    /// The solution channel has no receiver any more.
    SolutionSendError,
    /// The worker's control channel has no sender any more.
    RecvError,
    /// The worker was already terminated.
    Terminated,
}

/// `blob` with the bytes from `offset` on replaced by `bytes`.
pub open spec fn splice(blob: Seq<u8>, offset: int, bytes: Seq<u8>) -> Seq<u8> {
    blob.subrange(0, offset) + bytes + blob.subrange(offset + bytes.len(), blob.len() as int)
}

/// Writes `bytes` into `blob` from `offset` on.
pub fn write_region(blob: &mut Vec<u8>, offset: usize, bytes: &Vec<u8>)
    requires
        offset as int + bytes@.len() <= old(blob)@.len(),
    ensures
        final(blob)@ == splice(old(blob)@, offset as int, bytes@),
{
    let n: usize = blob.len();
    let mut i: usize = 0;
    while i < bytes.len()
        invariant
            n == blob@.len(),
            offset as int + bytes@.len() <= blob@.len(),
            blob@.len() == old(blob)@.len(),
            i <= bytes@.len(),
            blob@ == splice(old(blob)@, offset as int, bytes@.subrange(0, i as int)),
        decreases bytes@.len() - i,
    {
        blob.set(offset + i, bytes[i]);
        i = i + 1;
        assert(blob@ =~= splice(old(blob)@, offset as int, bytes@.subrange(0, i as int)));
    }
    assert(bytes@.subrange(0, i as int) =~= bytes@);
}

/// Copies the bytes of `blob` from `offset` to `offset + count`.
pub fn read_region(blob: &Vec<u8>, offset: usize, count: usize) -> (r: Vec<u8>)
    requires
        offset as int + count as int <= blob@.len(),
    ensures
        r@ == blob@.subrange(offset as int, offset as int + count as int),
{
    let n: usize = blob.len();
    let mut r: Vec<u8> = Vec::new();
    let mut i: usize = 0;
    while i < count
        invariant
            n == blob@.len(),
            offset as int + count as int <= blob@.len(),
            i <= count,
            r@ == blob@.subrange(offset as int, offset as int + i as int),
        decreases count - i,
    {
        r.push(blob[offset + i]);
        i = i + 1;
        assert(r@ =~= blob@.subrange(offset as int, offset as int + i as int));
    }
    r
}

} // verus!
