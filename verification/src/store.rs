//! The shared buffer store: process-wide state holding at most one byte
//! buffer, replaced wholesale by each successful load, guarded by a lock so
//! that no partial state is ever observable.

use vstd::prelude::*;
use vstd::rwlock::RwLock;
use vstd::rwlock::RwLockPredicate;

verus! {

/// The one recoverable failure of a load: the file at the requested path
/// could not be read (missing, permission denied, or an I/O error during
/// the read).
#[derive(Clone, Copy, Debug, PartialEq, Eq, Structural)]
pub enum LoadError {
    FileAccess,
}

/// What the store holds after a load whose file read had the given outcome:
/// a successful read installs exactly the freshly read bytes, a failed read
/// leaves the prior contents untouched.
pub open spec fn contents_after_load(
    prev: Option<Seq<u8>>,
    outcome: Result<Seq<u8>, LoadError>,
) -> Option<Seq<u8>> {
    match outcome {
        Ok(data) => Some(data),
        Err(_) => prev,
    }
}

/// A read outcome as a mathematical value: the byte sequence read, or the
/// error.
pub open spec fn outcome_view(r: Result<Vec<u8>, LoadError>) -> Result<Seq<u8>, LoadError> {
    match r {
        Ok(data) => Ok(data@),
        Err(e) => Err(e),
    }
}

/// Law: a successful load replaces the contents wholesale. Whatever the store
/// held before, afterwards it holds exactly the loaded bytes; after two
/// successive successful loads it holds exactly the second load's bytes, with
/// no residue of the first.
pub proof fn lemma_load_replaces_wholesale(prev: Option<Seq<u8>>, d1: Seq<u8>, d2: Seq<u8>)
    ensures
        contents_after_load(prev, Ok(d1)) == Some(d1),
        contents_after_load(contents_after_load(prev, Ok(d1)), Ok(d2)) == Some(d2),
{
}

/// Law: a failed load leaves the store's prior contents untouched, whatever
/// they were.
pub proof fn lemma_failed_load_preserves_contents(prev: Option<Seq<u8>>, e: LoadError)
    ensures
        contents_after_load(prev, Err(e)) == prev,
{
}

/// Law: whatever the outcome of the read, after a load the store holds either
/// the prior contents whole or the freshly read bytes whole — a byte-wise
/// mixture of the two can never arise.
pub proof fn lemma_load_admits_no_mixture(prev: Option<Seq<u8>>, outcome: Result<Seq<u8>, LoadError>)
    ensures
        contents_after_load(prev, outcome) == prev || (outcome matches Ok(data)
            && contents_after_load(prev, outcome) == Some(data)),
{
}

/// An independent, element-for-element copy of the given bytes.
fn copy_bytes(data: &Vec<u8>) -> (out: Vec<u8>)
    ensures
        out@ == data@,
{
    let mut out: Vec<u8> = Vec::new();
    let mut i: usize = 0;
    while i < data.len()
        invariant
            i <= data.len(),
            out@ == data@.subrange(0, i as int),
        decreases data.len() - i,
    {
        out.push(data[i]);
        i = i + 1;
    }
    proof {
        assert(out@ =~= data@);
    }
    out
}

/// Holder of the most recently loaded buffer. Created empty; its contents can
/// only ever be replaced wholesale, never emptied again.
pub struct BufferStore {
    contents: Option<Vec<u8>>,
}

impl View for BufferStore {
    type V = Option<Seq<u8>>;

    closed spec fn view(&self) -> Option<Seq<u8>> {
        match self.contents {
            Some(data) => Some(data@),
            None => None,
        }
    }
}

impl BufferStore {
    /// A store that holds nothing yet.
    pub fn new() -> (s: Self)
        ensures
            s@ is None,
    {
        BufferStore { contents: None }
    }

    /// Replace the contents wholesale with the freshly read bytes and hand
    /// the caller back an independent copy of exactly what was stored.
    pub fn install(&mut self, data: Vec<u8>) -> (out: Vec<u8>)
        ensures
            final(self)@ == Some(data@),
            out@ == data@,
    {
        let copy = copy_bytes(&data);
        self.contents = Some(copy);
        data
    }

    /// Apply one load, given the outcome of reading the requested file: on a
    /// successful read, install the bytes and return a faithful copy of them;
    /// on a failed read, leave the prior contents untouched and surface the
    /// error to the caller.
    pub fn load(&mut self, read_outcome: Result<Vec<u8>, LoadError>) -> (r: Result<
        Vec<u8>,
        LoadError,
    >)
        ensures
            final(self)@ == contents_after_load(old(self)@, outcome_view(read_outcome)),
            outcome_view(r) == outcome_view(read_outcome),
            r is Ok <==> read_outcome is Ok,
    {
        match read_outcome {
            Ok(data) => Ok(self.install(data)),
            Err(e) => Err(e),
        }
    }

    /// The bytes the store currently holds, if any.
    pub fn contents(&self) -> (c: &Option<Vec<u8>>)
        ensures
            *c matches Some(data) ==> self@ == Some(data@),
            *c is None ==> self@ is None,
    {
        &self.contents
    }
}

/// An independent copy of the store's contents, byte for byte.
fn copy_contents(contents: &Option<Vec<u8>>) -> (c: Option<Vec<u8>>)
    ensures
        c matches Some(data) ==> (*contents matches Some(orig) && data@ == orig@),
        c is None <==> *contents is None,
{
    match contents {
        Some(data) => Some(copy_bytes(data)),
        None => None,
    }
}

/// The values the shared store's lock may hold: every complete store state.
/// Partial states cannot arise, because the lock hands the store out and
/// takes it back only as a whole value.
pub struct StorePred {}

impl RwLockPredicate<BufferStore> for StorePred {
    open spec fn inv(self, s: BufferStore) -> bool {
        true
    }
}

/// The process-wide shared form of the buffer store: one [`BufferStore`]
/// guarded by a lock. All reads and writes of the contents happen inside the
/// smallest critical section that replaces or inspects them, so a load from
/// one thread is never observed half-written by another: a concurrent reader
/// sees either the buffer some load installed whole, or none at all, never a
/// byte-wise mixture.
pub struct SharedBufferStore {
    lock: RwLock<BufferStore, StorePred>,
}

impl SharedBufferStore {
    /// A shared store that holds nothing yet. The bytes it holds later are
    /// not part of any contract here: with other threads loading concurrently
    /// they can change between any two calls. What each call returns is
    /// pinned by its own contract instead.
    pub fn new() -> (s: Self) {
        SharedBufferStore { lock: RwLock::new(BufferStore::new(), Ghost(StorePred {})) }
    }

    /// Perform one load against the shared store, given the outcome of
    /// reading the requested file: under the exclusive lock, a successful
    /// read replaces the contents wholesale and a faithful copy of the
    /// installed bytes is returned; a failed read leaves the contents
    /// untouched and the error is surfaced to the caller.
    pub fn load(&self, read_outcome: Result<Vec<u8>, LoadError>) -> (r: Result<
        Vec<u8>,
        LoadError,
    >)
        ensures
            outcome_view(r) == outcome_view(read_outcome),
            r is Ok <==> read_outcome is Ok,
    {
        let (mut store, handle) = self.lock.acquire_write();
        let r = store.load(read_outcome);
        handle.release_write(store);
        r
    }

    /// An independent copy of the bytes the store holds at the moment the
    /// lock is taken: the whole buffer some load installed, or nothing if no
    /// load has succeeded yet. With concurrent loaders no contract can name
    /// which buffer that is.
    pub fn snapshot(&self) -> (c: Option<Vec<u8>>) {
        let handle = self.lock.acquire_read();
        let c = copy_contents(handle.borrow().contents());
        handle.release_read();
        c
    }
}

} // verus!
