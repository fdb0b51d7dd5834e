//! SHA-256 over byte strings, in one piece or in chunks.
use sha2::Digest;
use vstd::prelude::*;

verus! {

/// The running state of a SHA-256 computation.
#[verifier::external_type_specification]
#[verifier::external_body]
pub struct ExSha256(sha2::Sha256);

/// The bytes that a running computation has taken in so far.
pub uninterp spec fn absorbed(hasher: sha2::Sha256) -> Seq<u8>;

/// The SHA-256 digest of `data`.
pub uninterp spec fn sha256(data: Seq<u8>) -> Seq<u8>;

/// `sha2::Sha256::new` starts a computation that has taken in nothing.
#[verifier::external_body]
fn new_hasher() -> (r: sha2::Sha256)
    ensures
        absorbed(r) == Seq::<u8>::empty(),
{
    sha2::Sha256::new()
}

/// `Digest::update` takes in `data` after everything taken in before.
#[verifier::external_body]
fn update_hasher(hasher: &mut sha2::Sha256, data: &[u8])
    ensures
        absorbed(*final(hasher)) == absorbed(*old(hasher)) + data@,
{
    hasher.update(data);
}

/// `Digest::finalize` yields the digest of all the bytes taken in.
#[verifier::external_body]
fn finish_hasher(hasher: sha2::Sha256) -> (r: [u8; 32])
    ensures
        r@ == sha256(absorbed(hasher)),
{
    hasher.finalize().into()
}

/// A SHA-256 computation over data that arrives in chunks.
pub struct ChunkHasher {
    state: sha2::Sha256,
}

impl View for ChunkHasher {
    type V = Seq<u8>;

    closed spec fn view(&self) -> Seq<u8> {
        absorbed(self.state)
    }
}

impl ChunkHasher {
    /// A computation that has taken in nothing.
    pub fn new() -> (r: Self)
        ensures
            r@ == Seq::<u8>::empty(),
    {
        ChunkHasher { state: new_hasher() }
    }

    /// Takes in the next chunk.
    pub fn update(&mut self, data: &[u8])
        ensures
            final(self)@ == old(self)@ + data@,
    {
        update_hasher(&mut self.state, data);
    }

    /// The digest of everything taken in.
    pub fn finish(self) -> (r: [u8; 32])
        ensures
            r@ == sha256(self@),
    {
        finish_hasher(self.state)
    }
}

/// The digest of `data`.
pub fn digest(data: &[u8]) -> (r: [u8; 32])
    ensures
        r@ == sha256(data@),
{
    let mut hasher = ChunkHasher::new();
    hasher.update(data);
    assert(hasher@ =~= data@);
    hasher.finish()
}

} // verus!
