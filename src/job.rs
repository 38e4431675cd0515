use digest::Digest;
use meowhash::MeowHasher;
use vstd::prelude::*;

use crate::text::{digest_text, hex_of, truncated};

verus! {

#[verifier::external_type_specification]
#[verifier::external_body]
pub struct ExMeowHasher(MeowHasher);

/// The bytes a Meow hasher has absorbed since it was created.
pub uninterp spec fn meow_absorbed(h: MeowHasher) -> Seq<u8>;

/// The Meow digest of a byte sequence.
pub uninterp spec fn meow_digest(data: Seq<u8>) -> Seq<u8>;

/// Relies on `<MeowHasher as Digest>::new`: a fresh hasher with the default
/// seed, having absorbed nothing.
#[verifier::external_body]
fn meow_new() -> (r: MeowHasher)
    ensures
        meow_absorbed(r) == Seq::<u8>::empty(),
{
    <MeowHasher as Digest>::new()
}

/// Relies on `<MeowHasher as Digest>::update`: absorbs `chunk` after what
/// the hasher already holds.
#[verifier::external_body]
fn meow_update(h: &mut MeowHasher, chunk: &[u8])
    ensures
        meow_absorbed(*final(h)) == meow_absorbed(*old(h)) + chunk@,
{
    Digest::update(h, chunk);
}

/// Relies on `<MeowHasher as Digest>::finalize`: the digest (128 bytes,
/// its `OutputSize`) of everything absorbed.
#[verifier::external_body]
fn meow_finalize(h: MeowHasher) -> (r: Vec<u8>)
    ensures
        r@ == meow_digest(meow_absorbed(h)),
        r@.len() == 128,
{
    Digest::finalize(h).to_vec()
}

/// One file's hashing in progress: the bytes are handed over chunk by
/// chunk, in file order, by whoever reads the file.
pub struct HashJob {
    hasher: MeowHasher,
    size: u64,
}

impl HashJob {
    /// The bytes absorbed so far.
    pub closed spec fn absorbed(&self) -> Seq<u8> {
        meow_absorbed(self.hasher)
    }

    pub closed spec fn wf(&self) -> bool {
        self.size as int == meow_absorbed(self.hasher).len()
    }

    /// A job that has absorbed nothing.
    pub fn new() -> (r: HashJob)
        ensures
            r.wf(),
            r.absorbed() == Seq::<u8>::empty(),
    {
        HashJob { hasher: meow_new(), size: 0 }
    }

    /// The number of bytes absorbed so far.
    pub fn size(&self) -> (r: u64)
        requires
            self.wf(),
        ensures
            r as int == self.absorbed().len(),
    {
        self.size
    }

    /// Absorbs the next chunk of the file.
    pub fn update(&mut self, chunk: &[u8])
        requires
            old(self).wf(),
            old(self).absorbed().len() + chunk@.len() <= u64::MAX,
        ensures
            final(self).wf(),
            final(self).absorbed() == old(self).absorbed() + chunk@,
    {
        meow_update(&mut self.hasher, chunk);
        self.size = self.size + chunk.len() as u64;
    }

    /// Finalises the job: the digest as lowercase hex cut to `limit`
    /// characters, and the number of bytes hashed.
    pub fn finish(self, limit: Option<usize>) -> (r: (String, u64))
        requires
            self.wf(),
        ensures
            r.0@ == truncated(hex_of(meow_digest(self.absorbed())), limit),
            r.1 as int == self.absorbed().len(),
    {
        let size = self.size;
        let digest = meow_finalize(self.hasher);
        (digest_text(digest.as_slice(), limit), size)
    }
}

} // verus!
