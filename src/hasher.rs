//! The fingerprint-function abstraction and the buffering incremental hasher
//! built on top of it.
use vstd::prelude::*;

verus! {

/// A fast, non-cryptographic hash function over whole byte sequences.
///
/// An implementation is stateless: its digest is a function of the bytes and
/// the seed alone, given by `spec_hash_with_seed`.
pub trait FastHash {
    /// The digest type.
    type Hash;

    /// The seed type; its width is fixed per algorithm.
    type Seed: Copy;

    /// The digest of `bytes` under `seed`.
    spec fn spec_hash_with_seed(bytes: Seq<u8>, seed: Self::Seed) -> Self::Hash;

    /// The seed used when none is given.
    spec fn spec_default_seed() -> Self::Seed;

    /// Returns the seed used when none is given.
    fn default_seed() -> (r: Self::Seed)
        ensures
            r == Self::spec_default_seed(),
    ;

    /// Hashes `bytes` under `seed`.
    fn hash_with_seed(bytes: &[u8], seed: Self::Seed) -> (r: Self::Hash)
        ensures
            r == Self::spec_hash_with_seed(bytes@, seed),
    ;

    /// Hashes `bytes` under the default seed.
    fn hash(bytes: &[u8]) -> (r: Self::Hash)
        ensures
            r == Self::spec_hash_with_seed(bytes@, Self::spec_default_seed()),
    {
        let seed = Self::default_seed();
        Self::hash_with_seed(bytes, seed)
    }
}

/// An incremental hasher over any [`FastHash`]: it keeps every byte written
/// so far and hashes them all, with the seed it was made with, on `digest`.
///
/// `digest` neither consumes nor clears the buffer, so writes and digests may
/// alternate freely. Each algorithm's ready-made adapter also implements
/// `std::hash::Hasher`, whose `finish` is `digest` widened to 64 bits.
pub struct BufHasher<H: FastHash> {
    seed: H::Seed,
    bytes: Vec<u8>,
}

impl<H: FastHash> BufHasher<H> {
    /// The seed this hasher was made with.
    pub closed spec fn seed(&self) -> H::Seed {
        self.seed
    }

    /// All bytes written so far, in order.
    pub closed spec fn written(&self) -> Seq<u8> {
        self.bytes@
    }

    /// An empty hasher with the algorithm's default seed.
    pub fn new() -> (r: Self)
        ensures
            r.seed() == H::spec_default_seed(),
            r.written() == Seq::<u8>::empty(),
    {
        BufHasher { seed: H::default_seed(), bytes: Vec::new() }
    }

    /// An empty hasher with the given seed.
    pub fn with_seed(seed: H::Seed) -> (r: Self)
        ensures
            r.seed() == seed,
            r.written() == Seq::<u8>::empty(),
    {
        BufHasher { seed, bytes: Vec::new() }
    }

    /// Appends `bytes` to what was written.
    pub fn write(&mut self, bytes: &[u8])
        ensures
            final(self).seed() == old(self).seed(),
            final(self).written() == old(self).written() + bytes@,
    {
        self.bytes.extend_from_slice(bytes);
        assert(self.bytes@ =~= old(self).bytes@ + bytes@);
    }

    /// The digest of everything written so far, under the hasher's seed.
    ///
    /// The hasher is left as it was, so asking again with no write in
    /// between gives the same digest.
    pub fn digest(&self) -> (r: H::Hash)
        ensures
            r == H::spec_hash_with_seed(self.written(), self.seed()),
    {
        H::hash_with_seed(self.bytes.as_slice(), self.seed)
    }
}

/// What a hasher holds after `write` was called with each of `chunks` in
/// turn, starting from `start`.
pub open spec fn written_after(start: Seq<u8>, chunks: Seq<Seq<u8>>) -> Seq<u8> {
    chunks.fold_left(start, |acc: Seq<u8>, c: Seq<u8>| acc + c)
}

/// Writing chunks one after another appends their concatenation.
pub proof fn lemma_writes_concatenate(start: Seq<u8>, chunks: Seq<Seq<u8>>)
    ensures
        written_after(start, chunks) == start + chunks.flatten(),
    decreases chunks.len(),
{
    chunks.lemma_flatten_and_flatten_alt_are_equivalent();
    if chunks.len() == 0 {
        assert(start + chunks.flatten() =~= start);
    } else {
        lemma_writes_concatenate(start, chunks.drop_last());
        chunks.drop_last().lemma_flatten_and_flatten_alt_are_equivalent();
        assert(written_after(start, chunks) =~= start + chunks.flatten_alt());
    }
}

/// For every algorithm and seed, splitting `b` into chunks, writing them in
/// order into a fresh hasher and taking its digest gives the whole-buffer digest of `b`.
pub proof fn lemma_incremental_matches_whole<H: FastHash>(
    seed: H::Seed,
    chunks: Seq<Seq<u8>>,
    b: Seq<u8>,
)
    requires
        chunks.flatten() == b,
    ensures
        H::spec_hash_with_seed(written_after(Seq::empty(), chunks), seed)
            == H::spec_hash_with_seed(b, seed),
{
    lemma_writes_concatenate(Seq::empty(), chunks);
    assert(Seq::<u8>::empty() + b =~= b);
}

impl<H: FastHash> Default for BufHasher<H> {
    /// Same as [`BufHasher::new`].
    fn default() -> (r: Self)
        ensures
            r.seed() == H::spec_default_seed(),
            r.written() == Seq::<u8>::empty(),
    {
        Self::new()
    }
}

} // verus!
