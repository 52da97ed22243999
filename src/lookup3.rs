//! Bob Jenkins' `lookup3` hash (`hashlittle`), 32-bit digest, 32-bit seed.
//!
//! <http://burtleburtle.net/bob/c/lookup3.c>
use vstd::prelude::*;

use crate::hasher::{BufHasher, FastHash};

verus! {

/// The seed used by [`hash32`] and by a [`Hasher32`] made with `new`.
pub const DEFAULT_SEED: u32 = 0;

/// The constant that every state word starts from, before length and seed are added.
pub const INIT_BASE: u32 = 0xdeadbeef;

/// Rotation of `x` left by `k` bits, for `0 < k < 32`.
pub open spec fn spec_rot(x: u32, k: u32) -> u32 {
    (x << k) | (x >> ((32 - k) as u32))
}

/// The reversible mixing step applied after each full 12-byte block.
pub open spec fn spec_mix(s: (u32, u32, u32)) -> (u32, u32, u32) {
    let (a, b, c) = s;
    let a = a.wrapping_sub(c) ^ spec_rot(c, 4);
    let c = c.wrapping_add(b);
    let b = b.wrapping_sub(a) ^ spec_rot(a, 6);
    let a = a.wrapping_add(c);
    let c = c.wrapping_sub(b) ^ spec_rot(b, 8);
    let b = b.wrapping_add(a);
    let a = a.wrapping_sub(c) ^ spec_rot(c, 16);
    let c = c.wrapping_add(b);
    let b = b.wrapping_sub(a) ^ spec_rot(a, 19);
    let a = a.wrapping_add(c);
    let c = c.wrapping_sub(b) ^ spec_rot(b, 4);
    let b = b.wrapping_add(a);
    (a, b, c)
}

/// The final mixing of the three state words; the digest is its third word.
pub open spec fn spec_final_mix(s: (u32, u32, u32)) -> (u32, u32, u32) {
    let (a, b, c) = s;
    let c = (c ^ b).wrapping_sub(spec_rot(b, 14));
    let a = (a ^ c).wrapping_sub(spec_rot(c, 11));
    let b = (b ^ a).wrapping_sub(spec_rot(a, 25));
    let c = (c ^ b).wrapping_sub(spec_rot(b, 16));
    let a = (a ^ c).wrapping_sub(spec_rot(c, 4));
    let b = (b ^ a).wrapping_sub(spec_rot(a, 14));
    let c = (c ^ b).wrapping_sub(spec_rot(b, 24));
    (a, b, c)
}

/// Byte `i` of `s` widened to 32 bits, or 0 past the end of `s`.
pub open spec fn spec_byte_at(s: Seq<u8>, i: int) -> u32 {
    if 0 <= i < s.len() {
        s[i] as u32
    } else {
        0
    }
}

/// The little-endian 32-bit word at offset `p` of `s`, with zero bytes past its end.
pub open spec fn spec_word_at(s: Seq<u8>, p: int) -> u32 {
    (spec_byte_at(s, p) + spec_byte_at(s, p + 1) * 0x100 + spec_byte_at(s, p + 2) * 0x1_0000
        + spec_byte_at(s, p + 3) * 0x100_0000) as u32
}

/// Adds the three words of the 12-byte block at offset `p` to the state.
pub open spec fn spec_absorb(st: (u32, u32, u32), s: Seq<u8>, p: int) -> (u32, u32, u32) {
    (
        st.0.wrapping_add(spec_word_at(s, p)),
        st.1.wrapping_add(spec_word_at(s, p + 4)),
        st.2.wrapping_add(spec_word_at(s, p + 8)),
    )
}

/// The value each state word starts with: the constant, plus the length
/// (taken modulo 2^32), plus the seed.
pub open spec fn spec_initial(len: nat, seed: u32) -> u32 {
    INIT_BASE.wrapping_add(len as u32).wrapping_add(seed)
}

/// The state after the first `n` blocks of `s` were absorbed and mixed.
pub open spec fn spec_mixed(s: Seq<u8>, seed: u32, n: nat) -> (u32, u32, u32)
    decreases n,
{
    if n == 0 {
        let i = spec_initial(s.len(), seed);
        (i, i, i)
    } else {
        let m = (n - 1) as nat;
        spec_mix(spec_absorb(spec_mixed(s, seed, m), s, 12 * m as int))
    }
}

/// The `lookup3` digest of `s` under `seed`. Every 12-byte block but the last
/// is absorbed and mixed; the last block, padded with zero bytes, is absorbed
/// and finally mixed. The empty sequence skips all mixing.
pub open spec fn lookup3(s: Seq<u8>, seed: u32) -> u32 {
    if s.len() == 0 {
        spec_initial(0, seed)
    } else {
        let n = ((s.len() - 1) / 12) as nat;
        spec_final_mix(spec_absorb(spec_mixed(s, seed, n), s, 12 * n as int)).2
    }
}

fn rot(x: u32, k: u32) -> (r: u32)
    requires
        0 < k < 32,
    ensures
        r == spec_rot(x, k),
{
    (x << k) | (x >> (32 - k))
}

fn mix(s: (u32, u32, u32)) -> (r: (u32, u32, u32))
    ensures
        r == spec_mix(s),
{
    let (mut a, mut b, mut c) = s;
    a = a.wrapping_sub(c) ^ rot(c, 4);
    c = c.wrapping_add(b);
    b = b.wrapping_sub(a) ^ rot(a, 6);
    a = a.wrapping_add(c);
    c = c.wrapping_sub(b) ^ rot(b, 8);
    b = b.wrapping_add(a);
    a = a.wrapping_sub(c) ^ rot(c, 16);
    c = c.wrapping_add(b);
    b = b.wrapping_sub(a) ^ rot(a, 19);
    a = a.wrapping_add(c);
    c = c.wrapping_sub(b) ^ rot(b, 4);
    b = b.wrapping_add(a);
    (a, b, c)
}

fn final_mix(s: (u32, u32, u32)) -> (r: (u32, u32, u32))
    ensures
        r == spec_final_mix(s),
{
    let (mut a, mut b, mut c) = s;
    c = (c ^ b).wrapping_sub(rot(b, 14));
    a = (a ^ c).wrapping_sub(rot(c, 11));
    b = (b ^ a).wrapping_sub(rot(a, 25));
    c = (c ^ b).wrapping_sub(rot(b, 16));
    a = (a ^ c).wrapping_sub(rot(c, 4));
    b = (b ^ a).wrapping_sub(rot(a, 14));
    c = (c ^ b).wrapping_sub(rot(b, 24));
    (a, b, c)
}

/// Byte `p + k` of `s` widened to 32 bits, or 0 past the end of `s`.
fn byte_at(s: &[u8], p: usize, k: usize) -> (r: u32)
    requires
        p <= s@.len(),
    ensures
        r == spec_byte_at(s@, p + k),
{
    if k < s.len() - p {
        s[p + k] as u32
    } else {
        0
    }
}

fn word_at(s: &[u8], p: usize, k: usize) -> (r: u32)
    requires
        p <= s@.len(),
        k <= 8,
    ensures
        r == spec_word_at(s@, p + k),
{
    byte_at(s, p, k) + byte_at(s, p, k + 1) * 0x100 + byte_at(s, p, k + 2) * 0x1_0000
        + byte_at(s, p, k + 3) * 0x100_0000
}

fn absorb(st: (u32, u32, u32), s: &[u8], p: usize) -> (r: (u32, u32, u32))
    requires
        p <= s@.len(),
    ensures
        r == spec_absorb(st, s@, p as int),
{
    (
        st.0.wrapping_add(word_at(s, p, 0)),
        st.1.wrapping_add(word_at(s, p, 4)),
        st.2.wrapping_add(word_at(s, p, 8)),
    )
}

/// `lookup3` with a 32-bit digest and a 32-bit seed.
#[derive(Clone, Copy, Default)]
pub struct Hash32;

impl FastHash for Hash32 {
    type Hash = u32;

    type Seed = u32;

    open spec fn spec_hash_with_seed(bytes: Seq<u8>, seed: u32) -> u32 {
        lookup3(bytes, seed)
    }

    open spec fn spec_default_seed() -> u32 {
        DEFAULT_SEED
    }

    fn default_seed() -> (r: u32) {
        DEFAULT_SEED
    }

    fn hash_with_seed(bytes: &[u8], seed: u32) -> (r: u32) {
        let len = bytes.len();
        let init = INIT_BASE.wrapping_add(len as u32).wrapping_add(seed);
        if len == 0 {
            return init;
        }
        let mut st = (init, init, init);
        let mut p: usize = 0;
        let ghost mut n: nat = 0;
        while len - p > 12
            invariant
                len == bytes@.len(),
                p < len,
                p == 12 * n,
                st == spec_mixed(bytes@, seed, n),
            decreases len - p,
        {
            st = mix(absorb(st, bytes, p));
            p = p + 12;
            proof {
                n = n + 1;
            }
        }
        assert(n == (len - 1) / 12);
        final_mix(absorb(st, bytes, p)).2
    }
}

/// The digest of the empty sequence is the starting constant plus the seed:
/// it skips all mixing.
pub proof fn lemma_empty_digest(seed: u32)
    ensures
        lookup3(Seq::empty(), seed) == INIT_BASE.wrapping_add(seed),
{
}

/// The seed has an observable effect: some input has different digests under
/// two different seeds.
pub proof fn lemma_seed_changes_digest()
    ensures
        exists|b: Seq<u8>, s1: u32, s2: u32| s1 != s2 && lookup3(b, s1) != lookup3(b, s2),
{
    lemma_empty_digest(0);
    lemma_empty_digest(1);
    assert(lookup3(Seq::empty(), 0) != lookup3(Seq::empty(), 1));
}

/// An incremental `lookup3` hasher: it buffers the bytes written and hashes
/// them all on each `digest` or `finish`.
pub type Hasher32 = BufHasher<Hash32>;

impl std::hash::Hasher for Hasher32 {
    /// The digest of everything written so far, widened to 64 bits.
    fn finish(&self) -> (r: u64)
        ensures
            r == lookup3(self.written(), self.seed()) as u64,
    {
        self.digest() as u64
    }

    /// Appends `bytes` to what was written.
    fn write(&mut self, bytes: &[u8])
        ensures
            final(self).seed() == old(self).seed(),
            final(self).written() == old(self).written() + bytes@,
    {
        BufHasher::write(self, bytes)
    }
}

/// `lookup3` 32-bit hash of a byte array, under the default seed.
pub fn hash32(v: &[u8]) -> (r: u32)
    ensures
        r == lookup3(v@, DEFAULT_SEED),
{
    Hash32::hash(v)
}

/// `lookup3` 32-bit hash of a byte array, with a 32-bit seed hashed into the result.
pub fn hash32_with_seed(v: &[u8], seed: u32) -> (r: u32)
    ensures
        r == lookup3(v@, seed),
{
    Hash32::hash_with_seed(v, seed)
}

} // verus!
