use std::hash::{Hash, Hasher};

use fasthash::lookup3::{hash32, hash32_with_seed, Hash32, Hasher32, DEFAULT_SEED};
use fasthash::{BufHasher, FastHash, Lookup3Hasher};

fn hash_value<T: Hash>(t: &T) -> u64 {
    let mut s: Lookup3Hasher = Default::default();
    t.hash(&mut s);
    Hasher::finish(&s)
}

#[test]
fn known_digests() {
    assert_eq!(hash32(b"hello"), 885767278);
    assert_eq!(hash32_with_seed(b"hello", 123), 632258402);
    assert_eq!(hash32(b"helloworld"), 1392336737);
}

#[test]
fn trait_functions_match_free_functions() {
    assert_eq!(Hash32::hash(b"hello"), 885767278);
    assert_eq!(Hash32::hash_with_seed(b"hello", 123), 632258402);
    assert_eq!(Hash32::hash(b"helloworld"), 1392336737);
    assert_eq!(Hash32::default_seed(), DEFAULT_SEED);
}

#[test]
fn hasher_write_then_finish() {
    let mut h = Hasher32::new();
    h.write(b"hello");
    assert_eq!(h.finish(), 885767278);
    h.write(b"world");
    assert_eq!(h.finish(), 1392336737);
    assert_eq!(h.digest(), hash32(b"helloworld"));
}

#[test]
fn finish_twice_is_stable() {
    let mut h = Hasher32::new();
    h.write(b"some bytes to hash");
    let first = h.finish();
    let second = h.finish();
    assert_eq!(first, second);
    assert_eq!(first, hash32(b"some bytes to hash") as u64);
    assert_eq!(h.digest(), h.digest());
}

#[test]
fn seeded_hasher_uses_its_seed() {
    let mut h = Hasher32::with_seed(123);
    h.write(b"he");
    h.write(b"llo");
    assert_eq!(h.finish(), 632258402);
}

#[test]
fn default_seed_is_plain_hash() {
    let inputs: [&[u8]; 4] = [b"", b"a", b"hello", b"abcdefghijklmnopqrstuvwxyz"];
    for b in inputs {
        assert_eq!(hash32(b), hash32_with_seed(b, DEFAULT_SEED));
        assert_eq!(Hash32::hash(b), Hash32::hash_with_seed(b, Hash32::default_seed()));
    }
}

#[test]
fn hashing_is_deterministic() {
    let b = b"the quick brown fox jumps over the lazy dog";
    assert_eq!(hash32_with_seed(b, 99), hash32_with_seed(b, 99));
    assert_eq!(hash32(b), hash32(b));
}

#[test]
fn any_split_matches_whole_buffer() {
    let data: Vec<u8> = (0u8..40).collect();
    let whole = hash32(&data);
    for cut1 in 0..=data.len() {
        for cut2 in cut1..=data.len() {
            let mut h = Hasher32::new();
            h.write(&data[..cut1]);
            h.write(&data[cut1..cut2]);
            h.write(&data[cut2..]);
            assert_eq!(h.digest(), whole);
            assert_eq!(h.finish(), whole as u64);
        }
    }
}

#[test]
fn seed_changes_digest() {
    assert_ne!(hash32_with_seed(b"hello", 0), hash32_with_seed(b"hello", 123));
    assert_eq!(hash32_with_seed(b"", 1), 3735928560);
}

#[test]
fn empty_input() {
    assert_eq!(hash32(b""), 0xdeadbeef);
    assert_eq!(hash32(b""), hash32(b""));
    let h = Hasher32::new();
    assert_eq!(h.digest(), 0xdeadbeef);
    assert_eq!(h.finish(), 0xdeadbeef);
}

#[test]
fn block_boundaries() {
    assert_eq!(hash32(b"a"), 1490454280);
    assert_eq!(hash32(b"abcdefghijkl"), 1074985083);
    assert_eq!(hash32(b"abcdefghijklm"), 2457938169);
    let b24: Vec<u8> = (0u8..24).collect();
    let b25: Vec<u8> = (0u8..25).collect();
    assert_eq!(hash32(&b24), 2617957715);
    assert_eq!(hash32(&b25), 982000196);
    assert_eq!(hash32(b"abcdefghijklmnopqrstuvwxyz"), 1966650813);
}

#[test]
fn largest_seed_wraps() {
    assert_eq!(hash32_with_seed(&[0xffu8; 40], u32::MAX), 4093233917);
    assert_eq!(hash32_with_seed(b"hello world", 7), 1231311305);
}

#[test]
fn std_hasher_on_str() {
    assert_eq!(hash32(b"hello world\xff") as u64, hash_value(&"hello world"));
}

#[test]
fn generic_adapter_for_hash32() {
    let mut h: BufHasher<Hash32> = BufHasher::default();
    Hasher::write(&mut h, b"hello");
    assert_eq!(Hasher::finish(&h), 885767278u64);
}

#[test]
fn std_hasher_write_appends() {
    let mut h = Hasher32::new();
    Hasher::write(&mut h, b"hello");
    Hasher::write(&mut h, b"world");
    assert_eq!(Hasher::finish(&h), 1392336737u64);
    assert_eq!(h.digest(), hash32(b"helloworld"));
}
