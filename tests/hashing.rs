use rasmx_blake3::primitive::hex_digest;
use rasmx_blake3::{hash_async, hash_sync, Blake3Hasher};

const EMPTY_DIGEST: &str = "af1349b9f5f9a1a6a0404dea36dcc9499bcb25c9adc112b7cc9a93cae41f3262";
const ABC_DIGEST: &str = "6437b3ac38465133ffb63b75273a8db548c558465d79db03fd359c6cd5bd9d85";

fn lower_hex(bytes: &[u8]) -> String {
    bytes.iter().map(|b| format!("{:02x}", b)).collect()
}

#[test]
fn empty_input_digest() {
    assert_eq!(hash_sync(&[]), EMPTY_DIGEST);
}

#[test]
fn abc_digest() {
    assert_eq!(hash_sync(b"abc"), ABC_DIGEST);
}

#[test]
fn sync_digest_is_lowercase_hex_of_length_64() {
    let d = hash_sync(b"The quick brown fox jumps over the lazy dog");
    assert_eq!(d.len(), 64);
    assert!(d.chars().all(|c| c.is_ascii_digit() || ('a'..='f').contains(&c)));
}

#[test]
fn sync_is_deterministic() {
    let data = vec![7u8; 5000];
    assert_eq!(hash_sync(&data), hash_sync(&data));
}

#[test]
fn different_inputs_differ() {
    assert_ne!(hash_sync(b"abc"), hash_sync(b"abd"));
}

#[test]
fn async_matches_sync() {
    for data in [Vec::new(), b"abc".to_vec(), vec![0x5au8; 100_000]] {
        let task = hash_async(&data);
        let out = task.compute();
        assert_eq!(task.resolve(out), hash_sync(&data));
    }
}

#[test]
fn async_task_owns_its_copy() {
    let mut data = b"abc".to_vec();
    let task = hash_async(&data);
    data.clear();
    data.extend_from_slice(b"xyz");
    assert_eq!(task.compute(), ABC_DIGEST);
}

#[test]
fn async_tasks_answer_their_own_calls_in_any_order() {
    let inputs: Vec<Vec<u8>> = (0u8..8).map(|i| vec![i; 1 + i as usize * 977]).collect();
    let tasks: Vec<_> = inputs.iter().map(|d| hash_async(d)).collect();
    for i in (0..tasks.len()).rev() {
        assert_eq!(tasks[i].compute(), hash_sync(&inputs[i]));
    }
}

#[test]
fn streaming_abc_matches_sync() {
    let mut h = Blake3Hasher::new();
    h.update(b"abc");
    assert_eq!(h.digest(), hash_sync(b"abc"));
}

#[test]
fn new_hasher_digest_is_empty_digest() {
    let h = Blake3Hasher::new();
    assert_eq!(h.digest(), EMPTY_DIGEST);
}

#[test]
fn empty_update_changes_nothing() {
    let mut h = Blake3Hasher::new();
    h.update(b"abc");
    h.update(&[]);
    assert_eq!(h.digest(), ABC_DIGEST);
}

#[test]
fn chunking_does_not_matter() {
    let data: Vec<u8> = (0..10_000u32).map(|i| (i * 31 % 251) as u8).collect();
    let expected = hash_sync(&data);
    for size in [1usize, 3, 64, 1023, 1024, 1025, 4096, 9999, 10_000] {
        let mut h = Blake3Hasher::new();
        for chunk in data.chunks(size) {
            h.update(chunk);
        }
        assert_eq!(h.digest(), expected);
    }
}

#[test]
fn digest_is_repeatable() {
    let mut h = Blake3Hasher::new();
    h.update(b"hello");
    let a = h.digest();
    let b = h.digest();
    assert_eq!(a, b);
    h.update(b" world");
    assert_eq!(h.digest(), hash_sync(b"hello world"));
}

#[test]
fn reset_forgets_earlier_input() {
    let mut h = Blake3Hasher::new();
    h.update(b"something earlier");
    h.reset();
    h.update(b"abc");
    assert_eq!(h.digest(), ABC_DIGEST);
}

#[test]
fn reset_gives_empty_digest() {
    let mut h = Blake3Hasher::new();
    h.update(b"abc");
    h.reset();
    assert_eq!(h.digest(), EMPTY_DIGEST);
}

#[test]
fn binary_matches_hex() {
    let mut h = Blake3Hasher::new();
    h.update(b"abc");
    let raw = h.digest_binary();
    assert_eq!(raw.len(), 32);
    assert_eq!(lower_hex(&raw), h.digest());
    assert_eq!(hex_digest(&raw), h.digest());
}

#[test]
fn hex_digest_exact_value() {
    let mut bytes = [0u8; 32];
    bytes[0] = 0xab;
    bytes[1] = 0x05;
    bytes[31] = 0xff;
    let expected = format!("ab05{}ff", "00".repeat(29));
    assert_eq!(hex_digest(&bytes), expected);
}
