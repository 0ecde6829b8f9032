use confessions_mxe::counter::{submit_confession, try_submit_confession, ConfessionInput, ConfessionResult};
use confessions_mxe::gateway::{decrypt, encrypt, Ciphertext, GatewayError, KeyRef};

fn input(n: u64) -> Ciphertext<ConfessionInput> {
    encrypt(ConfessionInput { content_hash: n, category: 1 }, KeyRef::Shared(n))
}

#[test]
fn three_submissions_take_one_two_three() {
    let mut counter = encrypt(0u64, KeyRef::Cluster);
    let mut ids = Vec::new();
    for n in 0..3u64 {
        let (next, receipt) = submit_confession(input(n), counter).unwrap();
        assert_eq!(next.bound_key(), KeyRef::Cluster);
        assert_eq!(receipt.bound_key(), KeyRef::Shared(n));
        let result = decrypt(&receipt, KeyRef::Shared(n)).unwrap();
        assert!(result.success);
        ids.push(result.confession_id);
        counter = next;
    }
    assert_eq!(ids, vec![1, 2, 3]);
    assert_eq!(decrypt(&counter, KeyRef::Cluster), Ok(3));
}

#[test]
fn sequence_from_any_start_is_consecutive() {
    let start = 1_000_000u64;
    let mut counter = encrypt(start, KeyRef::Cluster);
    for k in 1..=20u64 {
        let before = decrypt(&counter, KeyRef::Cluster).unwrap();
        let (next, receipt) = submit_confession(input(k), counter).unwrap();
        assert_eq!(decrypt(&next, KeyRef::Cluster), Ok(before + 1));
        assert_eq!(
            decrypt(&receipt, KeyRef::Shared(k)),
            Ok(ConfessionResult { success: true, confession_id: start + k })
        );
        counter = next;
    }
    assert_eq!(decrypt(&counter, KeyRef::Cluster), Ok(start + 20));
}

#[test]
fn last_step_below_the_limit() {
    let counter = encrypt(u64::MAX - 1, KeyRef::Cluster);
    let (next, receipt) = submit_confession(input(1), counter).unwrap();
    assert_eq!(decrypt(&next, KeyRef::Cluster), Ok(u64::MAX));
    assert_eq!(decrypt(&receipt, KeyRef::Shared(1)).unwrap().confession_id, u64::MAX);
}

#[test]
fn counter_under_a_party_key_is_a_key_mismatch() {
    let counter = encrypt(0u64, KeyRef::Shared(1));
    assert_eq!(submit_confession(input(1), counter).err(), Some(GatewayError::KeyMismatch));
}

#[test]
fn malformed_counter_or_input_fails() {
    let bad_counter: Ciphertext<u64> = Ciphertext::malformed(KeyRef::Cluster);
    assert_eq!(submit_confession(input(1), bad_counter).err(), Some(GatewayError::MalformedCiphertext));
    let bad_input: Ciphertext<ConfessionInput> = Ciphertext::malformed(KeyRef::Shared(1));
    let r = submit_confession(bad_input, encrypt(0u64, KeyRef::Shared(1)));
    assert_eq!(r.err(), Some(GatewayError::MalformedCiphertext));
}

#[test]
fn submitter_cannot_open_the_counter() {
    let (next, receipt) = submit_confession(input(5), encrypt(10u64, KeyRef::Cluster)).unwrap();
    assert_eq!(decrypt(&next, KeyRef::Shared(5)), Err(GatewayError::KeyMismatch));
    assert_eq!(decrypt(&receipt, KeyRef::Cluster), Err(GatewayError::KeyMismatch));
}

#[test]
fn exhausted_counter_is_declined() {
    assert!(try_submit_confession(input(1), encrypt(u64::MAX, KeyRef::Cluster)).is_none());
    let (next, receipt) = try_submit_confession(input(1), encrypt(41u64, KeyRef::Cluster)).unwrap().unwrap();
    assert_eq!(decrypt(&next, KeyRef::Cluster), Ok(42));
    assert_eq!(decrypt(&receipt, KeyRef::Shared(1)).unwrap().confession_id, 42);
    let r = try_submit_confession(input(1), encrypt(u64::MAX, KeyRef::Shared(1))).unwrap();
    assert_eq!(r.err(), Some(GatewayError::KeyMismatch));
    let bad: Ciphertext<u64> = Ciphertext::malformed(KeyRef::Cluster);
    let r = try_submit_confession(input(1), bad).unwrap();
    assert_eq!(r.err(), Some(GatewayError::MalformedCiphertext));
}
