use confessions_mxe::gateway::{decrypt, encrypt, Ciphertext, GatewayError, KeyRef};

#[test]
fn sealed_value_opens_under_recipient_key() {
    let c = encrypt(42u64, KeyRef::Shared(7));
    assert_eq!(c.bound_key(), KeyRef::Shared(7));
    assert_eq!(decrypt(&c, KeyRef::Shared(7)), Ok(42));
}

#[test]
fn wrong_key_is_a_key_mismatch() {
    let c = encrypt(42u64, KeyRef::Shared(7));
    assert_eq!(decrypt(&c, KeyRef::Shared(8)), Err(GatewayError::KeyMismatch));
    assert_eq!(decrypt(&c, KeyRef::Cluster), Err(GatewayError::KeyMismatch));
    let k = encrypt(true, KeyRef::Cluster);
    assert_eq!(decrypt(&k, KeyRef::Shared(0)), Err(GatewayError::KeyMismatch));
    assert_eq!(decrypt(&k, KeyRef::Cluster), Ok(true));
}

#[test]
fn malformed_ciphertext_is_reported_under_its_own_key() {
    let c: Ciphertext<u64> = Ciphertext::malformed(KeyRef::Shared(3));
    assert_eq!(c.bound_key(), KeyRef::Shared(3));
    assert_eq!(decrypt(&c, KeyRef::Shared(3)), Err(GatewayError::MalformedCiphertext));
}

#[test]
fn key_is_checked_before_structure() {
    let c: Ciphertext<u8> = Ciphertext::malformed(KeyRef::Cluster);
    assert_eq!(decrypt(&c, KeyRef::Shared(1)), Err(GatewayError::KeyMismatch));
}

#[test]
fn resealing_keeps_the_value() {
    let first = encrypt(9u8, KeyRef::Shared(1));
    let value = decrypt(&first, KeyRef::Shared(1)).unwrap();
    let second = encrypt(value, KeyRef::Shared(2));
    assert_eq!(decrypt(&second, KeyRef::Shared(2)), Ok(9));
    assert_eq!(decrypt(&second, KeyRef::Shared(1)), Err(GatewayError::KeyMismatch));
}
