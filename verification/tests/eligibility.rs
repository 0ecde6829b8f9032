use confessions_mxe::eligibility::{verify_reputation, verify_tier_eligibility, MemberProfile};
use confessions_mxe::gateway::{decrypt, encrypt, Ciphertext, GatewayError, KeyRef};

const MEMBER: KeyRef = KeyRef::Shared(1);
const VERIFIER: KeyRef = KeyRef::Shared(2);

fn tier_answer(tier: u8, active: bool, threshold: u8) -> bool {
    let m = MemberProfile { member_id: 5, tier, reputation: 0, active };
    let r = verify_tier_eligibility(encrypt(m, MEMBER), encrypt(threshold, MEMBER), VERIFIER).unwrap();
    decrypt(&r, VERIFIER).unwrap()
}

fn reputation_answer(reputation: u8, active: bool, threshold: u8) -> bool {
    let m = MemberProfile { member_id: 5, tier: 0, reputation, active };
    let r = verify_reputation(encrypt(m, MEMBER), encrypt(threshold, MEMBER), VERIFIER).unwrap();
    decrypt(&r, VERIFIER).unwrap()
}

#[test]
fn tier_is_a_step_over_the_full_range() {
    for threshold in [0u8, 1, 3, 128, 254, 255] {
        for tier in 0u8..=255 {
            assert_eq!(tier_answer(tier, true, threshold), tier >= threshold);
        }
    }
}

#[test]
fn reputation_is_a_step_over_the_full_range() {
    for threshold in [0u8, 1, 50, 200, 255] {
        for reputation in 0u8..=255 {
            assert_eq!(reputation_answer(reputation, true, threshold), reputation >= threshold);
        }
    }
}

#[test]
fn inactive_member_is_never_eligible() {
    assert!(!tier_answer(255, false, 0));
    assert!(!reputation_answer(255, false, 0));
    assert!(tier_answer(0, true, 0));
    assert!(reputation_answer(0, true, 0));
}

#[test]
fn tier_check_ignores_reputation_and_the_reverse() {
    let m = MemberProfile { member_id: 1, tier: 2, reputation: 200, active: true };
    let r = verify_tier_eligibility(encrypt(m, MEMBER), encrypt(3u8, MEMBER), VERIFIER).unwrap();
    assert_eq!(decrypt(&r, VERIFIER), Ok(false));
    let r = verify_reputation(encrypt(m, MEMBER), encrypt(3u8, MEMBER), VERIFIER).unwrap();
    assert_eq!(decrypt(&r, VERIFIER), Ok(true));
}

#[test]
fn only_the_verifier_opens_the_answer() {
    let m = MemberProfile { member_id: 1, tier: 9, reputation: 9, active: true };
    let r = verify_tier_eligibility(encrypt(m, MEMBER), encrypt(3u8, MEMBER), VERIFIER).unwrap();
    assert_eq!(r.bound_key(), VERIFIER);
    assert_eq!(decrypt(&r, MEMBER), Err(GatewayError::KeyMismatch));
    let r = verify_reputation(encrypt(m, MEMBER), encrypt(3u8, MEMBER), VERIFIER).unwrap();
    assert_eq!(r.bound_key(), VERIFIER);
    assert_eq!(decrypt(&r, MEMBER), Err(GatewayError::KeyMismatch));
}

#[test]
fn malformed_inputs_fail_the_check() {
    let m = MemberProfile { member_id: 1, tier: 9, reputation: 9, active: true };
    let bad_profile: Ciphertext<MemberProfile> = Ciphertext::malformed(MEMBER);
    let bad_threshold: Ciphertext<u8> = Ciphertext::malformed(MEMBER);
    let r = verify_tier_eligibility(bad_profile, encrypt(3u8, MEMBER), VERIFIER);
    assert_eq!(r.err(), Some(GatewayError::MalformedCiphertext));
    let r = verify_reputation(encrypt(m, MEMBER), bad_threshold, VERIFIER);
    assert_eq!(r.err(), Some(GatewayError::MalformedCiphertext));
}
