//! Tests for the pubkey commitment scheme.

use std::str::FromStr;

use lnpbp::commit::CommitEmbedVerify;
use lnpbp::pubkey::{commitment_from_tweak, Error, Pubkey, PubkeyCommitment};

/// The compressed key of the LNPBP-1 test vector.
const VECTOR_KEY: &str = "0218845781f631c48f1c9709e23092067d06837f30aa0cd0544ac887fe91ddd166";

/// Parses a hex-encoded compressed public key into the library's type.
fn pubkey_from_hex(hex: &str) -> Pubkey {
    let pk = bitcoin::secp256k1::PublicKey::from_str(hex).unwrap();
    Pubkey::from_bytes(pk.serialize().to_vec()).unwrap()
}

/// Prefixes a message with the SHA-256 hash of a protocol tag, as the
/// calling protocol layer is expected to do before committing.
fn prefixed_message(tag: &str, msg: &str) -> Vec<u8> {
    let digest =
        <bitcoin::hashes::sha256::Hash as bitcoin::hashes::Hash>::hash(tag.as_bytes());
    let mut prefixed: Vec<u8> = bitcoin::hashes::Hash::to_byte_array(digest).to_vec();
    prefixed.extend_from_slice(msg.as_bytes());
    prefixed
}

#[test]
fn test_lnpbp1_commitment() {
    let pubkey = pubkey_from_hex(VECTOR_KEY);
    let prefixed_msg = prefixed_message("RGB", "Message to commit to");

    let commitment = PubkeyCommitment::commit_embed(pubkey, &prefixed_msg).unwrap();
    assert_eq!(commitment.verify(&prefixed_msg), true);
}

#[test]
fn commitment_projects_container() {
    let pubkey = pubkey_from_hex(VECTOR_KEY);
    let original_bytes = pubkey.as_bytes().clone();
    let msg = prefixed_message("RGB", "some message");

    let commitment = PubkeyCommitment::commit_embed(pubkey, &msg).unwrap();
    assert_eq!(commitment.original.as_bytes(), &original_bytes);
    assert_eq!(commitment.container().as_bytes(), &original_bytes);
}

#[test]
fn commitment_is_deterministic() {
    let msg = prefixed_message("RGB", "same message twice");
    let c1 = PubkeyCommitment::commit_embed(pubkey_from_hex(VECTOR_KEY), &msg).unwrap();
    let c2 = PubkeyCommitment::commit_embed(pubkey_from_hex(VECTOR_KEY), &msg).unwrap();
    assert_eq!(c1.tweaked.as_bytes(), c2.tweaked.as_bytes());
    assert_eq!(c1.original.as_bytes(), c2.original.as_bytes());
}

#[test]
fn distinct_messages_bind_distinct_keys() {
    let m1 = prefixed_message("RGB", "first message");
    let m2 = prefixed_message("RGB", "second message");
    let c1 = PubkeyCommitment::commit_embed(pubkey_from_hex(VECTOR_KEY), &m1).unwrap();
    let c2 = PubkeyCommitment::commit_embed(pubkey_from_hex(VECTOR_KEY), &m2).unwrap();
    assert_ne!(c1.tweaked.as_bytes(), c2.tweaked.as_bytes());
}

#[test]
fn verification_rejects_other_message() {
    let committed = prefixed_message("RGB", "the committed message");
    let other = prefixed_message("RGB", "a different message");
    let commitment =
        PubkeyCommitment::commit_embed(pubkey_from_hex(VECTOR_KEY), &committed).unwrap();
    assert_eq!(commitment.verify(&committed), true);
    assert_eq!(commitment.verify(&other), false);
}

#[test]
fn tweaking_changes_the_key() {
    let msg = prefixed_message("RGB", "any message");
    let commitment = PubkeyCommitment::commit_embed(pubkey_from_hex(VECTOR_KEY), &msg).unwrap();
    assert_ne!(commitment.tweaked.as_bytes(), commitment.original.as_bytes());
}

#[test]
fn degenerate_tweak_reports_infinity_error() {
    let pubkey = pubkey_from_hex(VECTOR_KEY);
    // Stand in for a tweak-add primitive that reported an invalid result.
    let outcome = commitment_from_tweak(pubkey, None);
    assert!(matches!(outcome, Err(Error::ECPointAtInfinity)));
}

#[test]
fn reported_tweak_is_kept() {
    let original = pubkey_from_hex(VECTOR_KEY);
    let tweaked = pubkey_from_hex(
        "02b483ae49421fd8751b31278c6905eca00a8241a2ee3584bffc85655aa9123c02",
    );
    let tweaked_bytes = tweaked.as_bytes().clone();
    let commitment = commitment_from_tweak(original, Some(tweaked)).unwrap();
    assert_eq!(commitment.tweaked.as_bytes(), &tweaked_bytes);
}

#[test]
fn pubkey_rejects_wrong_length() {
    assert!(Pubkey::from_bytes(vec![2u8; 33]).is_some());
    assert!(Pubkey::from_bytes(vec![2u8; 32]).is_none());
    assert!(Pubkey::from_bytes(vec![2u8; 65]).is_none());
    assert!(Pubkey::from_bytes(Vec::new()).is_none());
}
