//! Collision-resistant commitments embedded in secp256k1 public keys.
//!
//! A message is bound into an existing public key by deriving a tweak
//! factor with tag-separated HMAC-SHA256 — keyed by the compressed
//! container key, over the protocol tag followed by the message — and
//! adding `factor * G` to the container. The pair of original and
//! tweaked key forms the commitment; verification re-derives the
//! tweaked key and compares.
//!
//! The message must arrive already prefixed with the 32-byte SHA-256
//! hash of its protocol-specific prefix: that domain separation is the
//! caller's duty, and moving it here would change every commitment's
//! byte-level output.

use vstd::prelude::*;

use crate::commit::CommitEmbedVerify;

use bitcoin::hashes::{sha256, Hmac, HmacEngine};
use bitcoin::secp256k1::{PublicKey, Scalar, Secp256k1};

verus! {

/// The protocol tag: a fixed 32-byte domain-separation constant mixed
/// into every tweak derivation, so a commitment cannot be reinterpreted
/// under an unrelated protocol.
pub open spec fn protocol_tag_seq() -> Seq<u8> {
    seq![
        245u8, 8u8, 242u8, 142u8, 252u8, 192u8, 113u8, 82u8,
        108u8, 168u8, 134u8, 200u8, 224u8, 124u8, 105u8, 212u8,
        149u8, 78u8, 46u8, 201u8, 252u8, 82u8, 171u8, 140u8,
        204u8, 209u8, 41u8, 17u8, 12u8, 0u8, 64u8, 175u8,
    ]
}

/// The protocol tag as bytes.
fn protocol_tag() -> (r: Vec<u8>)
    ensures
        r@ == protocol_tag_seq(),
{
    let mut v: Vec<u8> = Vec::new();
    v.push(245); v.push(8); v.push(242); v.push(142);
    v.push(252); v.push(192); v.push(113); v.push(82);
    v.push(108); v.push(168); v.push(134); v.push(200);
    v.push(224); v.push(124); v.push(105); v.push(212);
    v.push(149); v.push(78); v.push(46); v.push(201);
    v.push(252); v.push(82); v.push(171); v.push(140);
    v.push(204); v.push(209); v.push(41); v.push(17);
    v.push(12); v.push(0); v.push(64); v.push(175);
    proof {
        assert(v@ =~= protocol_tag_seq());
    }
    v
}

/// The 32-byte HMAC-SHA256 authentication code for a key and a data
/// sequence.
pub uninterp spec fn hmac_sha256_of(key: Seq<u8>, data: Seq<u8>) -> Seq<u8>;

/// What the curve primitive yields when `factor * G` is added to the
/// point with the given compressed serialization: the compressed
/// serialization of the sum, or nothing when the operation is
/// degenerate (the factor is not a valid scalar, the bytes are not a
/// valid point, or the sum is the point at infinity).
pub uninterp spec fn tweak_add_of(point: Seq<u8>, factor: Seq<u8>) -> Option<Seq<u8>>;

/// The HMAC input for a commitment: the protocol tag, then the message.
pub open spec fn commit_data(msg: Seq<u8>) -> Seq<u8> {
    protocol_tag_seq() + msg
}

/// The tweak factor derived for a container and a message.
pub open spec fn tweak_factor(container: Seq<u8>, msg: Seq<u8>) -> Seq<u8> {
    hmac_sha256_of(container, commit_data(msg))
}

/// The tweaked key a commitment over these inputs carries, or nothing
/// when the derived tweak is degenerate.
pub open spec fn commit_result(container: Seq<u8>, msg: Seq<u8>) -> Option<Seq<u8>> {
    tweak_add_of(container, tweak_factor(container, msg))
}

/// Relies on HMAC-SHA256 from bitcoin's hashes (`HmacEngine` keyed with
/// `key`, fed `data`, finished by `Hmac::from_engine`): the 32-byte
/// authentication code is a function of key and data alone.
#[verifier::external_body]
fn hmac_sha256(key: &Vec<u8>, data: &Vec<u8>) -> (r: Vec<u8>)
    ensures
        r@ == hmac_sha256_of(key@, data@),
        r@.len() == 32,
{
    let mut engine: HmacEngine<sha256::Hash> = HmacEngine::new(key.as_slice());
    bitcoin::hashes::HashEngine::input(&mut engine, data.as_slice());
    let code: Hmac<sha256::Hash> = bitcoin::hashes::Hash::from_engine(engine);
    bitcoin::hashes::Hash::to_byte_array(code).to_vec()
}

/// Relies on secp256k1: `PublicKey::from_slice`, `Scalar::from_be_bytes`
/// and `PublicKey::add_exp_tweak`, which adds `factor * G` to the point
/// and reports an invalid-tweak error when the sum would be the point at
/// infinity. All three are deterministic, so the outcome is a function
/// of the point bytes and the factor alone; on success the result is the
/// 33-byte compressed serialization of the tweaked key.
#[verifier::external_body]
fn tweak_add(point: &Vec<u8>, factor: &Vec<u8>) -> (r: Option<Vec<u8>>)
    requires
        factor@.len() == 32,
    ensures
        (match r {
            Some(t) => tweak_add_of(point@, factor@) == Some(t@) && t@.len() == 33,
            None => tweak_add_of(point@, factor@) is None,
        }),
{
    let secp = Secp256k1::verification_only();
    let pk = PublicKey::from_slice(point.as_slice()).ok()?;
    let mut raw = [0u8; 32];
    raw.copy_from_slice(factor.as_slice());
    let scalar = Scalar::from_be_bytes(raw).ok()?;
    Some(pk.add_exp_tweak(&secp, &scalar).ok()?.serialize().to_vec())
}

/// Copies a byte sequence.
fn copy_bytes(src: &Vec<u8>) -> (r: Vec<u8>)
    ensures
        r@ == src@,
{
    let mut r: Vec<u8> = Vec::new();
    let mut i: usize = 0;
    while i < src.len()
        invariant
            i <= src@.len(),
            r@ == src@.subrange(0, i as int),
        decreases src@.len() - i,
    {
        r.push(src[i]);
        proof {
            assert(r@ =~= src@.subrange(0, i + 1 as int));
        }
        i = i + 1;
    }
    proof {
        assert(r@ =~= src@);
    }
    r
}

/// A secp256k1 public key, held in its canonical 33-byte compressed
/// serialization. Validity as a curve point is the caller's duty and is
/// not re-checked here.
pub struct Pubkey {
    bytes: Vec<u8>,
}

impl View for Pubkey {
    type V = Seq<u8>;

    closed spec fn view(&self) -> Seq<u8> {
        self.bytes@
    }
}

impl Pubkey {
    /// A compressed public key is exactly 33 bytes.
    pub open spec fn wf(&self) -> bool {
        self@.len() == 33
    }

    /// Captures a compressed public key; anything but 33 bytes is
    /// rejected.
    pub fn from_bytes(bytes: Vec<u8>) -> (r: Option<Pubkey>)
        ensures
            bytes@.len() == 33 ==> (r matches Some(k) && k@ == bytes@ && k.wf()),
            bytes@.len() != 33 ==> r is None,
    {
        if bytes.len() == 33 {
            Some(Pubkey { bytes })
        } else {
            None
        }
    }

    /// The compressed serialization.
    pub fn as_bytes(&self) -> (r: &Vec<u8>)
        ensures
            r@ == self@,
    {
        &self.bytes
    }
}

impl Clone for Pubkey {
    /// The copy serializes identically to the original.
    fn clone(&self) -> (r: Self)
        ensures
            r@ == self@,
    {
        Pubkey { bytes: copy_bytes(&self.bytes) }
    }
}

/// Commitment construction failures.
#[derive(Clone, Copy, Debug, PartialEq, Eq, Structural)]
pub enum Error {
    /// The tweak derived from container and message was degenerate: the
    /// tweaked point would be invalid (at infinity) or the scalar out of
    /// range. The remedy is to commit to an altered message, not to
    /// retry the same inputs.
    ECPointAtInfinity,
}

/// A commitment embedded in a public key: the tweaked key that carries
/// the binding, and the original container key it was derived from.
pub struct PubkeyCommitment {
    pub tweaked: Pubkey,
    pub original: Pubkey,
}

/// The tweak factor for a container and message: HMAC-SHA256 keyed by
/// the compressed container key, over the protocol tag followed by the
/// message.
fn derive_tweak_factor(container: &Pubkey, msg: &Vec<u8>) -> (r: Vec<u8>)
    ensures
        r@ == tweak_factor(container@, msg@),
        r@.len() == 32,
{
    let mut data = protocol_tag();
    let mut tail = copy_bytes(msg);
    data.append(&mut tail);
    proof {
        assert(data@ =~= commit_data(msg@));
    }
    hmac_sha256(container.as_bytes(), &data)
}

/// Assembles a commitment from a container and the outcome the curve
/// primitive reported for its tweak: the explicit, total narrowing of
/// the primitive's failure onto the scheme's single error.
pub fn commitment_from_tweak(original: Pubkey, tweaked: Option<Pubkey>) -> (r: Result<
    PubkeyCommitment,
    Error,
>)
    ensures
        (match tweaked {
            Some(t) => r matches Ok(c) && c.original == original && c.tweaked == t,
            None => r matches Err(e) && e == Error::ECPointAtInfinity,
        }),
{
    match tweaked {
        Some(t) => Ok(PubkeyCommitment { tweaked: t, original }),
        None => Err(Error::ECPointAtInfinity),
    }
}

impl CommitEmbedVerify for PubkeyCommitment {
    type Container = Pubkey;

    type Error = Error;

    open spec fn commits_to(&self, msg: Seq<u8>) -> bool {
        commit_result(self.original@, msg) == Some(self.tweaked@)
    }

    open spec fn container_of(&self) -> Pubkey {
        self.original
    }

    open spec fn commit_ok(container: &Pubkey, msg: Seq<u8>) -> bool {
        commit_result(container@, msg) is Some
    }

    open spec fn commit_err() -> Error {
        Error::ECPointAtInfinity
    }

    fn commit_embed(container: Pubkey, msg: &Vec<u8>) -> (r: Result<Self, Error>) {
        let factor = derive_tweak_factor(&container, msg);
        let outcome = match tweak_add(container.as_bytes(), &factor) {
            Some(bytes) => Some(Pubkey { bytes }),
            None => None,
        };
        commitment_from_tweak(container, outcome)
    }

    fn verify(&self, msg: &Vec<u8>) -> (r: bool) {
        let factor = derive_tweak_factor(&self.original, msg);
        match tweak_add(self.original.as_bytes(), &factor) {
            Some(fresh) => bytes_eq(&fresh, self.tweaked.as_bytes()),
            None => false,
        }
    }

    fn container(&self) -> (r: Pubkey) {
        self.original.clone()
    }
}

/// Compares two byte sequences for exact equality.
fn bytes_eq(a: &Vec<u8>, b: &Vec<u8>) -> (r: bool)
    ensures
        r == (a@ == b@),
{
    if a.len() != b.len() {
        return false;
    }
    let mut i: usize = 0;
    while i < a.len()
        invariant
            i <= a@.len(),
            a@.len() == b@.len(),
            forall|j: int| 0 <= j < i ==> a@[j] == b@[j],
        decreases a@.len() - i,
    {
        if a[i] != b[i] {
            return false;
        }
        i = i + 1;
    }
    proof {
        assert(a@ =~= b@);
    }
    true
}

/// Round-trip law: a commitment whose tweaked key is the derivation over
/// its own container and a message binds that message, so verification
/// of a freshly built commitment against the committed message succeeds.
pub proof fn lemma_round_trip(c: PubkeyCommitment, msg: Seq<u8>)
    requires
        commit_result(c.original@, msg) == Some(c.tweaked@),
    ensures
        c.commits_to(msg),
{
}

/// Determinism law: the derivation is a function of container and
/// message alone, so two successful constructions over identical inputs
/// carry bit-identical tweaked keys.
pub proof fn lemma_commit_deterministic(c1: PubkeyCommitment, c2: PubkeyCommitment, msg: Seq<u8>)
    requires
        c1.original@ == c2.original@,
        commit_result(c1.original@, msg) == Some(c1.tweaked@),
        commit_result(c2.original@, msg) == Some(c2.tweaked@),
    ensures
        c1.tweaked@ == c2.tweaked@,
{
}

/// Binding law (collision-free form): two successful commitments over
/// the same container whose derivations differ carry distinct tweaked
/// keys. Messages whose derived factors collide under HMAC-SHA256 are
/// left out: that two distinct messages ever do is exactly what the
/// primitive's collision resistance makes infeasible.
pub proof fn lemma_binding(c1: PubkeyCommitment, c2: PubkeyCommitment, m1: Seq<u8>, m2: Seq<u8>)
    requires
        c1.original@ == c2.original@,
        commit_result(c1.original@, m1) == Some(c1.tweaked@),
        commit_result(c2.original@, m2) == Some(c2.tweaked@),
        commit_result(c1.original@, m1) != commit_result(c1.original@, m2),
    ensures
        c1.tweaked@ != c2.tweaked@,
{
}

/// Negative-verification law: a commitment rejects every message whose
/// derivation differs from the committed one — any distinct message,
/// short of an HMAC collision on the derived factors.
pub proof fn lemma_verify_rejects(c: PubkeyCommitment, committed: Seq<u8>, other: Seq<u8>)
    requires
        commit_result(c.original@, committed) == Some(c.tweaked@),
        commit_result(c.original@, other) != commit_result(c.original@, committed),
    ensures
        !c.commits_to(other),
{
}

} // verus!
