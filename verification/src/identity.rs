//! The per-session ephemeral identity: a fresh secp256k1 key pair per
//! session, and the 64-byte node identity derived from its public key.

use vstd::prelude::*;

verus! {

#[verifier::external_type_specification]
#[verifier::external_body]
pub struct ExSecretKey(secp256k1::SecretKey);

#[verifier::external_type_specification]
#[verifier::external_body]
pub struct ExPublicKey(secp256k1::PublicKey);

/// Relies on secp256k1's `SecretKey::new` with rand's thread-local
/// generator: a fresh random key each call; nothing is promised of its
/// value.
#[verifier::external_body]
fn generate_secret_key() -> secp256k1::SecretKey {
    secp256k1::SecretKey::new(&mut secp256k1::rand::rng())
}

/// Relies on secp256k1's `SecretKey::public_key`: the public key that
/// belongs to the given secret key.
#[verifier::external_body]
fn public_key_of(key: &secp256k1::SecretKey) -> secp256k1::PublicKey {
    key.public_key()
}

/// Relies on secp256k1's `PublicKey::serialize_uncompressed`: the key as a
/// byte-encoded pair of values in uncompressed form, which is 65 bytes.
#[verifier::external_body]
fn uncompressed_bytes(key: &secp256k1::PublicKey) -> (r: Vec<u8>)
    ensures
        r@.len() == 65,
{
    key.serialize_uncompressed().to_vec()
}

/// The 64-byte node identity carried in a Hello message: the uncompressed
/// public key without its one-byte form prefix.
pub fn peer_id_from_uncompressed(bytes: &Vec<u8>) -> (r: Vec<u8>)
    requires
        bytes@.len() == 65,
    ensures
        r@ == bytes@.subrange(1, 65),
        r@.len() == 64,
{
    let mut r: Vec<u8> = Vec::new();
    let mut i: usize = 1;
    while i < 65
        invariant
            bytes@.len() == 65,
            1 <= i <= 65,
            r@ == bytes@.subrange(1, i as int),
        decreases 65 - i,
    {
        r.push(bytes[i]);
        assert(bytes@.subrange(1, i + 1 as int) =~= bytes@.subrange(1, i as int).push(
            bytes@[i as int],
        ));
        i = i + 1;
    }
    assert(r@ =~= bytes@.subrange(1, 65));
    r
}

/// One session's ephemeral identity: generated at session start, never
/// shared with another session, discarded with the session.
pub struct SessionIdentity {
    key: secp256k1::SecretKey,
    peer_id: Vec<u8>,
}

impl SessionIdentity {
    /// The derived 64-byte node identity.
    pub closed spec fn id_view(self) -> Seq<u8> {
        self.peer_id@
    }

    /// An identity is well-formed when its derived node identity has the
    /// 64-byte length the wire format fixes.
    pub open spec fn wf(self) -> bool {
        self.id_view().len() == 64
    }

    /// Generates a fresh ephemeral identity for one session.
    pub fn generate() -> (r: SessionIdentity)
        ensures
            r.wf(),
    {
        let key = generate_secret_key();
        let public_key = public_key_of(&key);
        let serialized = uncompressed_bytes(&public_key);
        let peer_id = peer_id_from_uncompressed(&serialized);
        SessionIdentity { key, peer_id }
    }

    /// The 64-byte node identity derived from the session key.
    pub fn peer_id(&self) -> (r: &Vec<u8>)
        ensures
            r@ == self.id_view(),
    {
        &self.peer_id
    }

    /// The secret key itself, for the driver to hand to the secure-channel
    /// collaborator of the same session.
    pub fn secret_key(&self) -> &secp256k1::SecretKey {
        &self.key
    }
}

} // verus!
