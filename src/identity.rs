//! Deriving a node's identity from its node-signing public key.
use vstd::prelude::*;
use sha2::Digest;
use crate::types::{NodeId, PublicKeyProto};

verus! {

/// Length of an Ed25519 public key.
pub const ED25519_PUBLIC_KEY_LEN: usize = 32;

/// Tag appended to the digest of a self-authenticating principal.
pub const SELF_AUTHENTICATING_TAG: u8 = 2;

/// The SHA-224 digest of `b`.
pub uninterp spec fn sha224_of(b: Seq<u8>) -> Seq<u8>;

/// Relies on sha2's `Sha224::digest`: the SHA-224 digest of the input, 28 bytes.
#[verifier::external_body]
fn sha224(b: &Vec<u8>) -> (r: Vec<u8>)
    ensures
        r@ == sha224_of(b@),
        r@.len() == 28,
{
    sha2::Sha224::digest(b.as_slice()).to_vec()
}

/// The DER header of a SubjectPublicKeyInfo holding an Ed25519 key.
pub open spec fn ed25519_der_prefix() -> Seq<u8> {
    seq![0x30u8, 0x2a, 0x30, 0x05, 0x06, 0x03, 0x2b, 0x65, 0x70, 0x03, 0x21, 0x00]
}

/// The DER encoding of an Ed25519 public key.
pub open spec fn ed25519_der(pk: Seq<u8>) -> Seq<u8> {
    ed25519_der_prefix() + pk
}

/// The node id of the node whose signing key is `pk`: the digest of the
/// key's DER encoding followed by the self-authenticating tag.
pub open spec fn node_id_of(pk: Seq<u8>) -> Seq<u8> {
    sha224_of(ed25519_der(pk)).push(SELF_AUTHENTICATING_TAG)
}

/// DER-encodes an Ed25519 public key.
pub fn ed25519_public_key_to_der(pk: &Vec<u8>) -> (r: Vec<u8>)
    requires
        pk@.len() == ED25519_PUBLIC_KEY_LEN,
    ensures
        r@ == ed25519_der(pk@),
{
    let mut r: Vec<u8> = vec![0x30u8, 0x2a, 0x30, 0x05, 0x06, 0x03, 0x2b, 0x65, 0x70, 0x03, 0x21, 0x00];
    assert(r@ =~= ed25519_der_prefix());
    let mut i: usize = 0;
    while i < pk.len()
        invariant
            i <= pk@.len(),
            r@ =~= ed25519_der_prefix() + pk@.subrange(0, i as int),
        decreases pk@.len() - i,
    {
        r.push(pk[i]);
        i = i + 1;
        assert(pk@.subrange(0, i as int) =~= pk@.subrange(0, i - 1) + seq![pk@[i - 1]]);
    }
    assert(pk@.subrange(0, pk@.len() as int) =~= pk@);
    r
}

/// Derives the node id from a node-signing public key, whose bytes are taken
/// as an Ed25519 key; `None` when they are not 32 bytes long.
pub fn derive_node_id(node_signing_pk: &PublicKeyProto) -> (r: Option<NodeId>)
    ensures
        r is Some <==> node_signing_pk.key_value@.len() == ED25519_PUBLIC_KEY_LEN,
        r matches Some(id) ==> id@ == node_id_of(node_signing_pk.key_value@),
{
    if node_signing_pk.key_value.len() != ED25519_PUBLIC_KEY_LEN {
        return None;
    }
    let der = ed25519_public_key_to_der(&node_signing_pk.key_value);
    let mut id = sha224(&der);
    id.push(SELF_AUTHENTICATING_TAG);
    Some(NodeId::new(id))
}

} // verus!
