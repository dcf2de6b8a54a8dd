//! Resolving public keys through the registry.
use vstd::prelude::*;
use crate::types::{
    CryptoError, CryptoResult, KeyPurpose, NodeId, PublicKeyProto, RegistryClientError,
    RegistryVersion,
};

verus! {

/// The source of authoritative public keys per node, purpose and version.
pub trait RegistryClient {
    /// The key recorded for the node, `None` when there is none.
    fn get_crypto_key_for_node(
        &self,
        node_id: &NodeId,
        key_purpose: KeyPurpose,
        registry_version: RegistryVersion,
    ) -> Result<Option<PublicKeyProto>, RegistryClientError>;
}

/// What a registry answer becomes: the key unchanged, the not-found error
/// carrying the query, or the client's failure.
pub open spec fn lookup_outcome(
    answer: Result<Option<PublicKeyProto>, RegistryClientError>,
    node_id: NodeId,
    key_purpose: KeyPurpose,
    registry_version: RegistryVersion,
) -> CryptoResult<PublicKeyProto> {
    match answer {
        Ok(Some(pk)) => Ok(pk),
        Ok(None) => Err(CryptoError::PublicKeyNotFound { node_id, key_purpose, registry_version }),
        Err(e) => Err(CryptoError::RegistryClient(e)),
    }
}

/// Turns a registry answer into a key or a typed error.
pub fn key_from_lookup(
    answer: Result<Option<PublicKeyProto>, RegistryClientError>,
    node_id: NodeId,
    key_purpose: KeyPurpose,
    registry_version: RegistryVersion,
) -> (r: CryptoResult<PublicKeyProto>)
    ensures
        r == lookup_outcome(answer, node_id, key_purpose, registry_version),
{
    match answer {
        Ok(Some(pk)) => Ok(pk),
        Ok(None) => Err(CryptoError::PublicKeyNotFound { node_id, key_purpose, registry_version }),
        Err(e) => Err(CryptoError::RegistryClient(e)),
    }
}

/// The key that the registry records for the node, purpose and version.
pub fn key_from_registry<R: RegistryClient>(
    registry: &R,
    node_id: NodeId,
    key_purpose: KeyPurpose,
    registry_version: RegistryVersion,
) -> (r: CryptoResult<PublicKeyProto>)
    ensures
        exists|answer: Result<Option<PublicKeyProto>, RegistryClientError>|
            r == lookup_outcome(answer, node_id, key_purpose, registry_version),
{
    let answer = registry.get_crypto_key_for_node(&node_id, key_purpose, registry_version);
    key_from_lookup(answer, node_id, key_purpose, registry_version)
}

/// A missing key becomes exactly the not-found error for the query, and a
/// found key is handed on unchanged.
pub proof fn lemma_lookup_fidelity(
    pk: PublicKeyProto,
    node_id: NodeId,
    key_purpose: KeyPurpose,
    registry_version: RegistryVersion,
)
    ensures
        lookup_outcome(Ok(None), node_id, key_purpose, registry_version) == Err::<
            PublicKeyProto,
            CryptoError,
        >(CryptoError::PublicKeyNotFound { node_id, key_purpose, registry_version }),
        lookup_outcome(Ok(Some(pk)), node_id, key_purpose, registry_version) == Ok::<
            PublicKeyProto,
            CryptoError,
        >(pk),
{
}

} // verus!
