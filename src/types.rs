//! Plain data shared by the store, the registry lookups and the facade.
use vstd::prelude::*;

verus! {

/// An epoch of the registry; public keys are looked up at a given version.
#[derive(Debug, Clone, Copy, PartialEq, Eq, Structural)]
pub struct RegistryVersion(pub u64);

/// The identity of a node: the bytes of its self-authenticating principal.
#[derive(Debug, Clone)]
pub struct NodeId {
    id: Vec<u8>,
}

impl View for NodeId {
    type V = Seq<u8>;

    closed spec fn view(&self) -> Seq<u8> {
        self.id@
    }
}

impl NodeId {
    /// A node id with the given principal bytes.
    pub fn new(id: Vec<u8>) -> (r: Self)
        ensures
            r@ == id@,
    {
        NodeId { id }
    }

    /// The principal bytes.
    pub fn as_bytes(&self) -> (r: &Vec<u8>)
        ensures
            r@ == self@,
    {
        &self.id
    }
}

/// The role a key plays; a lookup dimension, never read off key bytes.
#[derive(Debug, Clone, Copy, PartialEq, Eq, Structural)]
pub enum KeyPurpose {
    NodeSigning,
    QueryResponseSigning,
    DkgDealingEncryption,
    CommitteeSigning,
    IDkgMEGaEncryption,
    TlsCertificate,
}

/// A public key as the registry holds it: algorithm tag and key bytes.
#[derive(Debug, Clone)]
pub struct PublicKeyProto {
    pub version: u32,
    pub algorithm: i32,
    pub key_value: Vec<u8>,
    pub proof_data: Option<Vec<u8>>,
    pub timestamp: Option<u64>,
}

/// Failures of the registry client itself, as opposed to an absent key.
#[derive(Debug, Clone)]
pub enum RegistryClientError {
    /// The requested version is not yet known locally.
    VersionNotAvailable { version: RegistryVersion },
    /// The data provider could not be queried.
    DataProviderQueryFailed { source: String },
    /// A stored record could not be decoded.
    DecodeError { error: String },
}

/// Errors of the crypto component.
#[derive(Debug, Clone)]
pub enum CryptoError {
    /// The registry holds no key for this node, purpose and version.
    PublicKeyNotFound {
        node_id: NodeId,
        key_purpose: KeyPurpose,
        registry_version: RegistryVersion,
    },
    /// The registry client failed.
    RegistryClient(RegistryClientError),
    /// The secret-key store exposes no node-signing public key, or one whose
    /// bytes are not 32 long: the node has no identity and must not start.
    MissingNodeSigningPublicKey,
    /// No threshold verification material is cached for this subject and version.
    ThresholdSigDataNotFound { subject: u64, registry_version: RegistryVersion },
    /// A locally held public key differs from the one recorded in the registry.
    KeyMismatch { key_purpose: KeyPurpose, registry_version: RegistryVersion },
    /// A signature did not verify, or a signing backend failed.
    SignatureVerification { reason: String },
}

/// Result of crypto operations.
pub type CryptoResult<T> = Result<T, CryptoError>;

} // verus!
