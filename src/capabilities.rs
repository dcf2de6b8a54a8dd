//! The narrow capability interfaces of the crypto component, and the two
//! restricted views composed of them.
use vstd::prelude::*;
use crate::types::{CryptoError, CryptoResult, KeyPurpose, NodeId, RegistryVersion};

verus! {

/// Checks that locally held keys match what the registry records.
pub trait KeyManager {
    /// Compares the node's local public keys with the registry's at `registry_version`.
    fn check_keys_with_registry(&self, registry_version: RegistryVersion) -> (r: CryptoResult<()>)
        ensures
            r is Ok || r->Err_0 == (CryptoError::KeyMismatch {
                key_purpose: KeyPurpose::NodeSigning,
                registry_version,
            }) || r->Err_0 == (CryptoError::KeyMismatch {
                key_purpose: KeyPurpose::CommitteeSigning,
                registry_version,
            }) || r->Err_0 is PublicKeyNotFound || r->Err_0 is RegistryClient,
;
}

/// Single-signer signing with the node's signing key.
pub trait BasicSigner {
    /// Signs `message` as `signer`, whose key is looked up at `registry_version`.
    fn sign_basic(
        &self,
        message: &Vec<u8>,
        signer: &NodeId,
        registry_version: RegistryVersion,
    ) -> CryptoResult<Vec<u8>>;
}

/// Single-signer verification against the registry's key.
pub trait BasicSigVerifier {
    /// Verifies `signature` on `message` by `signer` at `registry_version`.
    fn verify_basic_sig(
        &self,
        signature: &Vec<u8>,
        message: &Vec<u8>,
        signer: &NodeId,
        registry_version: RegistryVersion,
    ) -> CryptoResult<()>;
}

/// Single-signer verification against an explicit key, without the registry.
pub trait BasicSigVerifierByPublicKey {
    /// Verifies `signature` on `message` under `public_key`.
    fn verify_basic_sig_by_public_key(
        &self,
        signature: &Vec<u8>,
        message: &Vec<u8>,
        public_key: &crate::types::PublicKeyProto,
    ) -> CryptoResult<()>;
}

/// Verification of one signer's share of a multi-signature.
pub trait MultiSigVerifier {
    /// Verifies `signature` on `message` by `signer`'s committee key at `registry_version`.
    fn verify_multi_sig_individual(
        &self,
        signature: &Vec<u8>,
        message: &Vec<u8>,
        signer: &NodeId,
        registry_version: RegistryVersion,
    ) -> CryptoResult<()>;
}

/// Verification of a combined threshold signature against a self-contained key.
pub trait ThresholdSigVerifierByPublicKey {
    /// Verifies `signature` on `message` under the threshold public coefficients.
    fn verify_combined_threshold_sig_by_public_key(
        &self,
        signature: &Vec<u8>,
        message: &Vec<u8>,
        public_coefficients: &Vec<u8>,
    ) -> CryptoResult<()>;
}

/// Authentication of TLS peers by the certificates the registry records.
pub trait TlsHandshake {
    /// Accepts `presented_certificate` iff it is the one recorded for `peer`.
    fn authenticate_peer(
        &self,
        peer: &NodeId,
        presented_certificate: &Vec<u8>,
        registry_version: RegistryVersion,
    ) -> (r: CryptoResult<()>)
        ensures
            r is Ok || r->Err_0 == (CryptoError::KeyMismatch {
                key_purpose: KeyPurpose::TlsCertificate,
                registry_version,
            }) || r->Err_0 is PublicKeyNotFound || r->Err_0 is RegistryClient,
;
}

/// The view handed to processes other than the replica: nothing in it needs
/// concurrent secret-key access from several processes.
pub trait CryptoComponentForNonReplicaProcess: KeyManager + BasicSigner + ThresholdSigVerifierByPublicKey + TlsHandshake {

}

/// The view that only verifies; it never touches secret keys.
pub trait CryptoComponentForVerificationOnly: MultiSigVerifier + BasicSigVerifier + BasicSigVerifierByPublicKey + ThresholdSigVerifierByPublicKey {

}

} // verus!
