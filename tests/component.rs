use std::sync::Arc;

use ic_crypto::capabilities::{
    BasicSigVerifier, BasicSigner, KeyManager, MultiSigVerifier, TlsHandshake,
};
use ic_crypto::component::{
    authenticate_peer_with_lookup, check_key_matches, CryptoComponentFatClient, CryptoServiceProvider, NodePublicKeys,
};
use ic_crypto::identity::{derive_node_id, ed25519_public_key_to_der};
use ic_crypto::registry::{key_from_lookup, key_from_registry, RegistryClient};
use ic_crypto::types::{
    CryptoError, CryptoResult, KeyPurpose, NodeId, PublicKeyProto, RegistryClientError,
    RegistryVersion,
};

fn pk(bytes: Vec<u8>) -> PublicKeyProto {
    PublicKeyProto { version: 0, algorithm: 1, key_value: bytes, proof_data: None, timestamp: None }
}

fn signing_key() -> Vec<u8> {
    (1u8..=32).collect()
}

const EXPECTED_NODE_ID: [u8; 29] = [
    2, 198, 170, 80, 148, 92, 173, 244, 237, 154, 20, 152, 89, 184, 87, 95, 202, 94, 243, 0, 18,
    151, 59, 4, 139, 223, 143, 86, 2,
];

struct FakeCsp {
    keys: NodePublicKeys,
}

impl CryptoServiceProvider for FakeCsp {
    fn node_public_keys(&self) -> NodePublicKeys {
        self.keys.clone()
    }

    fn sign(&self, message: &Vec<u8>, public_key: &PublicKeyProto) -> CryptoResult<Vec<u8>> {
        let mut sig = public_key.key_value.clone();
        sig.extend_from_slice(message);
        Ok(sig)
    }

    fn verify(
        &self,
        signature: &Vec<u8>,
        message: &Vec<u8>,
        public_key: &PublicKeyProto,
    ) -> CryptoResult<()> {
        let mut expected = public_key.key_value.clone();
        expected.extend_from_slice(message);
        if &expected == signature {
            Ok(())
        } else {
            Err(CryptoError::SignatureVerification { reason: "mismatch".to_string() })
        }
    }

    fn verify_threshold_sig(
        &self,
        signature: &Vec<u8>,
        message: &Vec<u8>,
        public_coefficients: &Vec<u8>,
    ) -> CryptoResult<()> {
        self.verify(signature, message, &pk(public_coefficients.clone()))
    }
}

struct FakeRegistry {
    entries: Vec<(Vec<u8>, KeyPurpose, u64, PublicKeyProto)>,
    fail: bool,
}

impl RegistryClient for FakeRegistry {
    fn get_crypto_key_for_node(
        &self,
        node_id: &NodeId,
        key_purpose: KeyPurpose,
        registry_version: RegistryVersion,
    ) -> Result<Option<PublicKeyProto>, RegistryClientError> {
        if self.fail {
            return Err(RegistryClientError::VersionNotAvailable { version: registry_version });
        }
        Ok(self
            .entries
            .iter()
            .find(|(n, p, v, _)| n == node_id.as_bytes() && *p == key_purpose && *v == registry_version.0)
            .map(|(_, _, _, k)| k.clone()))
    }
}

fn csp_with(key: Option<Vec<u8>>) -> FakeCsp {
    FakeCsp {
        keys: NodePublicKeys {
            node_signing_pk: key.map(pk),
            committee_signing_pk: Some(pk(vec![9, 9, 9])),
        },
    }
}

fn registry_for(node: &[u8]) -> FakeRegistry {
    FakeRegistry {
        entries: vec![
            (node.to_vec(), KeyPurpose::NodeSigning, 3, pk(signing_key())),
            (node.to_vec(), KeyPurpose::CommitteeSigning, 3, pk(vec![9, 9, 9])),
            (node.to_vec(), KeyPurpose::TlsCertificate, 3, pk(vec![7, 7])),
        ],
        fail: false,
    }
}

#[test]
fn node_id_is_derived_from_signing_key() {
    let id = derive_node_id(&pk(signing_key())).unwrap();
    assert_eq!(id.as_bytes(), &EXPECTED_NODE_ID.to_vec());
    assert!(derive_node_id(&pk(vec![1, 2, 3])).is_none());
}

#[test]
fn der_encoding_prefixes_the_key() {
    let der = ed25519_public_key_to_der(&signing_key());
    assert_eq!(der.len(), 44);
    assert_eq!(&der[..12], &[0x30, 0x2a, 0x30, 0x05, 0x06, 0x03, 0x2b, 0x65, 0x70, 0x03, 0x21, 0x00]);
    assert_eq!(&der[12..], &signing_key()[..]);
}

#[test]
fn components_with_same_key_have_same_identity() {
    let registry = Arc::new(registry_for(&EXPECTED_NODE_ID));
    let a = CryptoComponentFatClient::new(csp_with(Some(signing_key())), registry.clone()).unwrap();
    let b = CryptoComponentFatClient::new(csp_with(Some(signing_key())), registry).unwrap();
    assert_eq!(a.get_node_id().as_bytes(), b.get_node_id().as_bytes());
    assert_eq!(a.get_node_id().as_bytes(), &EXPECTED_NODE_ID.to_vec());
}

#[test]
fn missing_signing_key_is_fatal() {
    let registry = Arc::new(registry_for(&EXPECTED_NODE_ID));
    let r = CryptoComponentFatClient::new(csp_with(None), registry.clone());
    assert!(matches!(r, Err(CryptoError::MissingNodeSigningPublicKey)));
    let r = CryptoComponentFatClient::new(csp_with(Some(vec![1; 31])), registry);
    assert!(matches!(r, Err(CryptoError::MissingNodeSigningPublicKey)));
}

#[test]
fn lookup_not_found_carries_the_query() {
    let registry = registry_for(&EXPECTED_NODE_ID);
    let node = NodeId::new(vec![4, 4]);
    match key_from_registry(&registry, node, KeyPurpose::CommitteeSigning, RegistryVersion(11)) {
        Err(CryptoError::PublicKeyNotFound { node_id, key_purpose, registry_version }) => {
            assert_eq!(node_id.as_bytes(), &vec![4, 4]);
            assert_eq!(key_purpose, KeyPurpose::CommitteeSigning);
            assert_eq!(registry_version, RegistryVersion(11));
        }
        other => panic!("unexpected {:?}", other),
    }
}

#[test]
fn lookup_returns_key_unchanged() {
    let registry = registry_for(&EXPECTED_NODE_ID);
    let node = NodeId::new(EXPECTED_NODE_ID.to_vec());
    let key = key_from_registry(&registry, node, KeyPurpose::TlsCertificate, RegistryVersion(3)).unwrap();
    assert_eq!(key.key_value, vec![7, 7]);
    assert_eq!(key.algorithm, 1);
}

#[test]
fn lookup_failure_is_a_registry_error() {
    let registry = FakeRegistry { entries: vec![], fail: true };
    let r = key_from_registry(&registry, NodeId::new(vec![1]), KeyPurpose::NodeSigning, RegistryVersion(2));
    assert!(matches!(
        r,
        Err(CryptoError::RegistryClient(RegistryClientError::VersionNotAvailable { version: RegistryVersion(2) }))
    ));
    let r = key_from_lookup(Ok(Some(pk(vec![5]))), NodeId::new(vec![1]), KeyPurpose::NodeSigning, RegistryVersion(2));
    assert_eq!(r.unwrap().key_value, vec![5]);
}

#[test]
fn keys_match_registry() {
    let registry = Arc::new(registry_for(&EXPECTED_NODE_ID));
    let c = CryptoComponentFatClient::new(csp_with(Some(signing_key())), registry).unwrap();
    assert!(c.check_keys_with_registry(RegistryVersion(3)).is_ok());
    assert!(matches!(
        c.check_keys_with_registry(RegistryVersion(4)),
        Err(CryptoError::PublicKeyNotFound { key_purpose: KeyPurpose::NodeSigning, .. })
    ));
}

#[test]
fn key_mismatch_is_reported() {
    let r = check_key_matches(&Some(pk(vec![1])), &pk(vec![2]), KeyPurpose::NodeSigning, RegistryVersion(1));
    assert!(matches!(
        r,
        Err(CryptoError::KeyMismatch { key_purpose: KeyPurpose::NodeSigning, registry_version: RegistryVersion(1) })
    ));
    let r = check_key_matches(&None, &pk(vec![2]), KeyPurpose::CommitteeSigning, RegistryVersion(1));
    assert!(r.is_err());
    assert!(check_key_matches(&Some(pk(vec![2])), &pk(vec![2]), KeyPurpose::NodeSigning, RegistryVersion(1)).is_ok());
}

#[test]
fn sign_and_verify_through_registry_keys() {
    let registry = Arc::new(registry_for(&EXPECTED_NODE_ID));
    let c = CryptoComponentFatClient::new(csp_with(Some(signing_key())), registry).unwrap();
    let me = c.get_node_id();
    let msg = vec![42u8, 43];
    let sig = c.sign_basic(&msg, &me, RegistryVersion(3)).unwrap();
    assert!(c.verify_basic_sig(&sig, &msg, &me, RegistryVersion(3)).is_ok());
    assert!(c.verify_basic_sig(&sig, &vec![0], &me, RegistryVersion(3)).is_err());
    assert!(c.verify_multi_sig_individual(&sig, &msg, &me, RegistryVersion(3)).is_err());
    assert!(c.authenticate_peer(&me, &vec![7, 7], RegistryVersion(3)).is_ok());
    assert!(c.authenticate_peer(&me, &vec![7], RegistryVersion(3)).is_err());
}

#[test]
fn threshold_verification_uses_cached_material() {
    let registry = Arc::new(registry_for(&EXPECTED_NODE_ID));
    let c = CryptoComponentFatClient::new(csp_with(Some(signing_key())), registry).unwrap();
    let msg = vec![1u8];
    let sig = vec![8u8, 8, 1];
    assert!(matches!(
        c.verify_combined_threshold_sig(&sig, &msg, 5, RegistryVersion(2)),
        Err(CryptoError::ThresholdSigDataNotFound { subject: 5, registry_version: RegistryVersion(2) })
    ));
    c.load_threshold_sig_data(5, RegistryVersion(2), vec![8, 8]);
    assert_eq!(c.threshold_sig_data(5, RegistryVersion(2)), Some(vec![8, 8]));
    assert!(c.verify_combined_threshold_sig(&sig, &msg, 5, RegistryVersion(2)).is_ok());
}

#[test]
fn peer_authentication_for_each_registry_answer() {
    let peer = || NodeId::new(vec![3, 3]);
    let cert = vec![7u8, 7];
    assert!(authenticate_peer_with_lookup(Ok(Some(pk(cert.clone()))), peer(), &cert, RegistryVersion(4)).is_ok());
    assert!(matches!(
        authenticate_peer_with_lookup(Ok(Some(pk(vec![7]))), peer(), &cert, RegistryVersion(4)),
        Err(CryptoError::KeyMismatch { key_purpose: KeyPurpose::TlsCertificate, registry_version: RegistryVersion(4) })
    ));
    match authenticate_peer_with_lookup(Ok(None), peer(), &cert, RegistryVersion(4)) {
        Err(CryptoError::PublicKeyNotFound { node_id, key_purpose, registry_version }) => {
            assert_eq!(node_id.as_bytes(), &vec![3, 3]);
            assert_eq!(key_purpose, KeyPurpose::TlsCertificate);
            assert_eq!(registry_version, RegistryVersion(4));
        }
        other => panic!("unexpected {:?}", other),
    }
    assert!(matches!(
        authenticate_peer_with_lookup(
            Err(RegistryClientError::DecodeError { error: "bad".to_string() }),
            peer(),
            &cert,
            RegistryVersion(4)
        ),
        Err(CryptoError::RegistryClient(RegistryClientError::DecodeError { .. }))
    ));
}

#[test]
fn non_replica_view_needs_a_signing_key() {
    let registry = Arc::new(registry_for(&EXPECTED_NODE_ID));
    let r = CryptoComponentFatClient::new_for_non_replica_process(csp_with(None), registry.clone());
    assert!(matches!(r, Err(CryptoError::MissingNodeSigningPublicKey)));
    let view = CryptoComponentFatClient::new_for_non_replica_process(csp_with(Some(signing_key())), registry)
        .ok()
        .unwrap();
    assert!(view.check_keys_with_registry(RegistryVersion(3)).is_ok());
}
