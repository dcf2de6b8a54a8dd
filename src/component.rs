//! The crypto component: derives the node's identity, resolves public keys
//! through the registry or the threshold cache, and hands the cryptographic
//! work to the crypto service provider.
use vstd::prelude::*;
use std::sync::Arc;
use crate::capabilities::{
    BasicSigVerifier, BasicSigVerifierByPublicKey, BasicSigner, CryptoComponentForNonReplicaProcess,
    CryptoComponentForVerificationOnly, KeyManager, MultiSigVerifier,
    ThresholdSigVerifierByPublicKey, TlsHandshake,
};
use crate::identity::{derive_node_id, node_id_of, ED25519_PUBLIC_KEY_LEN};
use crate::lockable::LockableThresholdSigDataStore;
use crate::store::{lookup, store_wf, EntryView};
use crate::registry::{key_from_lookup, key_from_registry, RegistryClient};
use crate::types::{
    CryptoError, CryptoResult, KeyPurpose, NodeId, PublicKeyProto, RegistryClientError,
    RegistryVersion,
};

verus! {

/// The node's public keys as the crypto service provider holds them.
#[derive(Debug, Clone)]
pub struct NodePublicKeys {
    pub node_signing_pk: Option<PublicKeyProto>,
    pub committee_signing_pk: Option<PublicKeyProto>,
}

/// The primitives and the secret-key store behind the component.
pub trait CryptoServiceProvider {
    /// The node's public keys.
    fn node_public_keys(&self) -> NodePublicKeys;

    /// Signs `message` with the secret key that belongs to `public_key`.
    fn sign(&self, message: &Vec<u8>, public_key: &PublicKeyProto) -> CryptoResult<Vec<u8>>;

    /// Verifies a single-signer signature.
    fn verify(
        &self,
        signature: &Vec<u8>,
        message: &Vec<u8>,
        public_key: &PublicKeyProto,
    ) -> CryptoResult<()>;

    /// Verifies a combined threshold signature under public coefficients.
    fn verify_threshold_sig(
        &self,
        signature: &Vec<u8>,
        message: &Vec<u8>,
        public_coefficients: &Vec<u8>,
    ) -> CryptoResult<()>;
}

/// Whether two byte strings are equal.
pub fn bytes_equal(a: &Vec<u8>, b: &Vec<u8>) -> (r: bool)
    ensures
        r == (a@ == b@),
{
    if a.len() != b.len() {
        return false;
    }
    let mut i: usize = 0;
    while i < a.len()
        invariant
            i <= a@.len(),
            a@.len() == b@.len(),
            forall|j: int| 0 <= j < i ==> a@[j] == b@[j],
        decreases a@.len() - i,
    {
        if a[i] != b[i] {
            return false;
        }
        i = i + 1;
    }
    assert(a@ =~= b@);
    true
}

/// A local key matches a registered one: same algorithm, same bytes.
pub open spec fn key_matches(local: Option<PublicKeyProto>, registered: PublicKeyProto) -> bool {
    match local {
        Some(l) => l.algorithm == registered.algorithm && l.key_value@ == registered.key_value@,
        None => false,
    }
}

/// Checks a locally held key against the registry's key for the same purpose.
pub fn check_key_matches(
    local: &Option<PublicKeyProto>,
    registered: &PublicKeyProto,
    key_purpose: KeyPurpose,
    registry_version: RegistryVersion,
) -> (r: CryptoResult<()>)
    ensures
        key_matches(*local, *registered) ==> r is Ok,
        !key_matches(*local, *registered) ==> r == Err::<(), CryptoError>(
            CryptoError::KeyMismatch { key_purpose, registry_version },
        ),
{
    match local {
        Some(l) => {
            if l.algorithm == registered.algorithm && bytes_equal(&l.key_value, &registered.key_value) {
                Ok(())
            } else {
                Err(CryptoError::KeyMismatch { key_purpose, registry_version })
            }
        },
        None => Err(CryptoError::KeyMismatch { key_purpose, registry_version }),
    }
}

/// What a TLS peer's authentication gives, for each registry answer about
/// the peer's certificate.
pub open spec fn peer_authentication(
    answer: Result<Option<PublicKeyProto>, RegistryClientError>,
    peer: NodeId,
    presented_certificate: Seq<u8>,
    registry_version: RegistryVersion,
) -> CryptoResult<()> {
    match answer {
        Ok(Some(cert)) => if cert.key_value@ == presented_certificate {
            Ok(())
        } else {
            Err(CryptoError::KeyMismatch { key_purpose: KeyPurpose::TlsCertificate, registry_version })
        },
        Ok(None) => Err(
            CryptoError::PublicKeyNotFound {
                node_id: peer,
                key_purpose: KeyPurpose::TlsCertificate,
                registry_version,
            },
        ),
        Err(e) => Err(CryptoError::RegistryClient(e)),
    }
}

/// Authenticates a TLS peer from the registry's answer about its
/// certificate: accepted exactly when the presented bytes are the recorded ones.
pub fn authenticate_peer_with_lookup(
    answer: Result<Option<PublicKeyProto>, RegistryClientError>,
    peer: NodeId,
    presented_certificate: &Vec<u8>,
    registry_version: RegistryVersion,
) -> (r: CryptoResult<()>)
    ensures
        r == peer_authentication(answer, peer, presented_certificate@, registry_version),
{
    let cert = key_from_lookup(answer, peer, KeyPurpose::TlsCertificate, registry_version)?;
    if bytes_equal(&cert.key_value, presented_certificate) {
        Ok(())
    } else {
        Err(CryptoError::KeyMismatch { key_purpose: KeyPurpose::TlsCertificate, registry_version })
    }
}

/// The node identity that a provider's public keys give, if any.
pub open spec fn identity_from_keys(keys: NodePublicKeys) -> Option<Seq<u8>> {
    match keys.node_signing_pk {
        Some(pk) => if pk.key_value@.len() == ED25519_PUBLIC_KEY_LEN {
            Some(node_id_of(pk.key_value@))
        } else {
            None
        },
        None => None,
    }
}

/// Two providers exposing node-signing keys with the same bytes give
/// components the same node id.
pub proof fn lemma_identity_determinism(keys1: NodePublicKeys, keys2: NodePublicKeys)
    requires
        keys1.node_signing_pk is Some,
        keys2.node_signing_pk is Some,
        keys1.node_signing_pk.unwrap().key_value@ == keys2.node_signing_pk.unwrap().key_value@,
    ensures
        identity_from_keys(keys1) == identity_from_keys(keys2),
{
}

/// Allows a node to sign, verify signatures and authenticate TLS peers.
pub struct CryptoComponentFatClient<C: CryptoServiceProvider, R: RegistryClient> {
    lockable_threshold_sig_data_store: LockableThresholdSigDataStore,
    csp: C,
    registry_client: Arc<R>,
    node_id: NodeId,
}

impl<C: CryptoServiceProvider, R: RegistryClient> CryptoComponentFatClient<C, R> {
    /// The node id of this component.
    pub closed spec fn node_id(&self) -> Seq<u8> {
        self.node_id@
    }

    /// The crypto service provider of this component.
    pub closed spec fn csp(&self) -> C {
        self.csp
    }

    /// The registry client of this component.
    pub closed spec fn registry(&self) -> Arc<R> {
        self.registry_client
    }

    /// Creates a component with the given provider and a fake `node_id`.
    pub fn new_with_csp_and_fake_node_id(csp: C, registry_client: Arc<R>, node_id: NodeId) -> (r:
        Self)
        ensures
            r.node_id() == node_id@,
            r.csp() == csp,
            r.registry() == registry_client,
    {
        CryptoComponentFatClient {
            lockable_threshold_sig_data_store: LockableThresholdSigDataStore::new(),
            csp,
            registry_client,
            node_id,
        }
    }

    /// Creates a component whose identity is derived from `node_pks`, the
    /// public keys that `csp` exposes; fails when they hold no usable
    /// node-signing key.
    pub fn new_with_node_public_keys(csp: C, node_pks: NodePublicKeys, registry_client: Arc<R>) -> (r:
        CryptoResult<Self>)
        ensures
            identity_from_keys(node_pks) is None <==> r is Err,
            r is Err ==> r == Err::<Self, CryptoError>(CryptoError::MissingNodeSigningPublicKey),
            r matches Ok(c) ==> Some(c.node_id()) == identity_from_keys(node_pks) && c.csp() == csp
                && c.registry() == registry_client,
    {
        match &node_pks.node_signing_pk {
            Some(pk) => match derive_node_id(pk) {
                Some(node_id) => Ok(Self::new_with_csp_and_fake_node_id(csp, registry_client, node_id)),
                None => Err(CryptoError::MissingNodeSigningPublicKey),
            },
            None => Err(CryptoError::MissingNodeSigningPublicKey),
        }
    }

    /// Creates a component, deriving the node id from the node-signing
    /// public key of `csp`; a node without one has no identity and must not
    /// start, which the error `MissingNodeSigningPublicKey` tells.
    pub fn new(csp: C, registry_client: Arc<R>) -> (r: CryptoResult<Self>)
        ensures
            r is Err ==> r == Err::<Self, CryptoError>(CryptoError::MissingNodeSigningPublicKey),
            exists|keys: NodePublicKeys|
                #![auto]
                (identity_from_keys(keys) is None <==> r is Err) && (r matches Ok(c) ==> Some(
                    c.node_id(),
                ) == identity_from_keys(keys)),
            r matches Ok(c) ==> c.csp() == csp && c.registry() == registry_client,
    {
        let node_pks = csp.node_public_keys();
        Self::new_with_node_public_keys(csp, node_pks, registry_client)
    }

    /// Creates the restricted view for processes other than the replica.
    pub fn new_for_non_replica_process(csp: C, registry_client: Arc<R>) -> (r: CryptoResult<
        impl CryptoComponentForNonReplicaProcess,
    >)
        ensures
            r is Err ==> r->Err_0 == CryptoError::MissingNodeSigningPublicKey,
    {
        Self::new(csp, registry_client)
    }

    /// Creates the verification-only view; the node id is irrelevant there.
    pub fn new_for_verification_only(csp: C, registry_client: Arc<R>) -> (r:
        impl CryptoComponentForVerificationOnly) {
        let dummy_node_id = NodeId::new(vec![1u8]);
        Self::new_with_csp_and_fake_node_id(csp, registry_client, dummy_node_id)
    }

    /// The node id of this component.
    pub fn get_node_id(&self) -> (r: NodeId)
        ensures
            r@ == self.node_id(),
    {
        NodeId::new(self.node_id.as_bytes().clone())
    }

    /// The registry client of this component.
    pub fn registry_client(&self) -> (r: &Arc<R>)
        ensures
            *r == self.registry(),
    {
        &self.registry_client
    }
}

impl<C: CryptoServiceProvider, R: RegistryClient> CryptoComponentFatClient<C, R> {
    /// Caches threshold verification material for `subject` at
    /// `registry_version`, under the exclusive write lock.
    pub fn load_threshold_sig_data(
        &self,
        subject: u64,
        registry_version: RegistryVersion,
        public_coefficients: Vec<u8>,
    ) {
        let (mut store, handle) = self.lockable_threshold_sig_data_store.write();
        store.insert(subject, registry_version, public_coefficients);
        handle.release_write(store);
    }

    /// The cached threshold verification material for `subject` at
    /// `registry_version`, read under a shared lock.
    pub fn threshold_sig_data(&self, subject: u64, registry_version: RegistryVersion) -> (r: Option<
        Vec<u8>,
    >)
        ensures
            exists|s: Seq<EntryView>|
                #![auto]
                store_wf(s) && match r {
                    Some(d) => lookup(s, subject, registry_version.0) == Some(d@),
                    None => lookup(s, subject, registry_version.0) is None,
                },
    {
        let handle = self.lockable_threshold_sig_data_store.read();
        let ghost s = handle.view()@;
        let found = match handle.borrow().get(subject, registry_version) {
            Some(d) => Some(d.clone()),
            None => None,
        };
        handle.release_read();
        assert(store_wf(s));
        found
    }

    /// Verifies a combined threshold signature of `subject` at
    /// `registry_version` with the cached material; fails with
    /// `ThresholdSigDataNotFound` when none is cached.
    pub fn verify_combined_threshold_sig(
        &self,
        signature: &Vec<u8>,
        message: &Vec<u8>,
        subject: u64,
        registry_version: RegistryVersion,
    ) -> (r: CryptoResult<()>)
        ensures
            exists|s: Seq<EntryView>|
                #![auto]
                store_wf(s) && (lookup(s, subject, registry_version.0) is None ==> r == Err::<
                    (),
                    CryptoError,
                >(CryptoError::ThresholdSigDataNotFound { subject, registry_version })),
    {
        match self.threshold_sig_data(subject, registry_version) {
            Some(public_coefficients) => self.csp.verify_threshold_sig(
                signature,
                message,
                &public_coefficients,
            ),
            None => Err(CryptoError::ThresholdSigDataNotFound { subject, registry_version }),
        }
    }
}

impl<C: CryptoServiceProvider, R: RegistryClient> KeyManager for CryptoComponentFatClient<C, R> {
    fn check_keys_with_registry(&self, registry_version: RegistryVersion) -> CryptoResult<()> {
        let local = self.csp.node_public_keys();
        let registry: &R = &self.registry_client;
        let node_id = NodeId::new(self.node_id.as_bytes().clone());
        let signing = key_from_registry(registry, node_id, KeyPurpose::NodeSigning, registry_version)?;
        check_key_matches(&local.node_signing_pk, &signing, KeyPurpose::NodeSigning, registry_version)?;
        let node_id = NodeId::new(self.node_id.as_bytes().clone());
        let committee = key_from_registry(
            registry,
            node_id,
            KeyPurpose::CommitteeSigning,
            registry_version,
        )?;
        check_key_matches(
            &local.committee_signing_pk,
            &committee,
            KeyPurpose::CommitteeSigning,
            registry_version,
        )
    }
}

impl<C: CryptoServiceProvider, R: RegistryClient> BasicSigner for CryptoComponentFatClient<C, R> {
    fn sign_basic(
        &self,
        message: &Vec<u8>,
        signer: &NodeId,
        registry_version: RegistryVersion,
    ) -> CryptoResult<Vec<u8>> {
        let registry: &R = &self.registry_client;
        let signer = NodeId::new(signer.as_bytes().clone());
        let pk = key_from_registry(registry, signer, KeyPurpose::NodeSigning, registry_version)?;
        self.csp.sign(message, &pk)
    }
}

impl<C: CryptoServiceProvider, R: RegistryClient> BasicSigVerifier for CryptoComponentFatClient<
    C,
    R,
> {
    fn verify_basic_sig(
        &self,
        signature: &Vec<u8>,
        message: &Vec<u8>,
        signer: &NodeId,
        registry_version: RegistryVersion,
    ) -> CryptoResult<()> {
        let registry: &R = &self.registry_client;
        let signer = NodeId::new(signer.as_bytes().clone());
        let pk = key_from_registry(registry, signer, KeyPurpose::NodeSigning, registry_version)?;
        self.csp.verify(signature, message, &pk)
    }
}

impl<C: CryptoServiceProvider, R: RegistryClient> BasicSigVerifierByPublicKey for CryptoComponentFatClient<
    C,
    R,
> {
    fn verify_basic_sig_by_public_key(
        &self,
        signature: &Vec<u8>,
        message: &Vec<u8>,
        public_key: &PublicKeyProto,
    ) -> CryptoResult<()> {
        self.csp.verify(signature, message, public_key)
    }
}

impl<C: CryptoServiceProvider, R: RegistryClient> MultiSigVerifier for CryptoComponentFatClient<
    C,
    R,
> {
    fn verify_multi_sig_individual(
        &self,
        signature: &Vec<u8>,
        message: &Vec<u8>,
        signer: &NodeId,
        registry_version: RegistryVersion,
    ) -> CryptoResult<()> {
        let registry: &R = &self.registry_client;
        let signer = NodeId::new(signer.as_bytes().clone());
        let pk = key_from_registry(registry, signer, KeyPurpose::CommitteeSigning, registry_version)?;
        self.csp.verify(signature, message, &pk)
    }
}

impl<C: CryptoServiceProvider, R: RegistryClient> ThresholdSigVerifierByPublicKey for CryptoComponentFatClient<
    C,
    R,
> {
    fn verify_combined_threshold_sig_by_public_key(
        &self,
        signature: &Vec<u8>,
        message: &Vec<u8>,
        public_coefficients: &Vec<u8>,
    ) -> CryptoResult<()> {
        self.csp.verify_threshold_sig(signature, message, public_coefficients)
    }
}

impl<C: CryptoServiceProvider, R: RegistryClient> TlsHandshake for CryptoComponentFatClient<C, R> {
    fn authenticate_peer(
        &self,
        peer: &NodeId,
        presented_certificate: &Vec<u8>,
        registry_version: RegistryVersion,
    ) -> CryptoResult<()> {
        let peer = NodeId::new(peer.as_bytes().clone());
        let answer = self.registry_client.get_crypto_key_for_node(
            &peer,
            KeyPurpose::TlsCertificate,
            registry_version,
        );
        authenticate_peer_with_lookup(answer, peer, presented_certificate, registry_version)
    }
}

impl<C: CryptoServiceProvider, R: RegistryClient> CryptoComponentForNonReplicaProcess for CryptoComponentFatClient<
    C,
    R,
> {

}

impl<C: CryptoServiceProvider, R: RegistryClient> CryptoComponentForVerificationOnly for CryptoComponentFatClient<
    C,
    R,
> {

}

} // verus!
