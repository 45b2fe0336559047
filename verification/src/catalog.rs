//! The local artifact catalog: which entry a command names, whether the
//! entry is bound to the command, and whether its files are the ones meant.

use crate::digest;
use crate::display;
use crate::identity::{
    CommandView, CredentialGeneration, DeviceCommand, DeviceIdentity, IdentityView, Sha256Digest,
    Uuid,
};
use crate::material;
use crate::material::{CredentialError, ValidatedCredential};
use crate::text;
use std::path::PathBuf;
use vstd::prelude::*;
use vstd::string::*;
use vstd::utf8::*;

verus! {

#[derive(Clone, Copy, Debug, PartialEq, Eq, Structural)]
pub enum CatalogError {
    Unavailable,
    Malformed,
    NotFound,
    BindingMismatch,
    DigestMismatch,
    Revoked,
    Credential(CredentialError),
}

impl CatalogError {
    /// The text that describes the failure.
    pub open spec fn message(self) -> Seq<char> {
        match self {
            CatalogError::Unavailable => "artifact catalog is unavailable"@,
            CatalogError::Malformed => "artifact catalog is malformed or unsupported"@,
            CatalogError::NotFound => "artifact was not found"@,
            CatalogError::BindingMismatch => "artifact binding does not match the command"@,
            CatalogError::DigestMismatch => "artifact digest does not match its files"@,
            CatalogError::Revoked => "artifact credential is revoked"@,
            CatalogError::Credential(error) => error.message(),
        }
    }
}

impl core::fmt::Display for CatalogError {
    fn fmt(&self, formatter: &mut core::fmt::Formatter<'_>) -> (r: Result<(), core::fmt::Error>)
        ensures
            r is Ok ==> display::wrote(*old(formatter), *final(formatter), self.message()),
    {
        formatter.write_str(
            match self {
                CatalogError::Unavailable => "artifact catalog is unavailable",
                CatalogError::Malformed => "artifact catalog is malformed or unsupported",
                CatalogError::NotFound => "artifact was not found",
                CatalogError::BindingMismatch => "artifact binding does not match the command",
                CatalogError::DigestMismatch => "artifact digest does not match its files",
                CatalogError::Revoked => "artifact credential is revoked",
                CatalogError::Credential(error) => error.text(),
            },
        )
    }
}

impl std::error::Error for CatalogError {

}

/// What one catalog entry declares.
pub struct CatalogEntryView {
    pub artifact_id: Seq<char>,
    pub artifact_digest: Seq<char>,
    pub tenant_id: u128,
    pub device_id: u128,
    pub credential_generation: u64,
    pub desired_generation: u64,
    pub fence_epoch: u64,
    pub intent_digest: Seq<char>,
    pub policy_hash: Seq<char>,
    pub revoked: bool,
}

impl CatalogEntryView {
    /// The entry was made for this device and this command's intent.
    pub open spec fn bound_to(self, identity: IdentityView, command: CommandView) -> bool {
        &&& self.tenant_id == identity.tenant
        &&& self.device_id == identity.device
        &&& self.desired_generation == command.desired_generation
        &&& self.fence_epoch == command.fence_epoch
        &&& self.intent_digest == command.intent_digest
        &&& self.policy_hash == command.policy_hash
    }
}

pub struct CatalogEntryV1 {
    pub artifact_id: String,
    pub artifact_digest: String,
    pub tenant_id: Uuid,
    pub device_id: Uuid,
    pub credential_generation: u64,
    pub desired_generation: u64,
    pub fence_epoch: u64,
    pub intent_digest: String,
    pub policy_hash: String,
    pub ca_path: String,
    pub certificate_path: String,
    pub private_key_path: String,
    pub revoked: bool,
}

impl View for CatalogEntryV1 {
    type V = CatalogEntryView;

    open spec fn view(&self) -> CatalogEntryView {
        CatalogEntryView {
            artifact_id: self.artifact_id@,
            artifact_digest: self.artifact_digest@,
            tenant_id: self.tenant_id@,
            device_id: self.device_id@,
            credential_generation: self.credential_generation,
            desired_generation: self.desired_generation,
            fence_epoch: self.fence_epoch,
            intent_digest: self.intent_digest@,
            policy_hash: self.policy_hash@,
            revoked: self.revoked,
        }
    }
}

pub struct CatalogV1 {
    pub schema_version: u8,
    pub artifacts: Vec<CatalogEntryV1>,
}

impl CatalogV1 {
    /// Entry `i` is the first one under the artifact identity.
    pub open spec fn is_entry_for(self, i: int, artifact_id: Seq<char>) -> bool {
        &&& 0 <= i < self.artifacts@.len()
        &&& self.artifacts@[i].artifact_id@ == artifact_id
        &&& forall|j: int|
            0 <= j < i ==> (#[trigger] self.artifacts@[j]).artifact_id@ != artifact_id
    }

    pub open spec fn has_entry_for(self, artifact_id: Seq<char>) -> bool {
        exists|i: int|
            0 <= i < self.artifacts@.len() && (#[trigger] self.artifacts@[i]).artifact_id@
                == artifact_id
    }

    /// Why the named entry cannot be used.
    pub open spec fn entry_error(
        entry: CatalogEntryView,
        identity: IdentityView,
        command: CommandView,
    ) -> Option<CatalogError> {
        if !entry.bound_to(identity, command) {
            Some(CatalogError::BindingMismatch)
        } else if entry.revoked {
            Some(CatalogError::Revoked)
        } else {
            None
        }
    }

    /// The entry that a command names, if it is bound to the command and not revoked.
    pub fn select(&self, identity: &DeviceIdentity, command: &DeviceCommand) -> (r: Result<
        &CatalogEntryV1,
        CatalogError,
    >)
        ensures
            if self.schema_version != 1 {
                r == Err::<&CatalogEntryV1, CatalogError>(CatalogError::Malformed)
            } else if !self.has_entry_for(command@.artifact_id) {
                r == Err::<&CatalogEntryV1, CatalogError>(CatalogError::NotFound)
            } else {
                exists|i: int|
                    #![trigger self.is_entry_for(i, command@.artifact_id)]
                    self.is_entry_for(i, command@.artifact_id) && match Self::entry_error(
                        self.artifacts@[i]@,
                        identity@,
                        command@,
                    ) {
                        Some(error) => r == Err::<&CatalogEntryV1, CatalogError>(error),
                        None => r is Ok && *r->Ok_0 == self.artifacts@[i],
                    }
            },
    {
        if self.schema_version != 1 {
            return Err(CatalogError::Malformed);
        }
        let mut i: usize = 0;
        while i < self.artifacts.len()
            invariant
                self.schema_version == 1,
                i <= self.artifacts@.len(),
                forall|j: int|
                    0 <= j < i ==> (#[trigger] self.artifacts@[j]).artifact_id@
                        != command@.artifact_id,
            decreases self.artifacts@.len() - i,
        {
            let entry = &self.artifacts[i];
            if text::same(entry.artifact_id.as_str(), command.artifact_id().expose()) {
                assert(self.is_entry_for(i as int, command@.artifact_id));
                if !validate_binding(identity, command, entry) {
                    return Err(CatalogError::BindingMismatch);
                }
                if entry.revoked {
                    return Err(CatalogError::Revoked);
                }
                return Ok(entry);
            }
            i = i + 1;
        }
        Err(CatalogError::NotFound)
    }
}

/// An entry that is revoked, or bound to another device, position or intent,
/// never leads to an artifact.
pub proof fn law_revoked_and_foreign_entries_are_refused(
    entry: CatalogEntryView,
    identity: IdentityView,
    command: CommandView,
)
    requires
        entry.revoked || !entry.bound_to(identity, command),
    ensures
        CatalogV1::entry_error(entry, identity, command) == Some(
            if entry.bound_to(identity, command) {
                CatalogError::Revoked
            } else {
                CatalogError::BindingMismatch
            },
        ),
{
}

fn validate_binding(
    identity: &DeviceIdentity,
    command: &DeviceCommand,
    entry: &CatalogEntryV1,
) -> (r: bool)
    ensures
        r == entry@.bound_to(identity@, command@),
{
    entry.tenant_id.same(identity.tenant()) && entry.device_id.same(identity.device())
        && entry.desired_generation == command.desired_generation().get() && entry.fence_epoch
        == command.fence_epoch().get() && text::same(
        entry.intent_digest.as_str(),
        command.intent_digest().expose(),
    ) && text::same(entry.policy_hash.as_str(), command.policy_hash().expose())
}

/// A length of fixed width in front of the bytes it counts.
pub open spec fn sized(bytes: Seq<u8>) -> Seq<u8> {
    text::be_bytes(bytes.len(), 8) + bytes
}

/// The bytes whose digest identifies a credential closure.
pub open spec fn artifact_bytes(
    ca: Seq<u8>,
    certificate: Seq<u8>,
    private_key: Seq<u8>,
) -> Seq<u8> {
    encode_utf8("rss.reference-device-agent.artifact.v1\0"@) + sized(ca) + sized(certificate)
        + sized(private_key)
}

pub open spec fn artifact_digest_of(
    ca: Seq<u8>,
    certificate: Seq<u8>,
    private_key: Seq<u8>,
) -> Seq<char> {
    digest::digest_text_of(artifact_bytes(ca, certificate, private_key))
}

fn push_sized(out: &mut Vec<u8>, bytes: &[u8])
    ensures
        final(out)@ == old(out)@ + sized(bytes@),
{
    let ghost before = out@;
    text::push_be(out, bytes.len() as u128, 8);
    text::push_bytes(out, bytes);
    assert(out@ =~= before + sized(bytes@));
}

/// Computes the domain-separated digest of a local credential artifact closure.
pub fn compute_artifact_digest_bytes(ca: &[u8], certificate: &[u8], private_key: &[u8]) -> (r:
    Result<Sha256Digest, CatalogError>)
    ensures
        r is Ok,
        r->Ok_0@ == artifact_digest_of(ca@, certificate@, private_key@),
{
    let mut bytes: Vec<u8> = Vec::new();
    text::push_text(&mut bytes, "rss.reference-device-agent.artifact.v1\0");
    push_sized(&mut bytes, ca);
    push_sized(&mut bytes, certificate);
    push_sized(&mut bytes, private_key);
    assert(bytes@ =~= artifact_bytes(ca@, certificate@, private_key@));
    match Sha256Digest::try_from(digest::digest_text(bytes.as_slice())) {
        Ok(computed) => Ok(computed),
        Err(_) => Err(CatalogError::Malformed),
    }
}

/// Different credential closures have different preimages: no byte can move
/// from one file to another unnoticed.
pub proof fn law_artifact_bytes_injective(
    ca: Seq<u8>,
    certificate: Seq<u8>,
    private_key: Seq<u8>,
    other_ca: Seq<u8>,
    other_certificate: Seq<u8>,
    other_private_key: Seq<u8>,
)
    requires
        ca.len() <= u64::MAX,
        certificate.len() <= u64::MAX,
        private_key.len() <= u64::MAX,
        other_ca.len() <= u64::MAX,
        other_certificate.len() <= u64::MAX,
        other_private_key.len() <= u64::MAX,
        artifact_bytes(ca, certificate, private_key) == artifact_bytes(
            other_ca,
            other_certificate,
            other_private_key,
        ),
    ensures
        ca == other_ca,
        certificate == other_certificate,
        private_key == other_private_key,
{
    let domain = encode_utf8("rss.reference-device-agent.artifact.v1\0"@);
    let a = artifact_bytes(ca, certificate, private_key);
    let b = artifact_bytes(other_ca, other_certificate, other_private_key);
    let rest_a = sized(certificate) + sized(private_key);
    let rest_b = sized(other_certificate) + sized(other_private_key);
    assert(a.skip(domain.len() as int) =~= sized(ca) + rest_a);
    assert(b.skip(domain.len() as int) =~= sized(other_ca) + rest_b);
    lemma_sized_prefix(ca, rest_a, other_ca, rest_b);
    lemma_sized_prefix(certificate, sized(private_key), other_certificate, sized(other_private_key));
    assert(sized(private_key) + Seq::<u8>::empty() =~= sized(private_key));
    assert(sized(other_private_key) + Seq::<u8>::empty() =~= sized(other_private_key));
    lemma_sized_prefix(private_key, Seq::empty(), other_private_key, Seq::empty());
}

/// A sized run is read back exactly, whatever follows it.
pub proof fn lemma_sized_prefix(a: Seq<u8>, rest_a: Seq<u8>, b: Seq<u8>, rest_b: Seq<u8>)
    requires
        a.len() <= u64::MAX,
        b.len() <= u64::MAX,
        sized(a) + rest_a == sized(b) + rest_b,
    ensures
        a == b,
        rest_a == rest_b,
{
    let x = sized(a) + rest_a;
    let y = sized(b) + rest_b;
    text::lemma_be_bytes_len(a.len(), 8);
    text::lemma_be_bytes_len(b.len(), 8);
    assert(x.take(8) =~= text::be_bytes(a.len(), 8));
    assert(y.take(8) =~= text::be_bytes(b.len(), 8));
    text::lemma_pow_256();
    text::lemma_be_bytes_injective(a.len(), b.len(), 8);
    assert(x.subrange(8, 8 + a.len() as int) =~= a);
    assert(y.subrange(8, 8 + b.len() as int) =~= b);
    assert(x.skip(8 + a.len() as int) =~= rest_a);
    assert(y.skip(8 + b.len() as int) =~= rest_b);
}

/// An artifact whose files were found to be the ones meant.
pub struct ResolvedArtifact {
    pub credential_generation: CredentialGeneration,
    pub credential: ValidatedCredential,
    pub digest: Sha256Digest,
}

/// What an artifact brings to a rotation.
pub struct ArtifactView {
    pub credential_generation: u64,
    pub digest: Seq<char>,
    pub expires_at: i64,
}

impl View for ResolvedArtifact {
    type V = ArtifactView;

    open spec fn view(&self) -> ArtifactView {
        ArtifactView {
            credential_generation: self.credential_generation@,
            digest: self.digest@,
            expires_at: self.credential.expires_at,
        }
    }
}

/// What becomes of the files that an entry points to.
pub open spec fn resolution(
    entry: CatalogEntryView,
    identity: IdentityView,
    command: CommandView,
    ca: Seq<u8>,
    certificate: Seq<u8>,
    private_key: Seq<u8>,
    now: u64,
) -> Result<ArtifactView, CatalogError> {
    let computed = artifact_digest_of(ca, certificate, private_key);
    if !digest::is_digest_text(entry.artifact_digest) {
        Err(CatalogError::Malformed)
    } else if computed != command.artifact_digest || computed != entry.artifact_digest {
        Err(CatalogError::DigestMismatch)
    } else if entry.credential_generation == 0 {
        Err(CatalogError::Malformed)
    } else if identity.tenant == 0 || identity.device == 0 {
        Err(CatalogError::BindingMismatch)
    } else {
        match material::credential_verdict(
            ca,
            certificate,
            private_key,
            IdentityView { credential_generation: entry.credential_generation, ..identity },
            now,
        ) {
            Ok(expires_at) => Ok(
                ArtifactView {
                    credential_generation: entry.credential_generation,
                    digest: computed,
                    expires_at,
                },
            ),
            Err(error) => Err(CatalogError::Credential(error)),
        }
    }
}

impl CatalogEntryV1 {
    /// Accepts the bytes of the entry's files for the command's device.
    pub fn resolve(
        &self,
        identity: &DeviceIdentity,
        command: &DeviceCommand,
        ca: Vec<u8>,
        certificate: Vec<u8>,
        private_key: Vec<u8>,
        now_epoch_seconds: u64,
    ) -> (r: Result<ResolvedArtifact, CatalogError>)
        ensures
            match resolution(
                self@,
                identity@,
                command@,
                ca@,
                certificate@,
                private_key@,
                now_epoch_seconds,
            ) {
                Ok(artifact) => {
                    &&& r is Ok
                    &&& r->Ok_0@ == artifact
                    &&& r->Ok_0.credential.ca == ca
                    &&& r->Ok_0.credential.certificate == certificate
                    &&& r->Ok_0.credential.private_key == private_key
                },
                Err(error) => r == Err::<ResolvedArtifact, CatalogError>(error),
            },
    {
        let computed = match compute_artifact_digest_bytes(
            ca.as_slice(),
            certificate.as_slice(),
            private_key.as_slice(),
        ) {
            Ok(computed) => computed,
            Err(error) => {
                return Err(error);
            },
        };
        let declared = match Sha256Digest::try_from(self.artifact_digest.as_str()) {
            Ok(declared) => declared,
            Err(_) => {
                return Err(CatalogError::Malformed);
            },
        };
        if !text::same(computed.expose(), command.artifact_digest().expose()) || !text::same(
            computed.expose(),
            declared.expose(),
        ) {
            return Err(CatalogError::DigestMismatch);
        }
        let generation = match CredentialGeneration::try_from(self.credential_generation) {
            Ok(generation) => generation,
            Err(_) => {
                return Err(CatalogError::Malformed);
            },
        };
        let target = match DeviceIdentity::try_new(
            identity.tenant(),
            identity.device(),
            generation,
        ) {
            Ok(target) => target,
            Err(_) => {
                return Err(CatalogError::BindingMismatch);
            },
        };
        assert(target@ == (IdentityView {
            credential_generation: self.credential_generation,
            ..identity@
        }));
        match material::validate_credential_bytes(
            ca,
            certificate,
            private_key,
            &target,
            now_epoch_seconds,
        ) {
            Ok(credential) => Ok(
                ResolvedArtifact { credential_generation: generation, credential, digest: computed },
            ),
            Err(error) => Err(CatalogError::Credential(error)),
        }
    }
}

/// What an opened catalog file must be.
pub open spec fn opened_file_error(
    regular: bool,
    private_key: bool,
    mode: u32,
) -> Option<CatalogError> {
    if !regular {
        Some(CatalogError::Malformed)
    } else if private_key && !material::is_owner_only(mode) {
        Some(CatalogError::Credential(CredentialError::InsecurePrivateKey))
    } else {
        None
    }
}

/// Judges an opened catalog file by its metadata before it is read.
pub fn check_opened_file(regular: bool, private_key: bool, mode: u32) -> (r: Result<
    (),
    CatalogError,
>)
    ensures
        match opened_file_error(regular, private_key, mode) {
            Some(error) => r == Err::<(), CatalogError>(error),
            None => r is Ok,
        },
{
    if !regular {
        return Err(CatalogError::Malformed);
    }
    if private_key {
        match material::require_private_key_mode(mode) {
            Ok(()) => {},
            Err(error) => {
                return Err(CatalogError::Credential(error));
            },
        }
    }
    Ok(())
}

/// Where the catalog lies.
#[derive(Debug)]
pub struct ArtifactCatalog {
    path: PathBuf,
}

impl View for ArtifactCatalog {
    type V = PathBuf;

    closed spec fn view(&self) -> PathBuf {
        self.path
    }
}

impl ArtifactCatalog {
    #[must_use]
    pub fn new(path: PathBuf) -> (r: Self)
        ensures
            r@ == path,
    {
        ArtifactCatalog { path }
    }

    #[must_use]
    pub fn path(&self) -> (r: &PathBuf)
        ensures
            *r == self@,
    {
        &self.path
    }
}

} // verus!
