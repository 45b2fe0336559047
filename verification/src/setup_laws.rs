//! Laws of what an agent is set up with: its configuration, its store, the
//! artifacts of its catalog and the credentials it takes.

use crate::assertion;
use crate::assertion::{BrokerAssertionError, BrokerAssertionVerifier};
use crate::catalog;
use crate::catalog::{CatalogEntryV1, CatalogError, ResolvedArtifact};
use crate::catalog_path;
use crate::config::{ConfigError, ConfigPaths, ConfigV1, RuntimeConfig};
use crate::digest;
use crate::identity;
use crate::identity::{DeviceCommand, DeviceIdentity, IdentityView, Sha256Digest};
use crate::material;
use crate::material::{ChainCheck, CredentialError, ValidatedCredential};
use crate::state::StoreError;
use crate::store;
use crate::store::Opening;
use crate::text;
use crate::text_laws::controls;
use vstd::prelude::*;
use vstd::utf8::*;

verus! {

/// The directories of a revision are named after its number.
pub proof fn law_revisions_are_named_by_number(revision: u64, installed: String, staged: String)
    requires
        call_ensures(store::revision_name, (revision,), installed),
        call_ensures(store::staging_name, (revision,), staged),
    ensures
        installed@ == "revision-"@ + text::decimal(revision as nat),
        staged@ == ".revision-"@ + text::decimal(revision as nat) + ".staging"@,
{
}

/// The name starts like that of an installed revision.
pub open spec fn names_revision(name: Seq<char>) -> bool {
    &&& name.len() >= 9
    &&& name.take(9) == "revision-"@
}

/// A store whose state is found is resumed. One without a state is
/// initialized only if nothing was ever installed in it: a name like that of
/// an installed revision makes it invalid.
pub proof fn law_stores_are_never_initialized_over_a_revision(
    state_found: bool,
    names: &Vec<String>,
    found: bool,
    r: Result<Opening, StoreError>,
)
    requires
        call_ensures(store::has_committed_revision, (names,), found),
        call_ensures(store::opening, (state_found, names), r),
    ensures
        found <==> exists|i: int| 0 <= i < names@.len() && names_revision(#[trigger] names@[i]@),
        state_found ==> r == Ok::<Opening, StoreError>(Opening::Resume),
        !state_found && found ==> r == Err::<Opening, StoreError>(StoreError::InvalidState),
        !state_found && !found ==> r == Ok::<Opening, StoreError>(Opening::Initialize),
{
    reveal_strlit("revision-");
    let told = text::texts(names@);
    if found {
        let i = choose|i: int| 0 <= i < told.len() && store::is_committed(#[trigger] told[i]);
        assert(told[i] == names@[i]@);
        assert(names_revision(names@[i]@));
    }
    if exists|i: int| 0 <= i < names@.len() && names_revision(#[trigger] names@[i]@) {
        let i = choose|i: int| 0 <= i < names@.len() && names_revision(#[trigger] names@[i]@);
        assert(store::is_committed(told[i]));
    }
}

/// The name of any revision is that of an installed one, and the name it is
/// staged under is not.
pub proof fn law_staged_revisions_are_not_installed(
    revision: u64,
    installed: String,
    staged: String,
)
    requires
        call_ensures(store::revision_name, (revision,), installed),
        call_ensures(store::staging_name, (revision,), staged),
    ensures
        names_revision(installed@),
        !names_revision(staged@),
{
    reveal_strlit("revision-");
    reveal_strlit(".revision-");
    assert(installed@.take(9) =~= "revision-"@);
    assert(staged@[0] == '.');
    if staged@.len() >= 9 {
        assert(staged@.take(9)[0] == '.');
    }
}

/// A revision is installed again only over the same three files.
pub proof fn law_revisions_are_never_overwritten(
    ca: &Option<Vec<u8>>,
    certificate: &Option<Vec<u8>>,
    private_key: &Option<Vec<u8>>,
    credential: &ValidatedCredential,
    r: Result<(), StoreError>,
)
    requires
        call_ensures(
            store::verify_existing_revision,
            (ca, certificate, private_key, credential),
            r,
        ),
    ensures
        r is Ok <==> {
            &&& *ca is Some && (*ca)->0@ == credential.ca@
            &&& *certificate is Some && (*certificate)->0@ == credential.certificate@
            &&& *private_key is Some && (*private_key)->0@ == credential.private_key@
        },
        r is Err ==> r->Err_0 == StoreError::RevisionConflict,
{
}

/// A host, port and client identity that a session can be opened with.
pub open spec fn connectable(host: Seq<char>, port: u16, client_id: Seq<char>) -> bool {
    &&& exists|i: int| 0 <= i < host.len() && !text::is_white_space(#[trigger] host[i])
    &&& forall|i: int| 0 <= i < host.len() ==> !controls(#[trigger] host[i])
    &&& port > 0
    &&& client_id.len() > 0
    &&& forall|i: int| 0 <= i < client_id.len() ==> !controls(#[trigger] client_id[i])
}

pub(crate) proof fn lemma_connectable(connection: identity::ConnectionView)
    ensures
        connection.error() is None <==> connectable(
            connection.host,
            connection.port,
            connection.client_id,
        ),
{
    let host = connection.host;
    let client_id = connection.client_id;
    if connection.error() is None {
        let i = choose|i: int| 0 <= i < host.len() && !text::is_white_space(#[trigger] host[i]);
        assert(!text::is_white_space(host[i]));
        assert forall|i: int| 0 <= i < host.len() implies !controls(#[trigger] host[i]) by {
            assert(!text::is_control(host[i]));
        }
        assert forall|i: int| 0 <= i < client_id.len() implies !controls(
            #[trigger] client_id[i],
        ) by {
            assert(!text::is_control(client_id[i]));
        }
    }
    if connectable(host, connection.port, client_id) {
        assert forall|i: int| 0 <= i < host.len() implies !text::is_control(#[trigger] host[i]) by {
            assert(!controls(host[i]));
        }
        assert forall|i: int| 0 <= i < client_id.len() implies !text::is_control(
            #[trigger] client_id[i],
        ) by {
            assert(!controls(client_id[i]));
        }
    }
}

/// A document that an agent can run with, under its own directory and with a
/// broker key: version one, an identity and a position without a zero, the
/// client identity of the device, a session that lasts, room for requests
/// and coordinates that can be connected to.
pub open spec fn runnable(raw: ConfigV1) -> bool {
    &&& raw.schema_version == 1
    &&& raw.tenant_id@ != 0
    &&& raw.device_id@ != 0
    &&& raw.credential_generation != 0
    &&& raw.mqtt.client_id@ == "rss-reference-device-"@ + identity::hyphenated(raw.tenant_id@)
        + "-"@ + identity::hyphenated(raw.device_id@)
    &&& raw.mqtt.session_expiry_seconds != 0
    &&& raw.mqtt.request_capacity != 0
    &&& raw.initial.desired_generation != 0
    &&& raw.initial.fence_epoch != 0
    &&& raw.initial.credential_revision != 0
    &&& connectable(raw.mqtt.host@, raw.mqtt.port, raw.mqtt.client_id@)
}

/// The runtime says what the document says, field by field; commands are
/// kept for as long as the session lasts.
pub open spec fn runs(
    config: RuntimeConfig,
    raw: ConfigV1,
    paths: ConfigPaths,
    key: Seq<u8>,
) -> bool {
    &&& config.agent.identity@.tenant == raw.tenant_id@
    &&& config.agent.identity@.device == raw.device_id@
    &&& config.agent.identity@.credential_generation == raw.credential_generation
    &&& config.agent.state_directory == paths.state_directory
    &&& config.agent.catalog@ == paths.artifact_catalog
    &&& config.agent.initial_credentials@.ca_certificate == paths.ca_certificate
    &&& config.agent.initial_credentials@.certificate_chain == paths.certificate_chain
    &&& config.agent.initial_credentials@.private_key == paths.private_key
    &&& config.agent.initial_position@.desired_generation == raw.initial.desired_generation
    &&& config.agent.initial_position@.fence_epoch == raw.initial.fence_epoch
    &&& config.agent.initial_position@.credential_revision == raw.initial.credential_revision
    &&& config.agent.command_retention_seconds@ == raw.mqtt.session_expiry_seconds
    &&& config.mqtt@.host == raw.mqtt.host@
    &&& config.mqtt@.port == raw.mqtt.port
    &&& config.mqtt@.client_id == raw.mqtt.client_id@
    &&& config.mqtt@.session_expiry_seconds == raw.mqtt.session_expiry_seconds
    &&& config.mqtt@.request_capacity == raw.mqtt.request_capacity
    &&& config.assertion_verifier@ == key
}

/// An agent runs with a document exactly if it can, and then with what the
/// document says.
pub proof fn law_agents_run_with_what_is_configured(
    raw: ConfigV1,
    paths: Option<ConfigPaths>,
    verifier: Result<BrokerAssertionVerifier, BrokerAssertionError>,
    r: Result<RuntimeConfig, ConfigError>,
)
    requires
        call_ensures(RuntimeConfig::with_verifier, (raw, paths, verifier), r),
    ensures
        r is Ok <==> runnable(raw) && paths is Some && verifier is Ok,
        r is Ok ==> runs(r->Ok_0, raw, paths->0, verifier->Ok_0@),
{
    lemma_connectable(raw.connection());
}

/// A document is loaded like this with the broker key that it names.
pub proof fn law_documents_are_loaded_with_their_broker_key(
    raw: ConfigV1,
    paths: Option<ConfigPaths>,
    r: Result<RuntimeConfig, ConfigError>,
)
    requires
        call_ensures(RuntimeConfig::load, (raw, paths), r),
    ensures
        ({
            let key = assertion::broker_key(raw.mqtt.broker_assertion_public_key@);
            &&& r is Ok <==> runnable(raw) && paths is Some && key is Some
            &&& r is Ok ==> runs(r->Ok_0, raw, paths->0, key->0)
        }),
{
    lemma_connectable(raw.connection());
}

/// Each thing that is wrong is told by its name, where nothing looked at
/// before it is wrong.
pub proof fn law_configuration_failures_are_told_by_name(
    raw: ConfigV1,
    paths: Option<ConfigPaths>,
    verifier: Result<BrokerAssertionVerifier, BrokerAssertionError>,
    r: Result<RuntimeConfig, ConfigError>,
)
    requires
        call_ensures(RuntimeConfig::with_verifier, (raw, paths, verifier), r),
        r is Err,
    ensures
        r->Err_0 is UnsupportedSchema <==> raw.schema_version != 1,
        r->Err_0 is MissingBaseDirectory <==> raw.schema_version == 1 && paths is None,
        r->Err_0 is InvalidIdentity ==> raw.credential_generation == 0 || raw.tenant_id@ == 0
            || raw.device_id@ == 0,
        raw.schema_version == 1 && paths is Some && (raw.credential_generation == 0
            || raw.tenant_id@ == 0 || raw.device_id@ == 0) ==> r->Err_0 is InvalidIdentity,
        r->Err_0 is ClientIdentityMismatch ==> raw.mqtt.client_id@ != "rss-reference-device-"@
            + identity::hyphenated(raw.tenant_id@) + "-"@ + identity::hyphenated(raw.device_id@),
        r->Err_0 is InvalidSessionExpiry ==> raw.mqtt.session_expiry_seconds == 0,
        r->Err_0 is InvalidDesiredGeneration ==> raw.initial.desired_generation == 0,
        r->Err_0 is InvalidFenceEpoch ==> raw.initial.fence_epoch == 0,
        r->Err_0 is InvalidCredentialRevision ==> raw.initial.credential_revision == 0,
        r->Err_0 is InvalidBrokerAssertionKey ==> verifier is Err,
        r->Err_0 is InvalidRequestCapacity ==> raw.mqtt.request_capacity == 0,
        r->Err_0 is InvalidMqtt ==> !connectable(
            raw.mqtt.host@,
            raw.mqtt.port,
            raw.mqtt.client_id@,
        ),
        !(r->Err_0 is Unavailable) && !(r->Err_0 is InvalidJson),
{
    lemma_connectable(raw.connection());
}

/// The bytes that an artifact is known by: a domain, and each of the three
/// files behind its own length.
pub open spec fn artifact_preimage(
    ca: Seq<u8>,
    certificate: Seq<u8>,
    private_key: Seq<u8>,
) -> Seq<u8> {
    encode_utf8("rss.reference-device-agent.artifact.v1\0"@) + text::be_bytes(ca.len(), 8) + ca
        + text::be_bytes(certificate.len(), 8) + certificate + text::be_bytes(
        private_key.len(),
        8,
    ) + private_key
}

/// The digest of an artifact, as text.
pub open spec fn artifact_known_by(
    ca: Seq<u8>,
    certificate: Seq<u8>,
    private_key: Seq<u8>,
) -> Seq<char> {
    "sha256:"@ + text::hex(digest::sha256_of(artifact_preimage(ca, certificate, private_key)))
}

proof fn lemma_artifact_known_by(ca: Seq<u8>, certificate: Seq<u8>, private_key: Seq<u8>)
    ensures
        catalog::artifact_digest_of(ca, certificate, private_key) == artifact_known_by(
            ca,
            certificate,
            private_key,
        ),
{
    assert(catalog::artifact_bytes(ca, certificate, private_key) =~= artifact_preimage(
        ca,
        certificate,
        private_key,
    ));
}

/// An artifact is known by the digest of its three files.
pub proof fn law_artifacts_are_known_by_their_files(
    ca: &[u8],
    certificate: &[u8],
    private_key: &[u8],
    r: Result<Sha256Digest, CatalogError>,
)
    requires
        call_ensures(catalog::compute_artifact_digest_bytes, (ca, certificate, private_key), r),
    ensures
        r is Ok,
        r->Ok_0@ == artifact_known_by(ca@, certificate@, private_key@),
{
    lemma_artifact_known_by(ca@, certificate@, private_key@);
}

/// Credential material holds up for a principal at a time until a date: its
/// files read as certificates and a key, the key is the one the chain
/// certifies, the chain leads to the anchors at that time, and its first
/// certificate names the principal.
pub open spec fn credible(
    ca: Seq<u8>,
    certificate: Seq<u8>,
    private_key: Seq<u8>,
    principal: Seq<char>,
    now: u64,
    expires_at: i64,
) -> bool {
    &&& material::pem_certificates(ca) is Some
    &&& material::pem_certificates(ca)->0.len() > 0
    &&& material::pem_certificates(certificate) is Some
    &&& material::pem_certificates(certificate)->0.len() > 0
    &&& material::pem_private_key(private_key) is Some
    &&& ({
        let roots = material::pem_certificates(ca)->0;
        let chain = material::pem_certificates(certificate)->0;
        let (format, key) = material::pem_private_key(private_key)->0;
        &&& material::key_certified(chain, format, key)
        &&& material::anchor_count(roots) > 0
        &&& material::chain_check(roots, chain[0], chain.drop_first(), now) is Accepted
        &&& material::subject_names(chain[0]) is Some
        &&& exists|i: int|
            0 <= i < material::subject_names(chain[0])->0.len() && #[trigger]
                material::subject_names(chain[0])->0[i] == Some(principal)
        &&& material::validity_end(chain[0]) == Some(expires_at)
    })
}

/// The principal of a device under a credential generation.
pub open spec fn principal(tenant: u128, device: u128, credential_generation: u64) -> Seq<char> {
    "urn:rss:mqtt-device:v1:"@ + identity::hyphenated(tenant) + ":"@ + identity::hyphenated(device)
        + ":"@ + text::decimal(credential_generation as nat)
}

proof fn lemma_credible(
    ca: Seq<u8>,
    certificate: Seq<u8>,
    private_key: Seq<u8>,
    identity: IdentityView,
    now: u64,
)
    ensures
        forall|expires_at: i64|
            material::credential_verdict(ca, certificate, private_key, identity, now) == Ok::<
                i64,
                CredentialError,
            >(expires_at) <==> #[trigger] credible(
                ca,
                certificate,
                private_key,
                principal(identity.tenant, identity.device, identity.credential_generation),
                now,
                expires_at,
            ),
{
    assert(identity.principal_urn() =~= principal(
        identity.tenant,
        identity.device,
        identity.credential_generation,
    ));
}

/// Credential material is taken exactly if it holds up for the device at the
/// time; the three files are kept as they are, with the end of their
/// validity.
pub proof fn law_credentials_hold_up_for_the_device(
    ca: Vec<u8>,
    certificate: Vec<u8>,
    private_key: Vec<u8>,
    identity: &DeviceIdentity,
    now: u64,
    r: Result<ValidatedCredential, CredentialError>,
)
    requires
        call_ensures(
            material::validate_credential_bytes,
            (ca, certificate, private_key, identity, now),
            r,
        ),
    ensures
        ({
            let who = principal(
                identity@.tenant,
                identity@.device,
                identity@.credential_generation,
            );
            &&& r is Ok <==> exists|expires_at: i64| #[trigger]
                credible(ca@, certificate@, private_key@, who, now, expires_at)
            &&& r is Ok ==> {
                &&& credible(ca@, certificate@, private_key@, who, now, r->Ok_0.expires_at)
                &&& r->Ok_0.ca == ca
                &&& r->Ok_0.certificate == certificate
                &&& r->Ok_0.private_key == private_key
            }
        }),
{
    lemma_credible(ca@, certificate@, private_key@, identity@, now);
    if r is Ok {
        assert(credible(
            ca@,
            certificate@,
            private_key@,
            principal(identity@.tenant, identity@.device, identity@.credential_generation),
            now,
            r->Ok_0.expires_at,
        ));
    }
}

/// Refused credential material is told apart: a chain that does not lead to
/// usable anchors is untrusted, a certificate for someone else is a mismatch,
/// and everything else is malformed.
pub proof fn law_refused_credentials_are_told_apart(
    ca: Vec<u8>,
    certificate: Vec<u8>,
    private_key: Vec<u8>,
    identity: &DeviceIdentity,
    now: u64,
    r: Result<ValidatedCredential, CredentialError>,
)
    requires
        call_ensures(
            material::validate_credential_bytes,
            (ca, certificate, private_key, identity, now),
            r,
        ),
        r is Err,
    ensures
        r->Err_0 is Untrusted || r->Err_0 is IdentityMismatch || r->Err_0 is Malformed,
        r->Err_0 is Untrusted ==> material::chain_check(
            material::pem_certificates(ca@)->0,
            material::pem_certificates(certificate@)->0[0],
            material::pem_certificates(certificate@)->0.drop_first(),
            now,
        ) is Rejected,
        r->Err_0 is IdentityMismatch ==> {
            let names = material::subject_names(material::pem_certificates(certificate@)->0[0]);
            names is Some && forall|i: int|
                0 <= i < names->0.len() ==> #[trigger] names->0[i] != Some(
                    principal(
                        identity@.tenant,
                        identity@.device,
                        identity@.credential_generation,
                    ),
                )
        },
        material::pem_private_key(private_key@) is None ==> r->Err_0 is Malformed,
{
    assert(identity@.principal_urn() =~= principal(
        identity@.tenant,
        identity@.device,
        identity@.credential_generation,
    ));
}

/// A chain passes exactly if there is an anchor and it was accepted; without
/// a usable anchor it is malformed, and one that was rejected is untrusted.
pub proof fn law_chains_need_an_anchor(
    anchors: usize,
    check: ChainCheck,
    r: Result<(), CredentialError>,
)
    requires
        call_ensures(material::judge_chain, (anchors, check), r),
    ensures
        r is Ok <==> anchors > 0 && check is Accepted,
        anchors == 0 ==> r->Err_0 is Malformed,
        check is NoVerifier ==> r->Err_0 is Malformed,
        anchors > 0 && check is Rejected ==> r->Err_0 is Untrusted,
{
}

/// A certificate passes exactly if its names were read, one of them is the
/// principal, and the end of its validity was read; that end is returned.
pub proof fn law_certificates_name_the_principal(
    names: Option<Vec<Option<String>>>,
    expires_at: Option<i64>,
    who: &str,
    r: Result<i64, CredentialError>,
)
    requires
        call_ensures(material::judge_identity, (names, expires_at, who), r),
    ensures
        ({
            let named = names is Some && exists|i: int|
                0 <= i < names->0@.len() && (#[trigger] names->0@[i]) is Some && names->0@[i]->0@
                    == who@;
            &&& r is Ok <==> named && expires_at is Some
            &&& r is Ok ==> r->Ok_0 == expires_at->0
            &&& names is None ==> r->Err_0 is Malformed
            &&& names is Some && !named ==> r->Err_0 is IdentityMismatch
            &&& named && expires_at is None ==> r->Err_0 is Malformed
        }),
{
    if names is Some {
        let listed = names->0@;
        let told = material::names_view(listed);
        assert forall|i: int| 0 <= i < listed.len() implies (#[trigger] told[i] == Some(who@)
            <==> listed[i] is Some && listed[i]->0@ == who@) by {}
        if material::names_principal(told, who@) {
            let i = choose|i: int| 0 <= i < told.len() && #[trigger] told[i] == Some(who@);
            assert(listed[i] is Some && listed[i]->0@ == who@);
        }
        if exists|i: int|
            0 <= i < listed.len() && (#[trigger] listed[i]) is Some && listed[i]->0@ == who@ {
            let i = choose|i: int|
                0 <= i < listed.len() && (#[trigger] listed[i]) is Some && listed[i]->0@ == who@;
            assert(told[i] == Some(who@));
        }
    }
}

/// A file must hold certificates: what was read is handed on, unless nothing was.
pub proof fn law_certificate_files_hold_certificates(
    parsed: Option<Vec<Vec<u8>>>,
    r: Result<Vec<Vec<u8>>, CredentialError>,
)
    requires
        call_ensures(material::require_certificates, (parsed,), r),
    ensures
        r is Ok <==> parsed is Some && parsed->0@.len() > 0,
        r is Ok ==> r->Ok_0 == parsed->0,
        r is Err ==> r->Err_0 is Malformed,
{
}

/// Nobody but the owner may read, write or run a private key.
pub proof fn law_private_keys_are_the_owners_alone(mode: u32, r: Result<(), CredentialError>)
    requires
        call_ensures(material::require_private_key_mode, (mode,), r),
    ensures
        r is Ok <==> mode % 64 == 0,
        r is Err ==> r->Err_0 is InsecurePrivateKey,
{
    assert(mode & 0o077 == mode % 64) by (bit_vector);
}

/// A catalog file is read only if it is a regular file, and a private key
/// only if it is its owner's alone.
pub proof fn law_catalog_files_are_regular_and_keys_private(
    regular: bool,
    private_key: bool,
    mode: u32,
    r: Result<(), CatalogError>,
)
    requires
        call_ensures(catalog::check_opened_file, (regular, private_key, mode), r),
    ensures
        r is Ok <==> regular && (private_key ==> mode % 64 == 0),
        !regular ==> r->Err_0 is Malformed,
        regular && r is Err ==> r->Err_0 == CatalogError::Credential(
            CredentialError::InsecurePrivateKey,
        ),
{
    assert(mode & 0o077 == mode % 64) by (bit_vector);
}

/// The files of an entry make an artifact for a command.
pub open spec fn resolves(
    entry: CatalogEntryV1,
    identity: IdentityView,
    command: identity::CommandView,
    ca: Seq<u8>,
    certificate: Seq<u8>,
    private_key: Seq<u8>,
    now: u64,
    expires_at: i64,
) -> bool {
    &&& entry.artifact_digest@ == artifact_known_by(ca, certificate, private_key)
    &&& command.artifact_digest == artifact_known_by(ca, certificate, private_key)
    &&& entry.credential_generation != 0
    &&& identity.tenant != 0
    &&& identity.device != 0
    &&& credible(
        ca,
        certificate,
        private_key,
        principal(identity.tenant, identity.device, entry.credential_generation),
        now,
        expires_at,
    )
}

/// An artifact comes of an entry's files exactly if their digest is the one
/// that both the entry and the command name and the material holds up for
/// the device under the entry's credential generation. The artifact keeps
/// the files, the digest, that generation and the end of the validity.
pub proof fn law_artifacts_are_the_files_that_were_named(
    entry: &CatalogEntryV1,
    identity: &DeviceIdentity,
    command: &DeviceCommand,
    ca: Vec<u8>,
    certificate: Vec<u8>,
    private_key: Vec<u8>,
    now: u64,
    r: Result<ResolvedArtifact, CatalogError>,
)
    requires
        call_ensures(
            CatalogEntryV1::resolve,
            (entry, identity, command, ca, certificate, private_key, now),
            r,
        ),
        digest::is_digest_text(entry.artifact_digest@),
    ensures
        r is Ok <==> exists|expires_at: i64| #[trigger]
            resolves(
                *entry,
                identity@,
                command@,
                ca@,
                certificate@,
                private_key@,
                now,
                expires_at,
            ),
        r is Ok ==> {
            &&& resolves(
                *entry,
                identity@,
                command@,
                ca@,
                certificate@,
                private_key@,
                now,
                r->Ok_0.credential.expires_at,
            )
            &&& r->Ok_0.digest@ == command@.artifact_digest
            &&& r->Ok_0.credential_generation@ == entry.credential_generation
            &&& r->Ok_0.credential.ca == ca
            &&& r->Ok_0.credential.certificate == certificate
            &&& r->Ok_0.credential.private_key == private_key
        },
        artifact_known_by(ca@, certificate@, private_key@) != command@.artifact_digest
            ==> r->Err_0 is DigestMismatch,
        artifact_known_by(ca@, certificate@, private_key@) != entry.artifact_digest@
            ==> r->Err_0 is DigestMismatch,
{
    lemma_artifact_known_by(ca@, certificate@, private_key@);
    let target = IdentityView {
        credential_generation: entry.credential_generation,
        ..identity@
    };
    lemma_credible(ca@, certificate@, private_key@, target, now);
    let who = principal(identity@.tenant, identity@.device, entry.credential_generation);
    if r is Ok {
        let end = r->Ok_0.credential.expires_at;
        assert(credible(ca@, certificate@, private_key@, who, now, end));
        assert(resolves(
            *entry,
            identity@,
            command@,
            ca@,
            certificate@,
            private_key@,
            now,
            end,
        ));
    }
    assert forall|expires_at: i64| #[trigger]
        resolves(
            *entry,
            identity@,
            command@,
            ca@,
            certificate@,
            private_key@,
            now,
            expires_at,
        ) implies r is Ok by {
        assert(credible(ca@, certificate@, private_key@, who, now, expires_at));
    }
}

/// An entry whose digest is no digest never makes an artifact.
pub proof fn law_entries_name_a_digest(
    entry: &CatalogEntryV1,
    identity: &DeviceIdentity,
    command: &DeviceCommand,
    ca: Vec<u8>,
    certificate: Vec<u8>,
    private_key: Vec<u8>,
    now: u64,
    r: Result<ResolvedArtifact, CatalogError>,
)
    requires
        call_ensures(
            CatalogEntryV1::resolve,
            (entry, identity, command, ca, certificate, private_key, now),
            r,
        ),
        entry.artifact_digest@.len() != 71,
    ensures
        r is Err,
        r->Err_0 is Malformed,
{
}

/// A step of a path that stays where it is or goes down.
pub open spec fn goes_down(segment: Seq<char>) -> bool {
    segment != ".."@
}

/// A path is taken exactly if it is relative, starts with a name, and never
/// steps up; what it leads along are its segments but for the empty ones and
/// single dots, each a plain name.
pub proof fn law_catalog_paths_never_step_up(
    raw: &str,
    r: Result<Vec<String>, CatalogError>,
)
    requires
        call_ensures(catalog_path::catalog_path_components, (raw,), r),
    ensures
        ({
            let steps = text::pieces(raw@, '/');
            &&& r is Ok <==> {
                &&& raw@.len() > 0
                &&& raw@[0] != '/'
                &&& steps[0] != "."@
                &&& forall|i: int| 0 <= i < steps.len() ==> goes_down(#[trigger] steps[i])
            }
            &&& r is Ok ==> text::texts(r->Ok_0@) == steps.filter(
                |step: Seq<char>| step.len() > 0 && step != "."@,
            )
            &&& r is Err ==> r->Err_0 is Malformed
        }),
        r is Ok ==> forall|i: int|
            0 <= i < r->Ok_0@.len() ==> {
                let name = (#[trigger] r->Ok_0@[i])@;
                name.len() > 0 && name != "."@ && name != ".."@ && !name.contains('/')
            },
{
    let steps = text::pieces(raw@, '/');
    if catalog_path::is_catalog_path(raw@) {
        assert forall|i: int| 0 <= i < steps.len() implies goes_down(#[trigger] steps[i]) by {
            assert(catalog_path::segments(raw@)[i] != ".."@);
        }
    }
    if forall|i: int| 0 <= i < steps.len() ==> goes_down(#[trigger] steps[i]) {
        assert forall|i: int|
            0 <= i < catalog_path::segments(raw@).len() implies #[trigger] catalog_path::segments(
            raw@,
        )[i] != ".."@ by {
            assert(goes_down(steps[i]));
        }
    }
    if r is Ok {
        let a = |step: Seq<char>| step.len() > 0 && step != "."@;
        let b = |segment: Seq<char>| catalog_path::names_something(segment);
        assert(a =~= b);
        let names = text::texts(r->Ok_0@);
        assert forall|i: int| 0 <= i < r->Ok_0@.len() implies {
            let name = (#[trigger] r->Ok_0@[i])@;
            name.len() > 0 && name != "."@ && name != ".."@ && !name.contains('/')
        } by {
            assert(names[i] == r->Ok_0@[i]@);
            catalog_path::law_components_stay_inside(raw@, i);
        }
    }
}

} // verus!
