//! Laws of what values show of themselves: failures are told in words, and
//! what must not leak is not rendered.

use crate::agent::AgentError;
use crate::catalog::CatalogError;
use crate::client;
use crate::client::{DiagnosticView, FacadeError, RequestView};
use crate::config::ConfigError;
use crate::identity::ValueError;
use crate::journey::JourneyError;
use crate::mapping::MappingError;
use crate::material::CredentialError;
use crate::model;
use crate::model::PolicyView;
use crate::mqtt::MqttError;
use crate::reference::RotationModelError;
use crate::state::StoreError;
use vstd::prelude::*;

verus! {

/// What is wrong with values is told in its own words.
pub proof fn law_failed_values_are_told_in_words(error: ValueError)
    ensures
        error is Zero ==> error.message() == "value must be greater than zero"@,
        error is InvalidArtifactId ==> error.message() == "artifact id is invalid"@,
        error is InvalidClientId ==> error.message() == "MQTT client id is invalid"@,
        error is InvalidHost ==> error.message() == "MQTT host is invalid"@,
        error is InvalidPort ==> error.message() == "MQTT port is invalid"@,
        error is InvalidCommandId ==> error.message() == "command id is invalid"@,
        error is InvalidDigest ==> error.message() == "SHA-256 digest is invalid"@,
{
}

/// What is wrong with model values is told in its own words.
pub proof fn law_failed_model_values_are_told_in_words(error: RotationModelError)
    ensures
        error is EmptyReference ==> error.message()
            == error->EmptyReference_kind@ + " must not be empty"@,
        error is ControlCharacter ==> error.message()
            == error->ControlCharacter_kind@ + " must not contain control characters"@,
        error is ZeroGeneration ==> error.message() == "generation must be greater than zero"@,
        error is ZeroFenceEpoch ==> error.message() == "fence epoch must be greater than zero"@,
        error is ZeroCredentialRevision ==> error.message()
            == "credential revision must be greater than zero"@,
        error is InvalidPolicy ==> error.message()
            == "rotation policy violates product constraints"@,
{
}

/// What is wrong with credentials is told in its own words.
pub proof fn law_failed_credentials_are_told_in_words(error: CredentialError)
    ensures
        error is Unavailable ==> error.message() == "credential material is unavailable"@,
        error is Malformed ==> error.message() == "credential material is malformed"@,
        error is Untrusted ==> error.message() == "credential chain is untrusted or expired"@,
        error is InsecurePrivateKey ==> error.message()
            == "credential private key permissions are not owner-only"@,
        error is IdentityMismatch ==> error.message()
            == "credential identity does not match the authenticated device scope"@,
{
}

/// What is wrong with catalogs is told in its own words.
pub proof fn law_failed_catalogs_are_told_in_words(error: CatalogError)
    ensures
        error is Unavailable ==> error.message() == "artifact catalog is unavailable"@,
        error is Malformed ==> error.message() == "artifact catalog is malformed or unsupported"@,
        error is NotFound ==> error.message() == "artifact was not found"@,
        error is BindingMismatch ==> error.message()
            == "artifact binding does not match the command"@,
        error is DigestMismatch ==> error.message() == "artifact digest does not match its files"@,
        error is Revoked ==> error.message() == "artifact credential is revoked"@,
        error is Credential ==> error.message() == error->Credential_0.message(),
{
}

/// What is wrong with configurations is told in its own words.
pub proof fn law_failed_configurations_are_told_in_words(error: ConfigError)
    ensures
        error is Unavailable ==> error.message() == "reference agent configuration is unavailable"@,
        error is InvalidJson ==> error.message()
            == "reference agent configuration JSON is invalid"@,
        error is UnsupportedSchema ==> error.message()
            == "reference agent configuration schema is unsupported"@,
        error is MissingBaseDirectory ==> error.message()
            == "reference agent configuration path has no parent"@,
        error is InvalidIdentity ==> error.message() == "reference agent identity is invalid"@,
        error is ClientIdentityMismatch ==> error.message()
            == "MQTT client identity does not match the configured device"@,
        error is InvalidDesiredGeneration ==> error.message()
            == "initial desired generation is invalid"@,
        error is InvalidFenceEpoch ==> error.message() == "initial fence epoch is invalid"@,
        error is InvalidCredentialRevision ==> error.message()
            == "initial credential revision is invalid"@,
        error is InvalidSessionExpiry ==> error.message() == "MQTT session expiry is invalid"@,
        error is InvalidRequestCapacity ==> error.message() == "MQTT request capacity is invalid"@,
        error is InvalidBrokerAssertionKey ==> error.message()
            == "MQTT broker assertion public key is invalid"@,
        error is InvalidMqtt ==> error.message() == "MQTT connection configuration is invalid"@,
{
}

/// What is wrong with stores is told in its own words.
pub proof fn law_failed_stores_are_told_in_words(error: StoreError)
    ensures
        error is Unavailable ==> error.message() == "device state is unavailable"@,
        error is InvalidState ==> error.message()
            == "device state is malformed, unsupported, or bound to another identity"@,
        error is OutboxFull ==> error.message() == "durable outbox is full"@,
        error is RevisionConflict ==> error.message()
            == "credential revision already exists with different material"@,
        error is AlreadyOpen ==> error.message()
            == "device state is already owned by another process"@,
        error is CommandJournalFull ==> error.message() == "durable command journal is full"@,
{
}

/// What is wrong with agents is told in its own words.
pub proof fn law_failed_agents_are_told_in_words(error: AgentError)
    ensures
        error is Store ==> error.message() == error->Store_0.message(),
        error is Credential ==> error.message() == error->Credential_0.message(),
        error is InitialArtifactUnavailable ==> error.message()
            == "initial credential artifact is unavailable"@,
        error is UnknownOutbound ==> error.message()
            == "outbound event does not exist or is not publishable"@,
        error is UnexpectedReconnect ==> error.message()
            == "reconnect does not match the committed credential revision"@,
        error is UnexpectedDelivery ==> error.message()
            == "MQTT delivery is outside the current or pending settlement scope"@,
        error is RotationInFlight ==> error.message()
            == "credential rotation is in flight; command intake is backpressured"@,
{
}

/// What is wrong with sessions is told in its own words.
pub proof fn law_failed_sessions_are_told_in_words(error: MqttError)
    ensures
        error is CredentialUnavailable ==> error.message()
            == "MQTT credential files are unavailable"@,
        error is Request ==> error.message() == "MQTT request queue failed"@,
        error is Connection ==> error.message() == "MQTT connection failed"@,
        error is InvalidCommandFrame ==> error.message() == "MQTT command frame is invalid"@,
        error is UnknownPubAck ==> error.message()
            == "MQTT outbound acknowledgement was not correlated"@,
        error is SubscriptionRejected ==> error.message() == "MQTT subscription was rejected"@,
        error is AssertionRejected ==> error.message() == "MQTT broker assertion was rejected"@,
{
}

/// What is wrong with mappings is told in its own words.
pub proof fn law_failed_mappings_are_told_in_words(error: MappingError)
    ensures
        error is DeviceMismatch ==> error.message() == "device mismatch"@,
        error is NegativeDeviceSequence ==> error.message() == "negative device sequence"@,
        error is InvalidProductReference ==> error.message() == "invalid product reference"@,
{
}

/// What is wrong with traces is told in its own words.
pub proof fn law_failed_traces_are_told_in_words(error: JourneyError)
    ensures
        error is LineageMismatch ==> error.message() == "external trace lineage mismatch"@,
        error is ExpectedReceivedAck ==> error.message()
            == "external trace expected a received ACK"@,
        error is ReadyBeforeReceipt ==> error.message()
            == "external trace observed Ready before receipt"@,
        error is ExpectedCommittedReceipt ==> error.message()
            == "external trace expected a committed receipt"@,
        error is MissingReadyObservation ==> error.message()
            == "external trace has no matching Ready observation"@,
        error is ExpectedForbidden ==> error.message()
            == "external trace expected a closed forbidden response"@,
        error is ExpectedRevokedRejection ==> error.message()
            == "external trace expected a revoked policy rejection"@,
        error is ReadyAfterRevocation ==> error.message()
            == "external trace observed Ready after revocation"@,
        error is EventIdentityCollision ==> error.message()
            == "external trace event identities collide"@,
{
}

/// What is wrong with requests is told in its own words.
pub proof fn law_failed_requests_are_told_in_words(error: FacadeError)
    ensures
        error is InvalidInput ==> error.message() == "invalid canonical request input"@,
        error is Serialization ==> error.message() == "canonical request serialization failed"@,
{
}

/// A failure that is told by name inside another is told in the same words.
pub proof fn law_inner_failures_keep_their_words(
    store: StoreError,
    credential: CredentialError,
    a: &'static str,
    b: &'static str,
)
    requires
        call_ensures(StoreError::text, (store,), a),
        call_ensures(CredentialError::text, (credential,), b),
    ensures
        a@ == AgentError::Store(store).message(),
        b@ == AgentError::Credential(credential).message(),
        b@ == CatalogError::Credential(credential).message(),
{
}

/// A mapping failure is rendered by its kind, whatever it carries.
pub proof fn law_mapping_failures_are_rendered_by_kind(error: MappingError)
    ensures
        error is DeviceMismatch ==> error.debug_text()
            == "MappingError::DeviceMismatch([REDACTED])"@,
        error is NegativeDeviceSequence ==> error.debug_text()
            == "MappingError::NegativeDeviceSequence([REDACTED])"@,
        error is InvalidProductReference ==> error.debug_text()
            == "MappingError::InvalidProductReference([REDACTED])"@,
{
}

/// Two requests of one method that agree on whether they have a body are
/// rendered alike, whatever their paths and bodies.
pub proof fn law_request_renderings_hide_path_and_body(a: RequestView, b: RequestView)
    requires
        a.method == b.method,
        a.body is Some <==> b.body is Some,
    ensures
        client::request_text(a) == client::request_text(b),
{
}

/// Two diagnostics of one kind that agree on whether they name a request and
/// may be tried again are rendered alike, whichever requests they name.
pub proof fn law_diagnostic_renderings_hide_the_request(a: DiagnosticView, b: DiagnosticView)
    requires
        a.kind == b.kind,
        a.retryable == b.retryable,
        a.request_id is Some <==> b.request_id is Some,
    ensures
        client::diagnostic_text(a) == client::diagnostic_text(b),
{
}

/// Two policies that differ in the names alone, and have as many, are
/// rendered alike.
pub proof fn law_policy_renderings_hide_the_names(a: PolicyView, b: PolicyView)
    requires
        a.key_usages == b.key_usages,
        a.renew_before_seconds == b.renew_before_seconds,
        a.validity_seconds == b.validity_seconds,
        a.sans.len() == b.sans.len(),
    ensures
        model::policy_text(a) == model::policy_text(b),
{
}

} // verus!
