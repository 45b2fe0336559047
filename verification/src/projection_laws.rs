//! Laws of what is read of requests, responses, deliveries and mappings: a
//! value is told under the word and the name that it has.

use crate::agent::RecoveryCommandScope;
use crate::assertion;
use crate::assertion::{
    AssertionProperties, BrokerAssertionError, BrokerAssertionVerifier, BrokerPublishFrame,
};
use crate::client;
use crate::client::{
    ActiveCommandProjection, ActiveCommandState, ConditionProjection, ConditionReason,
    ConditionStatus, ConditionType, Diagnostic, DiagnosticKind, OperationDescriptor,
    PolicyAcceptedProjection, PolicyCondition, PolicyPut, PolicyPutRequest, PreparedRequest,
    StatusProjection,
};
use crate::contract::{ApplyRequest, StatusGetResponse};
use crate::control;
use crate::control::BodyBuffer;
use crate::digest;
use crate::failure::{ErrorClass, ErrorStage};
use crate::id_token;
use crate::id_token::VerifiedClaims;
use crate::identity::{DeviceIdentity, TopicSet, Uuid};
use crate::locator;
use crate::locator::Locator;
use crate::login;
use crate::mapping::{CorrelatedCommand, MappingContext, MappingError, StatusObservation};
use crate::model::RotationCoordinates;
use crate::mqtt::{CommandDelivery, MqttSession};
use crate::reference::{CommandRef, RotationModelError};
use crate::session;
use crate::session::{SessionState, UnsubscribeCompletion};
use crate::text;
use crate::transport_laws::{bears_once, vouched};
use vstd::prelude::*;
use vstd::utf8::*;

verus! {

/// Policy conditions go by their own words.
pub proof fn law_policy_conditions_go_by_their_words(value: PolicyCondition, r: &'static str)
    requires
        call_ensures(PolicyCondition::as_str, (value,), r),
    ensures
        value is Reconciling ==> r@ == "Reconciling"@,
        value is PendingDevice ==> r@ == "PendingDevice"@,
{
}

/// Command states go by their own words.
pub proof fn law_command_states_go_by_their_words(value: ActiveCommandState, r: &'static str)
    requires
        call_ensures(ActiveCommandState::as_str, (value,), r),
    ensures
        value is Queued ==> r@ == "queued"@,
        value is Published ==> r@ == "published"@,
        value is Received ==> r@ == "received"@,
{
}

/// Condition statuses go by their own words.
pub proof fn law_condition_statuses_go_by_their_words(value: ConditionStatus, r: &'static str)
    requires
        call_ensures(ConditionStatus::as_str, (value,), r),
    ensures
        value is True ==> r@ == "True"@,
        value is False ==> r@ == "False"@,
        value is Unknown ==> r@ == "Unknown"@,
{
}

/// Condition types go by their own words.
pub proof fn law_condition_types_go_by_their_words(value: ConditionType, r: &'static str)
    requires
        call_ensures(ConditionType::as_str, (value,), r),
    ensures
        value is Ready ==> r@ == "Ready"@,
        value is Reconciling ==> r@ == "Reconciling"@,
        value is PendingDevice ==> r@ == "PendingDevice"@,
        value is Degraded ==> r@ == "Degraded"@,
        value is Quarantined ==> r@ == "Quarantined"@,
        value is Deleting ==> r@ == "Deleting"@,
{
}

/// Condition reasons go by their own words.
pub proof fn law_condition_reasons_go_by_their_words(value: ConditionReason, r: &'static str)
    requires
        call_ensures(ConditionReason::as_str, (value,), r),
    ensures
        value is DesiredAccepted ==> r@ == "DesiredAccepted"@,
        value is CommandQueued ==> r@ == "CommandQueued"@,
        value is AwaitingDevice ==> r@ == "AwaitingDevice"@,
        value is DeviceReported ==> r@ == "DeviceReported"@,
        value is StateMatches ==> r@ == "StateMatches"@,
        value is StateDrift ==> r@ == "StateDrift"@,
        value is CommandRejected ==> r@ == "CommandRejected"@,
        value is CommandTimedOut ==> r@ == "CommandTimedOut"@,
        value is ProtocolViolation ==> r@ == "ProtocolViolation"@,
        value is QuarantinedByOperator ==> r@ == "QuarantinedByOperator"@,
        value is DeletionPending ==> r@ == "DeletionPending"@,
        value is DeletionComplete ==> r@ == "DeletionComplete"@,
        value is ArtifactUnavailable ==> r@ == "ArtifactUnavailable"@,
        value is TransportUnavailable ==> r@ == "TransportUnavailable"@,
{
}

/// Failure classes go by their own words.
pub proof fn law_failure_classes_go_by_their_words(value: ErrorClass, r: &'static str)
    requires
        call_ensures(ErrorClass::as_str, (value,), r),
    ensures
        value is Input ==> r@ == "input"@,
        value is Auth ==> r@ == "auth"@,
        value is Typed ==> r@ == "typed"@,
        value is Transport ==> r@ == "transport"@,
        value is Untrusted ==> r@ == "untrusted"@,
{
}

/// Failure stages go by their own words.
pub proof fn law_failure_stages_go_by_their_words(value: ErrorStage, r: &'static str)
    requires
        call_ensures(ErrorStage::as_str, (value,), r),
    ensures
        value is Input ==> r@ == "input"@,
        value is Runtime ==> r@ == "runtime"@,
        value is Discovery ==> r@ == "discovery"@,
        value is Callback ==> r@ == "callback"@,
        value is TokenExchange ==> r@ == "token_exchange"@,
        value is Jwks ==> r@ == "jwks"@,
        value is IdToken ==> r@ == "id_token"@,
        value is Api ==> r@ == "api"@,
        value is Transport ==> r@ == "transport"@,
{
}

/// The two operations of the service: a policy is put, a status is got.
pub proof fn law_operations_are_put_and_get(put: OperationDescriptor, get: OperationDescriptor)
    requires
        call_ensures(client::policy_put_operation, (), put),
        call_ensures(client::status_get_operation, (), get),
    ensures
        put.method@ == "PUT"@,
        put.path_template@ == "/api/v2/identity/devices/{deviceId}/certificate-policy"@,
        get.method@ == "GET"@,
        get.path_template@ == "/api/v2/identity/devices/{deviceId}/certificate-status"@,
{
}

/// A prepared request is sent with its own method, path and body.
pub proof fn law_prepared_requests_are_sent_as_prepared(
    request: &PreparedRequest,
    method: &'static str,
    path: &str,
    body: Option<&[u8]>,
)
    requires
        call_ensures(PreparedRequest::method, (request,), method),
        call_ensures(PreparedRequest::path, (request,), path),
        call_ensures(PreparedRequest::body, (request,), body),
    ensures
        method@ == request@.method,
        path@ == request@.path,
        body is Some <==> request@.body is Some,
        body is Some ==> request@.body == Some(body->0@),
{
}

/// A put policy shows the request that it sends.
pub proof fn law_put_policies_show_their_request(policy: &PolicyPut, r: &PolicyPutRequest)
    requires
        call_ensures(PolicyPut::request, (policy,), r),
    ensures
        r@ == policy.asks(),
{
}

/// A diagnostic tells its kind, request and whether another try may help.
pub proof fn law_diagnostics_tell_their_kind(
    diagnostic: &Diagnostic,
    kind: DiagnosticKind,
    request_id: Option<&str>,
    retryable: bool,
)
    requires
        call_ensures(Diagnostic::kind, (diagnostic,), kind),
        call_ensures(Diagnostic::request_id, (diagnostic,), request_id),
        call_ensures(Diagnostic::retryable, (diagnostic,), retryable),
    ensures
        kind == diagnostic@.kind,
        request_id is Some <==> diagnostic@.request_id is Some,
        request_id is Some ==> diagnostic@.request_id == Some(request_id->0@),
        retryable == diagnostic@.retryable,
{
}

/// An accepted policy tells its receipt, generation and condition.
pub proof fn law_accepted_policies_tell_their_receipt(
    accepted: &PolicyAcceptedProjection,
    receipt: Uuid,
    generation: u64,
    condition: PolicyCondition,
)
    requires
        call_ensures(PolicyAcceptedProjection::receipt_id, (accepted,), receipt),
        call_ensures(PolicyAcceptedProjection::generation, (accepted,), generation),
        call_ensures(PolicyAcceptedProjection::condition, (accepted,), condition),
    ensures
        receipt@ == accepted@.receipt_id,
        generation == accepted@.generation,
        condition == accepted@.condition,
{
}

/// A condition tells its type, status, reason, generation and time.
pub proof fn law_conditions_tell_their_parts(
    condition: &ConditionProjection,
    generation: u64,
    reason: ConditionReason,
    status: ConditionStatus,
    type_: ConditionType,
    since: i64,
)
    requires
        call_ensures(ConditionProjection::observed_generation, (condition,), generation),
        call_ensures(ConditionProjection::reason, (condition,), reason),
        call_ensures(ConditionProjection::status, (condition,), status),
        call_ensures(ConditionProjection::type_, (condition,), type_),
        call_ensures(ConditionProjection::last_transition_at, (condition,), since),
    ensures
        generation == condition@.observed_generation,
        reason == condition@.reason,
        status == condition@.status,
        type_ == condition@.type_,
        since == condition@.last_transition_at,
{
}

/// A status tells its generations, receipt, command and conditions.
pub proof fn law_statuses_tell_their_parts(
    status: &StatusProjection,
    desired: Option<u64>,
    receipt: Option<Uuid>,
    observed: u64,
    command: Option<&ActiveCommandProjection>,
    conditions: &[ConditionProjection],
)
    requires
        call_ensures(StatusProjection::desired_generation, (status,), desired),
        call_ensures(StatusProjection::authorization_receipt_id, (status,), receipt),
        call_ensures(StatusProjection::observed_generation, (status,), observed),
        call_ensures(StatusProjection::active_command, (status,), command),
        call_ensures(StatusProjection::conditions, (status,), conditions),
    ensures
        desired == status@.desired_generation,
        receipt is Some <==> status@.authorization_receipt_id is Some,
        receipt is Some ==> status@.authorization_receipt_id == Some(receipt->0@),
        observed == status@.observed_generation,
        command is Some <==> status@.active_command is Some,
        command is Some ==> status@.active_command == Some(command->0@),
        conditions@.len() == status@.conditions.len(),
        forall|i: int|
            0 <= i < conditions@.len() ==> (#[trigger] conditions@[i])@ == status@.conditions[i],
{
    let told = client::conditions_view(conditions@);
    assert forall|i: int| 0 <= i < conditions@.len() implies (#[trigger] conditions@[i])@
        == status@.conditions[i] by {
        assert(told[i] == conditions@[i]@);
    }
}

/// An active command tells its fence and state.
pub proof fn law_active_commands_tell_their_state(
    command: &ActiveCommandProjection,
    fence: u64,
    state: ActiveCommandState,
)
    requires
        call_ensures(ActiveCommandProjection::fence_epoch, (command,), fence),
        call_ensures(ActiveCommandProjection::state, (command,), state),
    ensures
        fence == command@.fence_epoch,
        state == command@.state,
{
}

/// A mapping failure carries a product error exactly if it is one of a reference.
pub proof fn law_only_reference_failures_are_product_errors(
    error: &MappingError,
    r: Option<RotationModelError>,
)
    requires
        call_ensures(MappingError::product_error, (error,), r),
    ensures
        r is Some <==> *error is InvalidProductReference,
        r is Some ==> *error == MappingError::InvalidProductReference(r->0),
{
}

/// A mapping context tells the coordinates and device it was made for.
pub proof fn law_contexts_tell_their_device(
    coordinates: RotationCoordinates,
    device: Uuid,
    made: MappingContext,
    told: &RotationCoordinates,
    expected: Uuid,
)
    requires
        call_ensures(MappingContext::new, (coordinates, device), made),
        call_ensures(MappingContext::coordinates, (&made,), told),
        call_ensures(MappingContext::expected_device_id, (&made,), expected),
    ensures
        told@ == coordinates@,
        expected@ == device@,
{
}

/// An observed status and a correlated command tell what they were made of.
pub proof fn law_observations_tell_what_was_observed(
    context: MappingContext,
    response: StatusGetResponse,
    made: StatusObservation,
    of: &MappingContext,
    told: &StatusGetResponse,
    both: (MappingContext, StatusGetResponse),
)
    requires
        call_ensures(StatusObservation::new, (context, response), made),
        call_ensures(StatusObservation::context, (&made,), of),
        call_ensures(StatusObservation::response, (&made,), told),
        call_ensures(StatusObservation::into_parts, (made,), both),
    ensures
        *of == context,
        *told == response,
        both == (context, response),
{
}

/// What is read of a correlated command agrees with it.
pub proof fn law_correlated_commands_tell_their_parts(
    command: &CorrelatedCommand,
    context: &MappingContext,
    envelope: &CommandRef,
    request: &ApplyRequest,
)
    requires
        call_ensures(CorrelatedCommand::context, (command,), context),
        call_ensures(CorrelatedCommand::envelope, (command,), envelope),
        call_ensures(CorrelatedCommand::request, (command,), request),
    ensures
        *context == command.for_context(),
        *envelope == command.under(),
        *request == command.asks(),
{
}

/// A delivery tells its topic, content, command, identity and number.
pub proof fn law_deliveries_tell_their_parts(
    delivery: &CommandDelivery,
    topic: &str,
    payload: &[u8],
    command_id: &str,
    identity: &DeviceIdentity,
    packet_id: u16,
)
    requires
        call_ensures(CommandDelivery::topic, (delivery,), topic),
        call_ensures(CommandDelivery::payload, (delivery,), payload),
        call_ensures(CommandDelivery::command_id, (delivery,), command_id),
        call_ensures(CommandDelivery::identity, (delivery,), identity),
        call_ensures(CommandDelivery::packet_id, (delivery,), packet_id),
    ensures
        topic@ == delivery@.topic,
        payload@ == delivery@.payload,
        command_id@ == delivery@.command_id,
        identity@ == delivery@.identity,
        packet_id == delivery@.packet_id,
{
}

/// A transport session starts with nothing under way, for the device, the
/// recovery and the broker key it was given.
pub proof fn law_transport_sessions_start_empty(
    topics: TopicSet,
    recovery: Option<RecoveryCommandScope>,
    verifier: BrokerAssertionVerifier,
    r: MqttSession,
)
    requires
        call_ensures(MqttSession::new, (topics, recovery, verifier), r),
    ensures
        r@.identity == topics@,
        r@.recovery is Some <==> recovery is Some,
        recovery is Some ==> r@.recovery == Some(recovery->0@),
        r@.key == verifier@,
        r@.awaiting.len() == 0,
        forall|id: u16| !#[trigger] r@.packets.contains_key(id),
        forall|id: u16| !#[trigger] r@.inbound.contains_key(id),
{
}

/// A field as it is signed: its length in four bytes, and its bytes.
pub open spec fn signed_field(bytes: Seq<u8>) -> Seq<u8> {
    text::be_bytes(bytes.len(), 4) + bytes
}

/// What the broker signs is the version, the principal, the topic, the
/// correlation, the digest of the content and both flags, each behind its
/// length; a part whose length cannot be written is not signed at all.
pub proof fn law_frames_are_signed_whole(
    principal: &str,
    frame: &BrokerPublishFrame<'_>,
    r: Result<Vec<u8>, BrokerAssertionError>,
)
    requires
        call_ensures(assertion::canonical_bytes, (principal, frame), r),
    ensures
        r is Ok <==> encode_utf8(principal@).len() <= 0xffff_ffff && encode_utf8(
            frame@.topic,
        ).len() <= 0xffff_ffff && frame@.correlation.len() <= 0xffff_ffff && digest::sha256_of(
            frame@.payload,
        ).len() <= 0xffff_ffff,
        r is Ok ==> r->Ok_0@ == encode_utf8("rss.mqtt.authn.v1\0"@) + signed_field(
            encode_utf8("1"@),
        ) + signed_field(encode_utf8(principal@)) + signed_field(encode_utf8(frame@.topic))
            + signed_field(frame@.correlation) + signed_field(
            digest::sha256_of(frame@.payload),
        ) + signed_field(seq![frame@.qos]) + signed_field(
            seq![if frame@.retain { 1u8 } else { 0u8 }],
        ),
{
}

/// The assertion that is read of a frame stands in it once, under each of
/// its three names.
pub proof fn law_assertions_stand_in_the_frame(
    properties: &[(String, String)],
    r: Result<AssertionProperties<'_>, BrokerAssertionError>,
)
    requires
        call_ensures(assertion::assertion_properties, (properties,), r),
    ensures
        r is Ok ==> ({
            let told = assertion::property_texts(properties@);
            &&& bears_once(told, "rss.authn.v1.version"@, "1"@)
            &&& bears_once(told, "rss.authn.v1.principal"@, r->Ok_0.principal@)
            &&& bears_once(told, "rss.authn.v1.signature"@, r->Ok_0.signature@)
        }),
{
    if r is Ok {
        let told = assertion::property_texts(properties@);
        crate::transport_laws::lemma_bears_once(told, "rss.authn.v1.version"@, "1"@);
        crate::transport_laws::lemma_bears_once(
            told,
            "rss.authn.v1.principal"@,
            r->Ok_0.principal@,
        );
        crate::transport_laws::lemma_bears_once(
            told,
            "rss.authn.v1.signature"@,
            r->Ok_0.signature@,
        );
    }
}

/// A signature is 64 bytes that were decoded, handed on as they are.
pub proof fn law_signatures_have_their_length(
    decoded: Option<Vec<u8>>,
    r: Result<Vec<u8>, BrokerAssertionError>,
)
    requires
        call_ensures(assertion::require_signature, (decoded,), r),
    ensures
        r is Ok <==> decoded is Some && decoded->0@.len() == 64,
        r is Ok ==> r->Ok_0 == decoded->0,
{
}

/// A broker key is 32 decoded bytes, not all zero, whose text is canonical.
pub proof fn law_decoded_keys_are_canonical(
    value: &str,
    decoded: Option<Vec<u8>>,
    canonical: &str,
    r: Result<BrokerAssertionVerifier, BrokerAssertionError>,
)
    requires
        call_ensures(BrokerAssertionVerifier::from_decoded, (value, decoded, canonical), r),
    ensures
        r is Ok <==> {
            &&& decoded is Some
            &&& decoded->0@.len() == 32
            &&& canonical@ == value@
            &&& exists|i: int| 0 <= i < 32 && #[trigger] decoded->0@[i] != 0
        },
        r is Ok ==> r->Ok_0@ == decoded->0@,
{
}

/// A command frame given in parts passes exactly if the broker vouches for
/// the frame that the parts make.
pub proof fn law_command_frames_pass_only_when_vouched(
    verifier: &BrokerAssertionVerifier,
    identity: &DeviceIdentity,
    topic: &str,
    payload: &[u8],
    correlation: &[u8],
    qos: u8,
    retain: bool,
    properties: &[(String, String)],
    whole: &BrokerPublishFrame<'_>,
    r: Result<(), BrokerAssertionError>,
    s: Result<(), BrokerAssertionError>,
)
    requires
        call_ensures(
            BrokerAssertionVerifier::verify_command,
            (verifier, identity, topic, payload, correlation, qos, retain, properties),
            r,
        ),
        call_ensures(BrokerAssertionVerifier::verify, (verifier, identity, whole), s),
        whole@.topic == topic@,
        whole@.payload == payload@,
        whole@.correlation == correlation@,
        whole@.qos == qos,
        whole@.retain == retain,
        whole@.properties == assertion::property_texts(properties@),
    ensures
        r is Ok <==> s is Ok,
        r is Ok <==> exists|signature: Seq<char>| #[trigger]
            vouched(verifier@, identity@.principal_urn(), whole@, signature),
{
    crate::transport_laws::law_frames_pass_only_when_vouched(verifier, identity, whole, s);
    assert(whole@ == (assertion::FrameView {
        topic: topic@,
        payload: payload@,
        correlation: correlation@,
        qos,
        retain,
        properties: assertion::property_texts(properties@),
    }));
}

/// An acknowledgement is held back for an accepted command, without room for
/// more, and during a shutdown, and never else.
pub proof fn law_acknowledgements_are_held_for_a_reason(
    accepted: bool,
    intake_open: bool,
    shutting_down: bool,
    r: bool,
)
    requires
        call_ensures(
            session::should_hold_command_ack,
            (accepted, intake_open, shutting_down),
            r,
        ),
    ensures
        accepted ==> r,
        !intake_open ==> r,
        shutting_down ==> r,
        !accepted && intake_open && !shutting_down ==> !r,
{
}

/// After a subscription ended the session leaves only if the reconnect is
/// ready and the delivery flushed, and otherwise subscribes again only
/// outside a rotation.
pub proof fn law_ended_subscriptions_lead_on(
    reconnect_ready: bool,
    inbound_flushed: bool,
    rotation_in_flight: bool,
    r: UnsubscribeCompletion,
)
    requires
        call_ensures(
            session::unsubscribe_completion,
            (reconnect_ready, inbound_flushed, rotation_in_flight),
            r,
        ),
    ensures
        r is Exit <==> reconnect_ready && inbound_flushed,
        r is Wait <==> rotation_in_flight && !(reconnect_ready && inbound_flushed),
        r is Subscribe <==> !rotation_in_flight && !(reconnect_ready && inbound_flushed),
{
}

/// A session publishes only connected, idle, without a reconnect ahead and
/// outside an unsubscription; it unsubscribes only connected and subscribed;
/// it subscribes only unsubscribed and outside a shutdown.
pub proof fn law_sessions_act_when_they_can(
    state: &SessionState,
    pending: bool,
    publish: bool,
    unsubscribe: bool,
    subscribe: bool,
)
    requires
        call_ensures(SessionState::unsubscribe_pending, (state,), pending),
        call_ensures(SessionState::can_publish, (state,), publish),
        call_ensures(SessionState::can_unsubscribe, (state,), unsubscribe),
        call_ensures(SessionState::can_subscribe, (state,), subscribe),
    ensures
        pending <==> state.subscription is Unsubscribing,
        publish <==> state.connection is Connected && state.publish is Idle && state.reconnect
            is Dormant && !(state.subscription is Unsubscribing),
        unsubscribe <==> state.connection is Connected && state.subscription is Active,
        subscribe <==> state.subscription is Inactive && state.shutdown_deadline is None,
{
}

/// Each retry waits twice as long as the one before, and never longer than
/// half a minute.
pub proof fn law_retries_double_up_to_half_a_minute(milliseconds: u64, r: u64)
    requires
        call_ensures(session::next_retry_delay, (milliseconds,), r),
    ensures
        r <= 30_000,
        milliseconds <= 15_000 ==> r == 2 * milliseconds,
        milliseconds > 15_000 ==> r == 30_000,
{
}

/// The times that the control application and a session keep to.
pub proof fn law_deadlines_are_fixed()
    ensures
        login::LOGIN_TIMEOUT == 120,
        control::API_TIMEOUT == 30,
        session::SHUTDOWN_DRAIN_NANOSECONDS == 10_000_000_000,
        session::STABLE_CONNECTION_NANOSECONDS == 60_000_000_000,
        session::INITIAL_RETRY_MILLISECONDS == 1_000,
{
}

/// A body is what was taken of it, and within a mebibyte.
pub proof fn law_bodies_are_what_was_taken(buffer: &BodyBuffer, r: &[u8])
    requires
        call_ensures(BodyBuffer::bytes, (buffer,), r),
    ensures
        r@ == buffer@,
        r@.len() <= 1_048_576,
{
}

/// Verified claims count their audiences and name their party.
pub proof fn law_claims_name_their_party(
    audiences: usize,
    party: Option<&String>,
    r: VerifiedClaims,
)
    requires
        call_ensures(VerifiedClaims::of, (audiences, party), r),
    ensures
        r.audiences == audiences,
        r.authorized_party is Some <==> party is Some,
        party is Some ==> r.authorized_party->0@ == party->0@,
{
}

/// Audiences besides the client are left to the judgement of the party.
pub proof fn law_further_audiences_are_not_refused(audience: &str, r: bool)
    requires
        call_ensures(id_token::other_audience, (audience,), r),
    ensures
        r,
{
}

/// A locator is read exactly if the text is one.
pub proof fn law_locators_are_read_as_parsed(input: &str, r: Option<Locator>)
    requires
        call_ensures(Locator::read, (input,), r),
    ensures
        r is Some <==> locator::locator_parsed(input@) is Some,
        r is Some ==> locator::locator_parsed(input@) == Some(r->0@),
{
}

} // verus!
