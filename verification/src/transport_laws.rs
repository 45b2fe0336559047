//! Laws of the authenticated transport: which frames count as commands, what
//! a packet means, and which failures are worth another try.

use crate::assertion;
use crate::assertion::{BrokerAssertionError, BrokerAssertionVerifier, BrokerPublishFrame};
use crate::identity;
use crate::identity::DeviceIdentity;
use crate::mqtt;
use crate::mqtt::{
    CommandDelivery, ConnectReturnCode, ConnectionError, EventView, InboundPublish, MqttError,
    MqttSession, OutboundKind, PacketView, SessionView, SubscribeReasonCode, UnsubAckReason,
};
use crate::text;
use vstd::prelude::*;
use vstd::utf8::*;

verus! {

/// The property stands in the frame once, with the value.
pub open spec fn bears_once(
    properties: Seq<(Seq<char>, Seq<char>)>,
    key: Seq<char>,
    value: Seq<char>,
) -> bool {
    exists|i: int|
        0 <= i < properties.len() && (#[trigger] properties[i]).0 == key && properties[i].1
            == value && forall|j: int|
            0 <= j < properties.len() && j != i ==> (#[trigger] properties[j]).0 != key
}

pub(crate) proof fn lemma_bears_once(
    properties: Seq<(Seq<char>, Seq<char>)>,
    key: Seq<char>,
    value: Seq<char>,
)
    ensures
        assertion::sole_value(properties, key, value) <==> bears_once(properties, key, value),
{
    if assertion::sole_value(properties, key, value) {
        let i = choose|i: int|
            0 <= i < properties.len() && (#[trigger] properties[i]).0 == key && properties[i].1
                == value;
        assert forall|j: int| 0 <= j < properties.len() && j != i implies (
        #[trigger] properties[j]).0 != key by {
            if i < j {
                assert(!(properties[i].0 == key && properties[j].0 == key));
            } else {
                assert(!(properties[j].0 == key && properties[i].0 == key));
            }
        }
    }
    if bears_once(properties, key, value) {
        let i = choose|i: int|
            0 <= i < properties.len() && (#[trigger] properties[i]).0 == key && properties[i].1
                == value && forall|j: int|
                0 <= j < properties.len() && j != i ==> (#[trigger] properties[j]).0 != key;
        assert forall|a: int, b: int| 0 <= a < b < properties.len() implies !((
        #[trigger] properties[a]).0 == key && (#[trigger] properties[b]).0 == key) by {
            if a != i {
                assert(properties[a].0 != key);
            } else {
                assert(properties[b].0 != key);
            }
        }
    }
}

/// What the broker vouches for: a frame of quality of service one that is not
/// retained, with version, principal and signature once each and no other
/// reserved property; the principal is the device's, and the signature is one
/// of 64 bytes over principal, topic, correlation, payload and flags.
pub open spec fn vouched(
    key: Seq<u8>,
    principal: Seq<char>,
    frame: assertion::FrameView,
    signature: Seq<char>,
) -> bool {
    &&& frame.qos == 1
    &&& !frame.retain
    &&& forall|i: int|
        0 <= i < frame.properties.len() ==> text::starts_with(
            (#[trigger] frame.properties[i]).0,
            "rss.authn.v1."@,
        ) ==> {
            ||| frame.properties[i].0 == "rss.authn.v1.version"@
            ||| frame.properties[i].0 == "rss.authn.v1.principal"@
            ||| frame.properties[i].0 == "rss.authn.v1.signature"@
        }
    &&& bears_once(frame.properties, "rss.authn.v1.version"@, "1"@)
    &&& bears_once(frame.properties, "rss.authn.v1.principal"@, principal)
    &&& bears_once(frame.properties, "rss.authn.v1.signature"@, signature)
    &&& assertion::fits(principal, frame)
    &&& assertion::base64url_decoded(signature) is Some
    &&& assertion::base64url_decoded(signature)->0.len() == 64
    &&& assertion::ed25519_valid(
        key,
        assertion::signed_bytes(principal, frame),
        assertion::base64url_decoded(signature)->0,
    )
}

/// A frame passes exactly if the broker vouches for it under the verifier's
/// key and in the name of the device.
pub proof fn law_frames_pass_only_when_vouched(
    verifier: &BrokerAssertionVerifier,
    identity: &DeviceIdentity,
    frame: &BrokerPublishFrame<'_>,
    r: Result<(), BrokerAssertionError>,
)
    requires
        call_ensures(BrokerAssertionVerifier::verify, (verifier, identity, frame), r),
    ensures
        r is Ok <==> exists|signature: Seq<char>|
            #[trigger] vouched(verifier@, identity@.principal_urn(), frame@, signature),
{
    let urn = identity@.principal_urn();
    let p = frame@.properties;
    assert forall|signature: Seq<char>| #[trigger]
        assertion::asserts(p, urn, signature) implies bears_once(p, "rss.authn.v1.version"@, "1"@)
        && bears_once(p, "rss.authn.v1.principal"@, urn) && bears_once(
        p,
        "rss.authn.v1.signature"@,
        signature,
    ) by {
        lemma_bears_once(p, "rss.authn.v1.version"@, "1"@);
        lemma_bears_once(p, "rss.authn.v1.principal"@, urn);
        lemma_bears_once(p, "rss.authn.v1.signature"@, signature);
    }
    if r is Ok {
        let signature = choose|signature: Seq<char>|
            #[trigger] assertion::asserts(p, urn, signature) && (assertion::base64url_decoded(
                signature,
            ) matches Some(bytes) && bytes.len() == 64 && assertion::ed25519_valid(
                verifier@,
                assertion::signed_bytes(urn, frame@),
                bytes,
            ));
        assert(vouched(verifier@, urn, frame@, signature));
    }
    if exists|signature: Seq<char>| #[trigger] vouched(verifier@, urn, frame@, signature) {
        let signature = choose|signature: Seq<char>|
            #[trigger] vouched(verifier@, urn, frame@, signature);
        lemma_bears_once(p, "rss.authn.v1.version"@, "1"@);
        lemma_bears_once(p, "rss.authn.v1.principal"@, urn);
        lemma_bears_once(p, "rss.authn.v1.signature"@, signature);
        assert(assertion::asserts(p, urn, signature));
    }
}

/// A key text is taken exactly if it is the one text of 32 bytes that are not
/// all zero, and the key is those bytes.
pub proof fn law_broker_keys_are_canonical(
    value: &str,
    r: Result<BrokerAssertionVerifier, BrokerAssertionError>,
)
    requires
        call_ensures(BrokerAssertionVerifier::from_base64, (value,), r),
    ensures
        r is Ok <==> {
            &&& assertion::base64url_decoded(value@) is Some
            &&& assertion::base64url_decoded(value@)->0.len() == 32
            &&& assertion::base64url_encoded(assertion::base64url_decoded(value@)->0) == value@
            &&& exists|i: int|
                0 <= i < 32 && #[trigger] assertion::base64url_decoded(value@)->0[i] != 0
        },
        r is Ok ==> r->Ok_0@ == assertion::base64url_decoded(value@)->0,
{
}

/// The publish packet names its command: topic and correlation are texts, and
/// the correlation is a command identity.
pub open spec fn addressed(publish: mqtt::PublishView) -> bool {
    &&& publish.qos == 1
    &&& valid_utf8(publish.topic)
    &&& publish.correlation is Some
    &&& valid_utf8(publish.correlation->0)
    &&& identity::is_command_id(decode_utf8(publish.correlation->0))
}

/// A publish packet becomes a command exactly if it is addressed, in the
/// scope of the session or of the one awaited delivery, and vouched for in
/// that scope; the command is the packet's own. A packet out of scope is an
/// invalid frame, and one in scope that is not vouched for is rejected.
pub proof fn law_publishes_become_commands_only_in_scope(
    session: &MqttSession,
    publish: InboundPublish,
    r: Result<CommandDelivery, MqttError>,
)
    requires
        call_ensures(MqttSession::command_delivery, (session, publish), r),
    ensures
        ({
            let s = session@;
            let p = publish@;
            let topic = decode_utf8(p.topic);
            let command_id = decode_utf8(p.correlation->0);
            let own = topic == s.identity.command_topic();
            let awaited = s.recovery is Some && s.recovery->0.topic == topic
                && s.recovery->0.command_id == command_id;
            &&& !addressed(p) ==> r is Err && r->Err_0 is InvalidCommandFrame
            &&& addressed(p) && !own && !awaited ==> r is Err && r->Err_0 is InvalidCommandFrame
            &&& addressed(p) && (own || awaited) ==> !(r matches Err(MqttError::InvalidCommandFrame))
            &&& r is Err ==> r->Err_0 is InvalidCommandFrame || r->Err_0 is AssertionRejected
            &&& r is Ok ==> {
                &&& addressed(p)
                &&& own || awaited
                &&& !p.retain
                &&& r->Ok_0@.packet_id == p.packet_id
                &&& r->Ok_0@.payload == p.payload
                &&& r->Ok_0@.topic == topic
                &&& r->Ok_0@.command_id == command_id
                &&& own ==> r->Ok_0@.identity == s.identity
                &&& !own ==> r->Ok_0@.identity == s.recovery->0.identity
                &&& assertion::frame_authentic(
                    s.key,
                    r->Ok_0@.identity,
                    assertion::FrameView {
                        topic,
                        payload: p.payload,
                        correlation: p.correlation->0,
                        qos: p.qos,
                        retain: p.retain,
                        properties: p.user_properties,
                    },
                )
            }
        }),
{
}

/// What a packet means to a session, and what it leaves of it.
pub proof fn law_packets_mean_what_they_acknowledge(s: SessionView, packet: PacketView)
    ensures
        ({
            let told = s.meaning(packet);
            let t = s.after(packet);
            &&& t.identity == s.identity
            &&& t.recovery == s.recovery
            &&& t.key == s.key
            &&& (told matches Ok(EventView::Connected)) <==> packet is ConnAck
            &&& (told matches Ok(EventView::Subscribed)) <==> packet is SubAck && packet->SubAck_0
                =~= seq![SubscribeReasonCode::Success(1)]
            &&& (told matches Ok(EventView::Unsubscribed)) <==> packet is UnsubAck && (
            packet->UnsubAck_0 =~= seq![UnsubAckReason::Success] || packet->UnsubAck_0
                =~= seq![UnsubAckReason::NoSubscriptionExisted])
            &&& packet is SubAck && told is Err ==> told->Err_0 is SubscriptionRejected
            &&& packet is UnsubAck && told is Err ==> told->Err_0 is SubscriptionRejected
            &&& (told matches Ok(EventView::Command(_))) ==> packet is Publish
            &&& packet is PubAck ==> {
                let id = packet->PubAck_0;
                &&& s.packets.contains_key(id) ==> told == Ok::<EventView, MqttError>(
                    EventView::OutboundAcknowledged { event_id: s.packets[id] },
                )
                &&& !s.packets.contains_key(id) ==> told == Err::<EventView, MqttError>(
                    MqttError::UnknownPubAck,
                )
                &&& t.packets == s.packets.remove(id)
                &&& t.awaiting == s.awaiting
                &&& t.inbound == s.inbound
            }
            &&& packet is OutgoingPubAck ==> {
                let id = packet->OutgoingPubAck_0;
                &&& s.inbound.contains_key(id) ==> told == Ok::<EventView, MqttError>(
                    EventView::InboundAcknowledged { settlement_token: s.inbound[id] },
                )
                &&& !s.inbound.contains_key(id) ==> told == Err::<EventView, MqttError>(
                    MqttError::UnknownPubAck,
                )
                &&& t.inbound == s.inbound.remove(id)
                &&& t.packets == s.packets
                &&& t.awaiting == s.awaiting
            }
            &&& packet is OutgoingPublish ==> {
                let id = packet->OutgoingPublish_0;
                &&& told is Ok <==> s.awaiting.len() > 0 && !s.packets.contains_key(id)
                &&& told is Ok ==> told->Ok_0 is TransportProgress
                &&& told is Err ==> told->Err_0 is UnknownPubAck
                &&& s.awaiting.len() > 0 ==> t.packets == s.packets.insert(id, s.awaiting[0])
                    && t.awaiting == s.awaiting.drop_first()
                &&& s.awaiting.len() == 0 ==> t.packets == s.packets && t.awaiting == s.awaiting
                &&& t.inbound == s.inbound
            }
            &&& packet is Other ==> told == Ok::<EventView, MqttError>(EventView::TransportProgress)
            &&& packet is Publish || packet is ConnAck || packet is SubAck || packet is UnsubAck
                || packet is Other ==> t == s
        }),
{
    if packet is SubAck {
        let codes = packet->SubAck_0;
        if codes.len() == 1 && codes[0] == SubscribeReasonCode::Success(1) {
            assert(codes =~= seq![SubscribeReasonCode::Success(1)]);
        }
    }
    if packet is UnsubAck {
        let reasons = packet->UnsubAck_0;
        if reasons.len() == 1 && reasons[0] == UnsubAckReason::Success {
            assert(reasons =~= seq![UnsubAckReason::Success]);
        }
        if reasons.len() == 1 && reasons[0] == UnsubAckReason::NoSubscriptionExisted {
            assert(reasons =~= seq![UnsubAckReason::NoSubscriptionExisted]);
        }
    }
}

/// A subscription counts only as the one that was asked for, at its quality
/// of service; an unsubscription only as the end of the one.
pub proof fn law_subscriptions_are_granted_as_asked(
    codes: &[SubscribeReasonCode],
    granted: Result<(), MqttError>,
    reasons: &[UnsubAckReason],
    removed: Result<(), MqttError>,
)
    requires
        call_ensures(mqtt::validate_suback, (codes,), granted),
        call_ensures(mqtt::validate_unsuback, (reasons,), removed),
    ensures
        granted is Ok <==> codes@.len() == 1 && codes@[0] == SubscribeReasonCode::Success(1),
        granted is Err ==> granted->Err_0 is SubscriptionRejected,
        removed is Ok <==> reasons@.len() == 1 && (reasons@[0] is Success || reasons@[0]
            is NoSubscriptionExisted),
        removed is Err ==> removed->Err_0 is SubscriptionRejected,
{
}

/// Only the request queue, the network, and a broker that lacks capacity are
/// worth another try; whatever turned the device away is not.
pub proof fn law_only_capacity_failures_are_retried(
    error: &MqttError,
    r: bool,
    kind: &'static str,
)
    requires
        call_ensures(MqttError::is_retryable, (error,), r),
        call_ensures(MqttError::kind, (error,), kind),
    ensures
        r <==> {
            ||| *error is Request
            ||| *error == MqttError::Connection(ConnectionError::Timeout)
            ||| *error == MqttError::Connection(ConnectionError::Io)
            ||| *error == MqttError::Connection(
                ConnectionError::ConnectionRefused(ConnectReturnCode::ServiceUnavailable),
            )
            ||| *error == MqttError::Connection(
                ConnectionError::ConnectionRefused(ConnectReturnCode::ServerUnavailable),
            )
            ||| *error == MqttError::Connection(
                ConnectionError::ConnectionRefused(ConnectReturnCode::ServerBusy),
            )
            ||| *error == MqttError::Connection(
                ConnectionError::ConnectionRefused(ConnectReturnCode::QuotaExceeded),
            )
            ||| *error == MqttError::Connection(
                ConnectionError::ConnectionRefused(ConnectReturnCode::ConnectionRateExceeded),
            )
        },
        *error is CredentialUnavailable ==> kind@ == "credential_unavailable"@,
        *error is Request ==> kind@ == "request_queue"@,
        *error == MqttError::Connection(ConnectionError::Timeout) ==> kind@ == "timeout"@,
        *error == MqttError::Connection(ConnectionError::Io) ==> kind@ == "io"@,
        *error matches MqttError::Connection(ConnectionError::ConnectionRefused(_)) ==> kind@
            == "connection_rejected"@,
        *error == MqttError::Connection(ConnectionError::Other) ==> kind@ == "connection_rejected"@,
        *error is InvalidCommandFrame ==> kind@ == "invalid_command_frame"@,
        *error is UnknownPubAck ==> kind@ == "unknown_puback"@,
        *error is SubscriptionRejected ==> kind@ == "subscription_rejected"@,
        *error is AssertionRejected ==> kind@ == "assertion_rejected"@,
{
}

/// An acknowledgement and a report go out on their own topics.
pub proof fn law_facts_go_to_their_own_topics(
    session: &MqttSession,
    acknowledgement: &str,
    report: &str,
    command: &str,
    recovery: Result<&str, MqttError>,
)
    requires
        call_ensures(
            MqttSession::outbound_topic,
            (session, OutboundKind::CommandAcknowledged),
            acknowledgement,
        ),
        call_ensures(
            MqttSession::outbound_topic,
            (session, OutboundKind::CertificateReported),
            report,
        ),
        call_ensures(MqttSession::command_topic, (session,), command),
        call_ensures(MqttSession::recovery_topic, (session,), recovery),
    ensures
        acknowledgement@ == session@.identity.topic_prefix()
            + "uplink/identity.device-command-acked"@,
        report@ == session@.identity.topic_prefix()
            + "uplink/identity.device-certificate-reported"@,
        command@ == session@.identity.topic_prefix()
            + "downlink/identity.commands.apply-device-certificate"@,
        recovery is Ok <==> session@.recovery is Some,
        recovery is Ok ==> recovery->Ok_0@ == session@.recovery->0.topic,
{
}

} // verus!
