//! What the agent makes of MQTT traffic: which failures are worth a retry,
//! which frames are commands, and which acknowledgement answers which packet.

use crate::agent::{RecoveryCommandScope, RecoveryScopeView};
use crate::assertion;
use crate::assertion::{BrokerAssertionVerifier, FrameView};
use crate::display;
use crate::identity;
use crate::identity::{CommandId, DeviceIdentity, IdentityView, TopicSet};
use crate::text;
use std::collections::{HashMap, VecDeque};
use vstd::prelude::*;
use vstd::string::*;
use vstd::utf8::*;

verus! {

broadcast use vstd::std_specs::hash::group_hash_axioms;

/// Why a broker refused a connection.
#[derive(Clone, Copy, Debug, PartialEq, Eq, Structural)]
pub enum ConnectReturnCode {
    Success,
    RefusedProtocolVersion,
    BadClientId,
    ServiceUnavailable,
    UnspecifiedError,
    MalformedPacket,
    ProtocolError,
    ImplementationSpecificError,
    UnsupportedProtocolVersion,
    ClientIdentifierNotValid,
    BadUserNamePassword,
    NotAuthorized,
    ServerUnavailable,
    ServerBusy,
    Banned,
    BadAuthenticationMethod,
    TopicNameInvalid,
    PacketTooLarge,
    QuotaExceeded,
    PayloadFormatInvalid,
    RetainNotSupported,
    QoSNotSupported,
    UseAnotherServer,
    ServerMoved,
    ConnectionRateExceeded,
}

/// How a connection failed.
#[derive(Clone, Copy, Debug, PartialEq, Eq, Structural)]
pub enum ConnectionError {
    Timeout,
    Io,
    ConnectionRefused(ConnectReturnCode),
    Other,
}

#[derive(Clone, Copy, PartialEq, Eq, Structural)]
pub enum MqttError {
    CredentialUnavailable,
    Request,
    Connection(ConnectionError),
    InvalidCommandFrame,
    UnknownPubAck,
    SubscriptionRejected,
    AssertionRejected,
}

/// The broker lacks capacity; it did not turn the device away.
pub open spec fn is_capacity_refusal(code: ConnectReturnCode) -> bool {
    ||| code == ConnectReturnCode::ServiceUnavailable
    ||| code == ConnectReturnCode::ServerUnavailable
    ||| code == ConnectReturnCode::ServerBusy
    ||| code == ConnectReturnCode::QuotaExceeded
    ||| code == ConnectReturnCode::ConnectionRateExceeded
}

impl MqttError {
    /// Only the request queue, the network and a broker without capacity are worth a retry.
    pub open spec fn retryable(self) -> bool {
        match self {
            MqttError::Request => true,
            MqttError::Connection(ConnectionError::Timeout) => true,
            MqttError::Connection(ConnectionError::Io) => true,
            MqttError::Connection(ConnectionError::ConnectionRefused(code)) => is_capacity_refusal(
                code,
            ),
            _ => false,
        }
    }

    pub open spec fn kind_text(self) -> Seq<char> {
        match self {
            MqttError::CredentialUnavailable => "credential_unavailable"@,
            MqttError::Request => "request_queue"@,
            MqttError::Connection(ConnectionError::Timeout) => "timeout"@,
            MqttError::Connection(ConnectionError::Io) => "io"@,
            MqttError::Connection(_) => "connection_rejected"@,
            MqttError::InvalidCommandFrame => "invalid_command_frame"@,
            MqttError::UnknownPubAck => "unknown_puback"@,
            MqttError::SubscriptionRejected => "subscription_rejected"@,
            MqttError::AssertionRejected => "assertion_rejected"@,
        }
    }

    /// The text that describes the failure.
    pub open spec fn message(self) -> Seq<char> {
        match self {
            MqttError::CredentialUnavailable => "MQTT credential files are unavailable"@,
            MqttError::Request => "MQTT request queue failed"@,
            MqttError::Connection(_) => "MQTT connection failed"@,
            MqttError::InvalidCommandFrame => "MQTT command frame is invalid"@,
            MqttError::UnknownPubAck => "MQTT outbound acknowledgement was not correlated"@,
            MqttError::SubscriptionRejected => "MQTT subscription was rejected"@,
            MqttError::AssertionRejected => "MQTT broker assertion was rejected"@,
        }
    }

    #[must_use]
    pub fn is_retryable(&self) -> (r: bool)
        ensures
            r == self.retryable(),
    {
        match self {
            MqttError::Request => true,
            MqttError::Connection(ConnectionError::Timeout) => true,
            MqttError::Connection(ConnectionError::Io) => true,
            MqttError::Connection(ConnectionError::ConnectionRefused(code)) => match code {
                ConnectReturnCode::ServiceUnavailable
                | ConnectReturnCode::ServerUnavailable
                | ConnectReturnCode::ServerBusy
                | ConnectReturnCode::QuotaExceeded
                | ConnectReturnCode::ConnectionRateExceeded => true,
                _ => false,
            },
            _ => false,
        }
    }

    #[must_use]
    pub fn kind(&self) -> (r: &'static str)
        ensures
            r@ == self.kind_text(),
    {
        match self {
            MqttError::CredentialUnavailable => "credential_unavailable",
            MqttError::Request => "request_queue",
            MqttError::Connection(ConnectionError::Timeout) => "timeout",
            MqttError::Connection(ConnectionError::Io) => "io",
            MqttError::Connection(_) => "connection_rejected",
            MqttError::InvalidCommandFrame => "invalid_command_frame",
            MqttError::UnknownPubAck => "unknown_puback",
            MqttError::SubscriptionRejected => "subscription_rejected",
            MqttError::AssertionRejected => "assertion_rejected",
        }
    }
}

impl core::fmt::Display for MqttError {
    fn fmt(&self, formatter: &mut core::fmt::Formatter<'_>) -> (r: Result<(), core::fmt::Error>)
        ensures
            r is Ok ==> display::wrote(*old(formatter), *final(formatter), self.message()),
    {
        formatter.write_str(
            match self {
                MqttError::CredentialUnavailable => "MQTT credential files are unavailable",
                MqttError::Request => "MQTT request queue failed",
                MqttError::Connection(_) => "MQTT connection failed",
                MqttError::InvalidCommandFrame => "MQTT command frame is invalid",
                MqttError::UnknownPubAck => "MQTT outbound acknowledgement was not correlated",
                MqttError::SubscriptionRejected => "MQTT subscription was rejected",
                MqttError::AssertionRejected => "MQTT broker assertion was rejected",
            },
        )
    }
}

impl core::fmt::Debug for MqttError {
    fn fmt(&self, formatter: &mut core::fmt::Formatter<'_>) -> (r: Result<(), core::fmt::Error>)
        ensures
            r is Ok ==> display::wrote(
                *old(formatter),
                *final(formatter),
                "MqttError { kind: \""@ + self.kind_text() + "\" }"@,
            ),
    {
        let rendered = String::from_str("MqttError { kind: \"").concat(self.kind()).concat("\" }");
        formatter.write_str(rendered.as_str())
    }
}

impl std::error::Error for MqttError {

}

/// The answer of a broker to one subscription.
#[derive(Clone, Copy, Debug, PartialEq, Eq, Structural)]
pub enum SubscribeReasonCode {
    /// Granted, at this quality of service.
    Success(u8),
    Failure,
    Unspecified,
    ImplementationSpecific,
    NotAuthorized,
    TopicFilterInvalid,
    PkidInUse,
    QuotaExceeded,
    SharedSubscriptionsNotSupported,
    SubscriptionIdNotSupported,
    WildcardSubscriptionsNotSupported,
}

/// The answer of a broker to one unsubscription.
#[derive(Clone, Copy, Debug, PartialEq, Eq, Structural)]
pub enum UnsubAckReason {
    Success,
    NoSubscriptionExisted,
    UnspecifiedError,
    ImplementationSpecificError,
    NotAuthorized,
    TopicFilterInvalid,
    PacketIdentifierInUse,
}

/// Exactly one subscription, granted at the quality of service that was asked for.
pub open spec fn subscription_granted(codes: Seq<SubscribeReasonCode>) -> bool {
    codes.len() == 1 && codes[0] == SubscribeReasonCode::Success(1)
}

pub fn validate_suback(codes: &[SubscribeReasonCode]) -> (r: Result<(), MqttError>)
    ensures
        subscription_granted(codes@) ==> r is Ok,
        !subscription_granted(codes@) ==> r == Err::<(), MqttError>(
            MqttError::SubscriptionRejected,
        ),
{
    if codes.len() == 1 && codes[0] == SubscribeReasonCode::Success(1) {
        Ok(())
    } else {
        Err(MqttError::SubscriptionRejected)
    }
}

/// Exactly one subscription, which does not exist any more.
pub open spec fn subscription_removed(reasons: Seq<UnsubAckReason>) -> bool {
    reasons.len() == 1 && (reasons[0] == UnsubAckReason::Success || reasons[0]
        == UnsubAckReason::NoSubscriptionExisted)
}

pub fn validate_unsuback(reasons: &[UnsubAckReason]) -> (r: Result<(), MqttError>)
    ensures
        subscription_removed(reasons@) ==> r is Ok,
        !subscription_removed(reasons@) ==> r == Err::<(), MqttError>(
            MqttError::SubscriptionRejected,
        ),
{
    if reasons.len() == 1 && (reasons[0] == UnsubAckReason::Success || reasons[0]
        == UnsubAckReason::NoSubscriptionExisted) {
        Ok(())
    } else {
        Err(MqttError::SubscriptionRejected)
    }
}

/// One publish packet as it came in.
#[derive(Clone, Debug)]
pub struct InboundPublish {
    pub topic: Vec<u8>,
    pub payload: Vec<u8>,
    pub qos: u8,
    pub retain: bool,
    pub packet_id: u16,
    pub correlation: Option<Vec<u8>>,
    pub user_properties: Vec<(String, String)>,
}

/// What a publish packet carries.
pub struct PublishView {
    pub topic: Seq<u8>,
    pub payload: Seq<u8>,
    pub qos: u8,
    pub retain: bool,
    pub packet_id: u16,
    pub correlation: Option<Seq<u8>>,
    pub user_properties: Seq<(Seq<char>, Seq<char>)>,
}

impl View for InboundPublish {
    type V = PublishView;

    open spec fn view(&self) -> PublishView {
        PublishView {
            topic: self.topic@,
            payload: self.payload@,
            qos: self.qos,
            retain: self.retain,
            packet_id: self.packet_id,
            correlation: match self.correlation {
                Some(bytes) => Some(bytes@),
                None => None,
            },
            user_properties: assertion::property_texts(self.user_properties@),
        }
    }
}

/// What an authenticated command delivery is.
pub struct DeliveryView {
    pub packet_id: u16,
    pub payload: Seq<u8>,
    pub topic: Seq<char>,
    pub command_id: Seq<char>,
    pub identity: IdentityView,
}

/// Broker-asserted command delivery, still to be acknowledged by hand.
pub struct CommandDelivery {
    packet_id: u16,
    payload: Vec<u8>,
    topic: String,
    command_id: String,
    identity: DeviceIdentity,
}

impl View for CommandDelivery {
    type V = DeliveryView;

    closed spec fn view(&self) -> DeliveryView {
        DeliveryView {
            packet_id: self.packet_id,
            payload: self.payload@,
            topic: self.topic@,
            command_id: self.command_id@,
            identity: self.identity@,
        }
    }
}

impl core::fmt::Debug for CommandDelivery {
    fn fmt(&self, formatter: &mut core::fmt::Formatter<'_>) -> (r: Result<(), core::fmt::Error>)
        ensures
            r is Ok ==> display::wrote(
                *old(formatter),
                *final(formatter),
                "CommandDelivery(<authenticated>)"@,
            ),
    {
        formatter.write_str("CommandDelivery(<authenticated>)")
    }
}

impl CommandDelivery {
    #[must_use]
    pub fn topic(&self) -> (r: &str)
        ensures
            r@ == self@.topic,
    {
        self.topic.as_str()
    }

    #[must_use]
    pub fn payload(&self) -> (r: &[u8])
        ensures
            r@ == self@.payload,
    {
        self.payload.as_slice()
    }

    #[must_use]
    pub fn command_id(&self) -> (r: &str)
        ensures
            r@ == self@.command_id,
    {
        self.command_id.as_str()
    }

    #[must_use]
    pub fn identity(&self) -> (r: &DeviceIdentity)
        ensures
            r@ == self@.identity,
    {
        &self.identity
    }

    #[must_use]
    pub fn packet_id(&self) -> (r: u16)
        ensures
            r == self@.packet_id,
    {
        self.packet_id
    }
}

/// The scope a command frame belongs to: the session's own topic, or the one
/// old delivery that may come again.
pub open spec fn frame_scope(
    identity: IdentityView,
    recovery: Option<RecoveryScopeView>,
    topic: Seq<char>,
    command_id: Seq<char>,
) -> Option<IdentityView> {
    if topic == identity.command_topic() {
        Some(identity)
    } else {
        match recovery {
            Some(scope) => if scope.topic == topic && scope.command_id == command_id {
                Some(scope.identity)
            } else {
                None
            },
            None => None,
        }
    }
}

/// What becomes of a publish packet: every coordinate must be canonical and
/// in scope before the broker's assertion over all of them counts.
pub open spec fn delivered(
    identity: IdentityView,
    recovery: Option<RecoveryScopeView>,
    key: Seq<u8>,
    publish: PublishView,
) -> Result<DeliveryView, MqttError> {
    if !valid_utf8(publish.topic) || publish.qos != 1 {
        Err(MqttError::InvalidCommandFrame)
    } else {
        let topic = decode_utf8(publish.topic);
        match publish.correlation {
            None => Err(MqttError::InvalidCommandFrame),
            Some(correlation) => {
                let command_id = decode_utf8(correlation);
                if !valid_utf8(correlation) || !identity::is_command_id(command_id) {
                    Err(MqttError::InvalidCommandFrame)
                } else {
                    match frame_scope(identity, recovery, topic, command_id) {
                        None => Err(MqttError::InvalidCommandFrame),
                        Some(scope) => if assertion::frame_authentic(
                            key,
                            scope,
                            FrameView {
                                topic,
                                payload: publish.payload,
                                correlation,
                                qos: 1,
                                retain: publish.retain,
                                properties: publish.user_properties,
                            },
                        ) {
                            Ok(
                                DeliveryView {
                                    packet_id: publish.packet_id,
                                    payload: publish.payload,
                                    topic,
                                    command_id,
                                    identity: scope,
                                },
                            )
                        } else {
                            Err(MqttError::AssertionRejected)
                        },
                    }
                }
            },
        }
    }
}

/// One packet of the transport, coming in or going out.
#[derive(Debug)]
pub enum Packet {
    ConnAck,
    SubAck(Vec<SubscribeReasonCode>),
    UnsubAck(Vec<UnsubAckReason>),
    Publish(InboundPublish),
    PubAck(u16),
    OutgoingPublish(u16),
    OutgoingPubAck(u16),
    Other,
}

/// What a packet carries.
pub enum PacketView {
    ConnAck,
    SubAck(Seq<SubscribeReasonCode>),
    UnsubAck(Seq<UnsubAckReason>),
    Publish(PublishView),
    PubAck(u16),
    OutgoingPublish(u16),
    OutgoingPubAck(u16),
    Other,
}

impl View for Packet {
    type V = PacketView;

    open spec fn view(&self) -> PacketView {
        match self {
            Packet::ConnAck => PacketView::ConnAck,
            Packet::SubAck(codes) => PacketView::SubAck(codes@),
            Packet::UnsubAck(reasons) => PacketView::UnsubAck(reasons@),
            Packet::Publish(publish) => PacketView::Publish(publish@),
            Packet::PubAck(id) => PacketView::PubAck(*id),
            Packet::OutgoingPublish(id) => PacketView::OutgoingPublish(*id),
            Packet::OutgoingPubAck(id) => PacketView::OutgoingPubAck(*id),
            Packet::Other => PacketView::Other,
        }
    }
}

/// Observable MQTT v5 transport events. Broker acknowledgements never become application facts.
#[derive(Debug)]
pub enum MqttEvent {
    Connected,
    Subscribed,
    Unsubscribed,
    Command(Box<CommandDelivery>),
    OutboundAcknowledged { event_id: String },
    InboundAcknowledged { settlement_token: Option<String> },
    TransportProgress,
}

/// What a transport event says.
pub enum EventView {
    Connected,
    Subscribed,
    Unsubscribed,
    Command(DeliveryView),
    OutboundAcknowledged { event_id: Seq<char> },
    InboundAcknowledged { settlement_token: Option<Seq<char>> },
    TransportProgress,
}

/// The text of an optional token.
pub open spec fn token_text(token: Option<String>) -> Option<Seq<char>> {
    match token {
        Some(token) => Some(token@),
        None => None,
    }
}

impl View for MqttEvent {
    type V = EventView;

    open spec fn view(&self) -> EventView {
        match self {
            MqttEvent::Connected => EventView::Connected,
            MqttEvent::Subscribed => EventView::Subscribed,
            MqttEvent::Unsubscribed => EventView::Unsubscribed,
            MqttEvent::Command(delivery) => EventView::Command(delivery@),
            MqttEvent::OutboundAcknowledged { event_id } => EventView::OutboundAcknowledged {
                event_id: event_id@,
            },
            MqttEvent::InboundAcknowledged { settlement_token } => EventView::InboundAcknowledged {
                settlement_token: token_text(*settlement_token),
            },
            MqttEvent::TransportProgress => EventView::TransportProgress,
        }
    }
}

/// What a session keeps of its traffic: its scope, the events that wait for
/// a packet identity, the events under their packet identities, and the
/// settlement tokens of commands being acknowledged.
#[verifier::ext_equal]
pub struct SessionView {
    pub identity: IdentityView,
    pub recovery: Option<RecoveryScopeView>,
    pub key: Seq<u8>,
    pub awaiting: Seq<Seq<char>>,
    pub packets: Map<u16, Seq<char>>,
    pub inbound: Map<u16, Option<Seq<char>>>,
}

pub open spec fn result_of(result: Result<MqttEvent, MqttError>) -> Result<EventView, MqttError> {
    match result {
        Ok(event) => Ok(event@),
        Err(error) => Err(error),
    }
}

impl SessionView {
    pub open spec fn delivers(self, publish: PublishView) -> Result<DeliveryView, MqttError> {
        delivered(self.identity, self.recovery, self.key, publish)
    }

    /// What a packet means to the session.
    pub open spec fn meaning(self, packet: PacketView) -> Result<EventView, MqttError> {
        match packet {
            PacketView::ConnAck => Ok(EventView::Connected),
            PacketView::SubAck(codes) => if subscription_granted(codes) {
                Ok(EventView::Subscribed)
            } else {
                Err(MqttError::SubscriptionRejected)
            },
            PacketView::UnsubAck(reasons) => if subscription_removed(reasons) {
                Ok(EventView::Unsubscribed)
            } else {
                Err(MqttError::SubscriptionRejected)
            },
            PacketView::Publish(publish) => match self.delivers(publish) {
                Ok(delivery) => Ok(EventView::Command(delivery)),
                Err(error) => Err(error),
            },
            PacketView::PubAck(id) => if self.packets.contains_key(id) {
                Ok(EventView::OutboundAcknowledged { event_id: self.packets[id] })
            } else {
                Err(MqttError::UnknownPubAck)
            },
            PacketView::OutgoingPublish(id) => if self.awaiting.len() > 0
                && !self.packets.contains_key(id) {
                Ok(EventView::TransportProgress)
            } else {
                Err(MqttError::UnknownPubAck)
            },
            PacketView::OutgoingPubAck(id) => if self.inbound.contains_key(id) {
                Ok(EventView::InboundAcknowledged { settlement_token: self.inbound[id] })
            } else {
                Err(MqttError::UnknownPubAck)
            },
            PacketView::Other => Ok(EventView::TransportProgress),
        }
    }

    /// What a packet changes in the session.
    pub open spec fn after(self, packet: PacketView) -> SessionView {
        match packet {
            PacketView::PubAck(id) => SessionView { packets: self.packets.remove(id), ..self },
            PacketView::OutgoingPublish(id) => if self.awaiting.len() > 0 {
                SessionView {
                    awaiting: self.awaiting.drop_first(),
                    packets: self.packets.insert(id, self.awaiting[0]),
                    ..self
                }
            } else {
                self
            },
            PacketView::OutgoingPubAck(id) => SessionView {
                inbound: self.inbound.remove(id),
                ..self
            },
            _ => self,
        }
    }
}

/// The bookkeeping of one MQTT v5 session with manual acknowledgements.
pub struct MqttSession {
    topics: TopicSet,
    awaiting_packet_id: VecDeque<String>,
    packet_events: HashMap<u16, String>,
    inbound_acknowledgements: HashMap<u16, Option<String>>,
    recovery_command: Option<RecoveryCommandScope>,
    assertion_verifier: BrokerAssertionVerifier,
}

pub closed spec fn awaiting_view(awaiting: Seq<String>) -> Seq<Seq<char>> {
    awaiting.map_values(|event: String| event@)
}

pub closed spec fn packets_view(packets: Map<u16, String>) -> Map<u16, Seq<char>> {
    packets.map_values(|event: String| event@)
}

pub closed spec fn inbound_view(inbound: Map<u16, Option<String>>) -> Map<u16, Option<Seq<char>>> {
    inbound.map_values(|token: Option<String>| token_text(token))
}

impl View for MqttSession {
    type V = SessionView;

    closed spec fn view(&self) -> SessionView {
        SessionView {
            identity: self.topics@,
            recovery: match self.recovery_command {
                Some(scope) => Some(scope@),
                None => None,
            },
            key: self.assertion_verifier@,
            awaiting: awaiting_view(self.awaiting_packet_id@),
            packets: packets_view(self.packet_events@),
            inbound: inbound_view(self.inbound_acknowledgements@),
        }
    }
}

impl core::fmt::Debug for MqttSession {
    fn fmt(&self, formatter: &mut core::fmt::Formatter<'_>) -> (r: Result<(), core::fmt::Error>)
        ensures
            r is Ok ==> display::wrote(
                *old(formatter),
                *final(formatter),
                "MqttSession(<mTLS-persistent>)"@,
            ),
    {
        formatter.write_str("MqttSession(<mTLS-persistent>)")
    }
}

/// Which of the two uplink topics a fact goes to.
#[derive(Clone, Copy, Debug, PartialEq, Eq, Structural)]
pub enum OutboundKind {
    CommandAcknowledged,
    CertificateReported,
}

impl MqttSession {
    pub fn new(
        topics: TopicSet,
        recovery_command: Option<RecoveryCommandScope>,
        assertion_verifier: BrokerAssertionVerifier,
    ) -> (r: Self)
        ensures
            r@ == (SessionView {
                identity: topics@,
                recovery: match recovery_command {
                    Some(scope) => Some(scope@),
                    None => None,
                },
                key: assertion_verifier@,
                awaiting: Seq::empty(),
                packets: Map::empty(),
                inbound: Map::empty(),
            }),
    {
        let session = MqttSession {
            topics,
            awaiting_packet_id: VecDeque::new(),
            packet_events: HashMap::new(),
            inbound_acknowledgements: HashMap::new(),
            recovery_command,
            assertion_verifier,
        };
        assert(session@.awaiting =~= Seq::empty());
        assert(session@.packets =~= Map::empty());
        assert(session@.inbound =~= Map::empty());
        session
    }

    /// The sole canonical command topic, for subscribing and unsubscribing.
    pub fn command_topic(&self) -> (r: &str)
        ensures
            r@ == self@.identity.command_topic(),
    {
        self.topics.command()
    }

    /// The exact durable recovery subscription, for unsubscribing.
    pub fn recovery_topic(&self) -> (r: Result<&str, MqttError>)
        ensures
            match self@.recovery {
                Some(scope) => r is Ok && r->Ok_0@ == scope.topic,
                None => r == Err::<&str, MqttError>(MqttError::InvalidCommandFrame),
            },
    {
        match &self.recovery_command {
            Some(scope) => Ok(scope.topic()),
            None => Err(MqttError::InvalidCommandFrame),
        }
    }

    /// The topic that a fact is published on.
    pub fn outbound_topic(&self, kind: OutboundKind) -> (r: &str)
        ensures
            r@ == match kind {
                OutboundKind::CommandAcknowledged => self@.identity.acknowledged_topic(),
                OutboundKind::CertificateReported => self@.identity.reported_topic(),
            },
    {
        match kind {
            OutboundKind::CommandAcknowledged => self.topics.command_acknowledged(),
            OutboundKind::CertificateReported => self.topics.certificate_reported(),
        }
    }

    /// Records that a fact was handed to the transport.
    pub fn publish(&mut self, event_id: String)
        ensures
            final(self)@ == (SessionView {
                awaiting: old(self)@.awaiting.push(event_id@),
                ..old(self)@
            }),
    {
        let ghost before = self.awaiting_packet_id@;
        self.awaiting_packet_id.push_back(event_id);
        assert(awaiting_view(self.awaiting_packet_id@) =~= awaiting_view(before).push(event_id@));
    }

    /// Records that the acknowledgement of a command was handed to the transport.
    pub fn acknowledge_command(
        &mut self,
        delivery: &CommandDelivery,
        settlement_token: Option<String>,
    )
        ensures
            final(self)@ == (SessionView {
                inbound: old(self)@.inbound.insert(
                    delivery@.packet_id,
                    token_text(settlement_token),
                ),
                ..old(self)@
            }),
    {
        let ghost before = self.inbound_acknowledgements@;
        let ghost token = settlement_token;
        self.inbound_acknowledgements.insert(delivery.packet_id, settlement_token);
        assert(inbound_view(self.inbound_acknowledgements@) =~= inbound_view(before).insert(
            delivery@.packet_id,
            token_text(token),
        ));
    }

    /// Takes one packet of the transport in.
    pub fn poll(&mut self, packet: Packet) -> (r: Result<MqttEvent, MqttError>)
        ensures
            result_of(r) == old(self)@.meaning(packet@),
            final(self)@ == old(self)@.after(packet@),
    {
        let ghost before = self@;
        match packet {
            Packet::ConnAck => Ok(MqttEvent::Connected),
            Packet::SubAck(codes) => match validate_suback(codes.as_slice()) {
                Ok(()) => Ok(MqttEvent::Subscribed),
                Err(error) => Err(error),
            },
            Packet::UnsubAck(reasons) => match validate_unsuback(reasons.as_slice()) {
                Ok(()) => Ok(MqttEvent::Unsubscribed),
                Err(error) => Err(error),
            },
            Packet::Publish(publish) => match self.command_delivery(publish) {
                Ok(delivery) => Ok(MqttEvent::Command(Box::new(delivery))),
                Err(error) => Err(error),
            },
            Packet::PubAck(id) => {
                let ghost held = self.packet_events@;
                let found = self.packet_events.remove(&id);
                assert(self@ =~= before.after(packet@));
                match found {
                    Some(event_id) => {
                        assert(before.packets[id] == event_id@);
                        Ok(MqttEvent::OutboundAcknowledged { event_id })
                    },
                    None => Err(MqttError::UnknownPubAck),
                }
            },
            Packet::OutgoingPublish(id) => self.number_publish(id),
            Packet::OutgoingPubAck(id) => {
                let found = self.inbound_acknowledgements.remove(&id);
                assert(self@ =~= before.after(packet@));
                match found {
                    Some(settlement_token) => {
                        assert(before.inbound[id] == token_text(settlement_token));
                        Ok(MqttEvent::InboundAcknowledged { settlement_token })
                    },
                    None => Err(MqttError::UnknownPubAck),
                }
            },
            Packet::Other => Ok(MqttEvent::TransportProgress),
        }
    }

    fn number_publish(&mut self, id: u16) -> (r: Result<MqttEvent, MqttError>)
        ensures
            result_of(r) == old(self)@.meaning(PacketView::OutgoingPublish(id)),
            final(self)@ == old(self)@.after(PacketView::OutgoingPublish(id)),
    {
        let ghost before = self@;
        let ghost queue = self.awaiting_packet_id@;
        let ghost held = self.packet_events@;
        match self.awaiting_packet_id.pop_front() {
            None => Err(MqttError::UnknownPubAck),
            Some(event_id) => {
                assert(before.awaiting[0] == event_id@);
                assert(awaiting_view(self.awaiting_packet_id@) =~= before.awaiting.drop_first());
                let ghost text = event_id@;
                let replaced = self.packet_events.insert(id, event_id);
                assert(packets_view(self.packet_events@) =~= packets_view(held).insert(id, text));
                assert(self@ =~= before.after(PacketView::OutgoingPublish(id)));
                if replaced.is_some() {
                    return Err(MqttError::UnknownPubAck);
                }
                Ok(MqttEvent::TransportProgress)
            },
        }
    }

    /// Accepts a publish packet as a command only in scope and authenticated.
    pub fn command_delivery(&self, publish: InboundPublish) -> (r: Result<
        CommandDelivery,
        MqttError,
    >)
        ensures
            match self@.delivers(publish@) {
                Ok(delivery) => r is Ok && r->Ok_0@ == delivery,
                Err(error) => r == Err::<CommandDelivery, MqttError>(error),
            },
    {
        let topic = match text::utf8_text(publish.topic.as_slice()) {
            Some(topic) => topic,
            None => {
                return Err(MqttError::InvalidCommandFrame);
            },
        };
        if publish.qos != 1 {
            return Err(MqttError::InvalidCommandFrame);
        }
        let correlation = match publish.correlation {
            Some(correlation) => correlation,
            None => {
                return Err(MqttError::InvalidCommandFrame);
            },
        };
        let command_id = match text::utf8_text(correlation.as_slice()) {
            Some(command_id) => command_id,
            None => {
                return Err(MqttError::InvalidCommandFrame);
            },
        };
        if CommandId::try_from(command_id.as_str()).is_err() {
            return Err(MqttError::InvalidCommandFrame);
        }
        let identity = match self.scope_of(topic.as_str(), command_id.as_str()) {
            Some(identity) => identity,
            None => {
                return Err(MqttError::InvalidCommandFrame);
            },
        };
        match self.assertion_verifier.verify_command(
            &identity,
            topic.as_str(),
            publish.payload.as_slice(),
            correlation.as_slice(),
            1,
            publish.retain,
            publish.user_properties.as_slice(),
        ) {
            Ok(()) => Ok(
                CommandDelivery {
                    packet_id: publish.packet_id,
                    payload: publish.payload,
                    topic,
                    command_id,
                    identity,
                },
            ),
            Err(_) => Err(MqttError::AssertionRejected),
        }
    }

    fn scope_of(&self, topic: &str, command_id: &str) -> (r: Option<DeviceIdentity>)
        ensures
            match frame_scope(self@.identity, self@.recovery, topic@, command_id@) {
                Some(identity) => r is Some && r->0@ == identity,
                None => r is None,
            },
    {
        if self.topics.accepts_command(topic) {
            return Some(*self.topics.identity());
        }
        match &self.recovery_command {
            Some(scope) => if text::same(scope.topic(), topic) && text::same(
                scope.command_id(),
                command_id,
            ) {
                Some(*scope.identity())
            } else {
                None
            },
            None => None,
        }
    }
}

/// Facts are numbered in the order in which they were handed over, and a
/// number's acknowledgement confirms the fact that bears it, once, whatever
/// is acknowledged before.
pub proof fn law_puback_confirms_the_numbered_fact(
    s: SessionView,
    event_id: Seq<char>,
    id: u16,
    other: u16,
)
    requires
        !s.packets.contains_key(id),
        other != id,
    ensures
        ({
            let handed = SessionView { awaiting: s.awaiting.push(event_id), ..s };
            let oldest = if s.awaiting.len() == 0 {
                event_id
            } else {
                s.awaiting[0]
            };
            let numbered = handed.after(PacketView::OutgoingPublish(id));
            &&& handed.meaning(PacketView::OutgoingPublish(id)) == Ok::<EventView, MqttError>(
                EventView::TransportProgress,
            )
            &&& s.awaiting.len() > 0 ==> numbered.awaiting == s.awaiting.drop_first().push(event_id)
            &&& numbered.meaning(PacketView::PubAck(id)) == Ok::<EventView, MqttError>(
                EventView::OutboundAcknowledged { event_id: oldest },
            )
            &&& numbered.after(PacketView::PubAck(other)).meaning(PacketView::PubAck(id)) == Ok::<
                EventView,
                MqttError,
            >(EventView::OutboundAcknowledged { event_id: oldest })
            &&& numbered.after(PacketView::PubAck(id)).meaning(PacketView::PubAck(id)) == Err::<
                EventView,
                MqttError,
            >(MqttError::UnknownPubAck)
        }),
{
    if s.awaiting.len() > 0 {
        assert(s.awaiting.push(event_id).drop_first() =~= s.awaiting.drop_first().push(event_id));
    }
}

/// A frame that is delivered as a command is authentic for the scope it is
/// delivered under, and that scope is the session's or the recovery's.
pub proof fn law_delivered_commands_are_authentic(s: SessionView, publish: PublishView)
    ensures
        s.delivers(publish) matches Ok(delivery) ==> {
            &&& publish.qos == 1 && !publish.retain
            &&& identity::is_command_id(delivery.command_id)
            &&& delivery.identity == s.identity && delivery.topic == s.identity.command_topic() || (
            s.recovery matches Some(scope) && delivery.identity == scope.identity && delivery.topic
                == scope.topic && delivery.command_id == scope.command_id)
            &&& assertion::frame_authentic(
                s.key,
                delivery.identity,
                FrameView {
                    topic: delivery.topic,
                    payload: delivery.payload,
                    correlation: encode_utf8(delivery.command_id),
                    qos: 1,
                    retain: false,
                    properties: publish.user_properties,
                },
            )
        },
{
    if publish.correlation is Some && valid_utf8(publish.correlation->0) {
        decode_utf8_encode_utf8(publish.correlation->0);
    }
}

} // verus!
