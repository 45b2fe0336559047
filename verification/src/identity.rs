//! Device coordinates and the closed values of the reference agent.

use crate::digest;
use crate::display;
use crate::model::{FenceEpoch, Generation};
use crate::nonzero::{NonZeroU32, NonZeroU64, NonZeroUsize};
use crate::text;
use std::path::PathBuf;
use core::cmp::Ordering;
use vstd::prelude::*;
use vstd::std_specs::cmp::PartialOrdSpec;
use vstd::string::*;

verus! {

/// `std::path::PathBuf` is carried through unread.
#[verifier::external_type_specification]
#[verifier::external_body]
pub struct ExPathBuf(PathBuf);

/// Failure to construct a security-sensitive reference-agent value.
#[derive(Clone, Copy, Debug, PartialEq, Eq, Structural)]
pub enum ValueError {
    Zero,
    InvalidArtifactId,
    InvalidClientId,
    InvalidHost,
    InvalidPort,
    InvalidCommandId,
    InvalidDigest,
}

impl ValueError {
    /// The text that describes the failure.
    pub open spec fn message(self) -> Seq<char> {
        match self {
            ValueError::Zero => "value must be greater than zero"@,
            ValueError::InvalidArtifactId => "artifact id is invalid"@,
            ValueError::InvalidClientId => "MQTT client id is invalid"@,
            ValueError::InvalidHost => "MQTT host is invalid"@,
            ValueError::InvalidPort => "MQTT port is invalid"@,
            ValueError::InvalidCommandId => "command id is invalid"@,
            ValueError::InvalidDigest => "SHA-256 digest is invalid"@,
        }
    }
}

impl core::fmt::Display for ValueError {
    fn fmt(&self, formatter: &mut core::fmt::Formatter<'_>) -> (r: Result<(), core::fmt::Error>)
        ensures
            r is Ok ==> display::wrote(*old(formatter), *final(formatter), self.message()),
    {
        formatter.write_str(
            match self {
                ValueError::Zero => "value must be greater than zero",
                ValueError::InvalidArtifactId => "artifact id is invalid",
                ValueError::InvalidClientId => "MQTT client id is invalid",
                ValueError::InvalidHost => "MQTT host is invalid",
                ValueError::InvalidPort => "MQTT port is invalid",
                ValueError::InvalidCommandId => "command id is invalid",
                ValueError::InvalidDigest => "SHA-256 digest is invalid",
            },
        )
    }
}

impl std::error::Error for ValueError {

}

/// The canonical text of a 128-bit identifier: 32 lower-case hexadecimal
/// digits in groups of eight, four, four, four and twelve.
pub open spec fn hyphenated(value: u128) -> Seq<char> {
    let digits = text::hex(text::be_bytes(value as nat, 16));
    digits.subrange(0, 8) + "-"@ + digits.subrange(8, 12) + "-"@ + digits.subrange(12, 16) + "-"@
        + digits.subrange(16, 20) + "-"@ + digits.subrange(20, 32)
}

/// `uuid::Uuid::from_u128` reads the value in big-endian order, and
/// `uuid::Hyphenated` renders it as lower-case hyphenated text.
#[verifier::external_body]
fn hyphenated_text(value: u128) -> (r: String)
    ensures
        r@ == hyphenated(value),
{
    uuid::Uuid::from_u128(value).hyphenated().to_string()
}

/// A 128-bit universally unique identifier.
#[derive(Clone, Copy, PartialEq, Eq, Ord, Hash, Structural)]
pub struct Uuid(u128);

impl View for Uuid {
    type V = u128;

    closed spec fn view(&self) -> u128 {
        self.0
    }
}

impl PartialOrd for Uuid {
    fn partial_cmp(&self, other: &Self) -> (r: Option<Ordering>) {
        if self.0 < other.0 {
            Some(Ordering::Less)
        } else if self.0 == other.0 {
            Some(Ordering::Equal)
        } else {
            Some(Ordering::Greater)
        }
    }
}

impl vstd::std_specs::cmp::PartialOrdSpecImpl for Uuid {
    open spec fn obeys_partial_cmp_spec() -> bool {
        true
    }

    open spec fn partial_cmp_spec(&self, other: &Self) -> Option<Ordering> {
        if self@ < other@ {
            Some(Ordering::Less)
        } else if self@ == other@ {
            Some(Ordering::Equal)
        } else {
            Some(Ordering::Greater)
        }
    }
}

impl Uuid {
    #[must_use]
    pub fn from_u128(value: u128) -> (r: Self)
        ensures
            r@ == value,
    {
        Uuid(value)
    }

    #[must_use]
    pub fn as_u128(self) -> (r: u128)
        ensures
            r == self@,
    {
        self.0
    }

    /// The identifier whose bits are all zero.
    #[must_use]
    pub fn is_nil(self) -> (r: bool)
        ensures
            r == (self@ == 0),
    {
        self.0 == 0
    }

    /// The canonical hyphenated text.
    #[must_use]
    pub fn text(self) -> (r: String)
        ensures
            r@ == hyphenated(self@),
    {
        hyphenated_text(self.0)
    }

    pub fn same(self, other: Uuid) -> (r: bool)
        ensures
            r == (self@ == other@),
            r == (self == other),
    {
        self.0 == other.0
    }
}

impl core::fmt::Debug for Uuid {
    fn fmt(&self, formatter: &mut core::fmt::Formatter<'_>) -> (r: Result<(), core::fmt::Error>)
        ensures
            r is Ok ==> display::wrote(*old(formatter), *final(formatter), hyphenated(self@)),
    {
        let rendered = self.text();
        formatter.write_str(rendered.as_str())
    }
}

/// Monotonic generation embedded in the authenticated MQTT credential scope.
#[derive(Clone, Copy, Debug, PartialEq, Eq, Ord, Hash, Structural)]
pub struct CredentialGeneration(u64);

impl View for CredentialGeneration {
    type V = u64;

    closed spec fn view(&self) -> u64 {
        self.0
    }
}

impl PartialOrd for CredentialGeneration {
    fn partial_cmp(&self, other: &Self) -> (r: Option<Ordering>) {
        if self.0 < other.0 {
            Some(Ordering::Less)
        } else if self.0 == other.0 {
            Some(Ordering::Equal)
        } else {
            Some(Ordering::Greater)
        }
    }
}

impl vstd::std_specs::cmp::PartialOrdSpecImpl for CredentialGeneration {
    open spec fn obeys_partial_cmp_spec() -> bool {
        true
    }

    open spec fn partial_cmp_spec(&self, other: &Self) -> Option<Ordering> {
        if self@ < other@ {
            Some(Ordering::Less)
        } else if self@ == other@ {
            Some(Ordering::Equal)
        } else {
            Some(Ordering::Greater)
        }
    }
}

/// Credential generations compare as their values do.
pub proof fn law_credential_generations_order_by_value(a: CredentialGeneration, b: CredentialGeneration)
    ensures
        a.partial_cmp_spec(&b) == Some(Ordering::Less) <==> a@ < b@,
        a.partial_cmp_spec(&b) == Some(Ordering::Equal) <==> a@ == b@,
        a.partial_cmp_spec(&b) == Some(Ordering::Greater) <==> a@ > b@,
{
}

impl CredentialGeneration {
    #[verifier::type_invariant]
    spec fn inv(self) -> bool {
        self.0 > 0
    }

    #[must_use]
    pub fn get(self) -> (r: u64)
        ensures
            r == self@,
            r > 0,
    {
        proof {
            use_type_invariant(&self);
        }
        self.0
    }
}

impl TryFrom<u64> for CredentialGeneration {
    type Error = ValueError;

    fn try_from(value: u64) -> (r: Result<Self, ValueError>)
        ensures
            value == 0 ==> r == Err::<Self, ValueError>(ValueError::Zero),
            value > 0 ==> r is Ok && r->Ok_0@ == value,
    {
        if value == 0 {
            Err(ValueError::Zero)
        } else {
            Ok(CredentialGeneration(value))
        }
    }
}

impl vstd::std_specs::convert::TryFromSpecImpl<u64> for CredentialGeneration {
    open spec fn obeys_try_from_spec() -> bool {
        false
    }

    open spec fn try_from_spec(value: u64) -> Result<Self, ValueError> {
        arbitrary()
    }
}

/// The coordinates that one device session is authenticated under.
pub struct IdentityView {
    pub tenant: u128,
    pub device: u128,
    pub credential_generation: u64,
}

impl IdentityView {
    pub open spec fn principal_urn(self) -> Seq<char> {
        "urn:rss:mqtt-device:v1:"@ + hyphenated(self.tenant) + ":"@ + hyphenated(self.device) + ":"@
            + text::decimal(self.credential_generation as nat)
    }

    /// The client identity does not depend on the credential generation.
    pub open spec fn mqtt_client_id(self) -> Seq<char> {
        "rss-reference-device-"@ + hyphenated(self.tenant) + "-"@ + hyphenated(self.device)
    }

    pub open spec fn topic_prefix(self) -> Seq<char> {
        "rss/v1/"@ + hyphenated(self.tenant) + "/"@ + hyphenated(self.device) + "/"@
            + text::decimal(self.credential_generation as nat) + "/"@
    }

    pub open spec fn command_topic(self) -> Seq<char> {
        self.topic_prefix() + "downlink/identity.commands.apply-device-certificate"@
    }

    pub open spec fn acknowledged_topic(self) -> Seq<char> {
        self.topic_prefix() + "uplink/identity.device-command-acked"@
    }

    pub open spec fn reported_topic(self) -> Seq<char> {
        self.topic_prefix() + "uplink/identity.device-certificate-reported"@
    }
}

/// Exact peer-authenticated device coordinates for one MQTT session.
#[derive(Clone, Copy, PartialEq, Eq, Structural)]
pub struct DeviceIdentity {
    tenant: Uuid,
    device: Uuid,
    credential_generation: CredentialGeneration,
}

impl View for DeviceIdentity {
    type V = IdentityView;

    closed spec fn view(&self) -> IdentityView {
        IdentityView {
            tenant: self.tenant@,
            device: self.device@,
            credential_generation: self.credential_generation@,
        }
    }
}

impl DeviceIdentity {
    #[must_use]
    pub fn new(tenant: Uuid, device: Uuid, credential_generation: CredentialGeneration) -> (r: Self)
        ensures
            r@ == (IdentityView {
                tenant: tenant@,
                device: device@,
                credential_generation: credential_generation@,
            }),
    {
        DeviceIdentity { tenant, device, credential_generation }
    }

    /// Coordinates that can be authenticated: neither identifier may be nil.
    pub fn try_new(
        tenant: Uuid,
        device: Uuid,
        credential_generation: CredentialGeneration,
    ) -> (r: Result<Self, ValueError>)
        ensures
            tenant@ == 0 || device@ == 0 ==> r == Err::<Self, ValueError>(ValueError::Zero),
            tenant@ != 0 && device@ != 0 ==> r is Ok && r->Ok_0@ == (IdentityView {
                tenant: tenant@,
                device: device@,
                credential_generation: credential_generation@,
            }),
    {
        if tenant.is_nil() || device.is_nil() {
            return Err(ValueError::Zero);
        }
        Ok(DeviceIdentity { tenant, device, credential_generation })
    }

    #[must_use]
    pub fn tenant(&self) -> (r: Uuid)
        ensures
            r@ == self@.tenant,
    {
        self.tenant
    }

    #[must_use]
    pub fn device(&self) -> (r: Uuid)
        ensures
            r@ == self@.device,
    {
        self.device
    }

    #[must_use]
    pub fn credential_generation(&self) -> (r: CredentialGeneration)
        ensures
            r@ == self@.credential_generation,
    {
        self.credential_generation
    }

    #[must_use]
    pub fn principal_urn(&self) -> (r: String)
        ensures
            r@ == self@.principal_urn(),
    {
        String::from_str("urn:rss:mqtt-device:v1:").concat(self.tenant.text().as_str()).concat(
            ":",
        ).concat(self.device.text().as_str()).concat(":").concat(
            text::decimal_text(self.credential_generation.get()).as_str(),
        )
    }

    /// Stable persistent-session identity bound to tenant and device coordinates.
    #[must_use]
    pub fn mqtt_client_id(&self) -> (r: String)
        ensures
            r@ == self@.mqtt_client_id(),
    {
        String::from_str("rss-reference-device-").concat(self.tenant.text().as_str()).concat(
            "-",
        ).concat(self.device.text().as_str())
    }

    fn topic_prefix(&self) -> (r: String)
        ensures
            r@ == self@.topic_prefix(),
    {
        String::from_str("rss/v1/").concat(self.tenant.text().as_str()).concat("/").concat(
            self.device.text().as_str(),
        ).concat("/").concat(text::decimal_text(self.credential_generation.get()).as_str()).concat(
            "/",
        )
    }
}

impl core::fmt::Debug for DeviceIdentity {
    fn fmt(&self, formatter: &mut core::fmt::Formatter<'_>) -> (r: Result<(), core::fmt::Error>)
        ensures
            r is Ok ==> display::wrote(
                *old(formatter),
                *final(formatter),
                "DeviceIdentity(<redacted>)"@,
            ),
    {
        formatter.write_str("DeviceIdentity(<redacted>)")
    }
}

/// Canonical, exact topic set for one authenticated device session.
#[derive(Debug, PartialEq, Eq)]
pub struct TopicSet {
    identity: DeviceIdentity,
    command: String,
    command_acknowledged: String,
    certificate_reported: String,
}

/// The topics follow from the identity alone.
impl View for TopicSet {
    type V = IdentityView;

    closed spec fn view(&self) -> IdentityView {
        self.identity@
    }
}

impl TopicSet {
    #[verifier::type_invariant]
    spec fn inv(self) -> bool {
        &&& self.command@ == self.identity@.command_topic()
        &&& self.command_acknowledged@ == self.identity@.acknowledged_topic()
        &&& self.certificate_reported@ == self.identity@.reported_topic()
    }

    #[must_use]
    pub fn new(identity: &DeviceIdentity) -> (r: Self)
        ensures
            r@ == identity@,
    {
        let command = identity.topic_prefix().concat(
            "downlink/identity.commands.apply-device-certificate",
        );
        let command_acknowledged = identity.topic_prefix().concat(
            "uplink/identity.device-command-acked",
        );
        let certificate_reported = identity.topic_prefix().concat(
            "uplink/identity.device-certificate-reported",
        );
        TopicSet { identity: *identity, command, command_acknowledged, certificate_reported }
    }

    #[must_use]
    pub fn identity(&self) -> (r: &DeviceIdentity)
        ensures
            r@ == self@,
    {
        &self.identity
    }

    #[must_use]
    pub fn command(&self) -> (r: &str)
        ensures
            r@ == self@.command_topic(),
    {
        proof {
            use_type_invariant(self);
        }
        self.command.as_str()
    }

    #[must_use]
    pub fn command_acknowledged(&self) -> (r: &str)
        ensures
            r@ == self@.acknowledged_topic(),
    {
        proof {
            use_type_invariant(self);
        }
        self.command_acknowledged.as_str()
    }

    #[must_use]
    pub fn certificate_reported(&self) -> (r: &str)
        ensures
            r@ == self@.reported_topic(),
    {
        proof {
            use_type_invariant(self);
        }
        self.certificate_reported.as_str()
    }

    #[must_use]
    pub fn accepts_command(&self, topic: &str) -> (r: bool)
        ensures
            r == (topic@ == self@.command_topic()),
    {
        proof {
            use_type_invariant(self);
        }
        text::same(topic, self.command.as_str())
    }
}

impl Clone for TopicSet {
    fn clone(&self) -> (r: Self)
        ensures
            r == *self,
    {
        proof {
            use_type_invariant(self);
        }
        TopicSet {
            identity: self.identity,
            command: self.command.clone(),
            command_acknowledged: self.command_acknowledged.clone(),
            certificate_reported: self.certificate_reported.clone(),
        }
    }
}

/// Sixteen to 256 characters, none of them a control character or a path
/// separator, and never two dots in a row.
pub open spec fn is_artifact_id(value: Seq<char>) -> bool {
    &&& 16 <= value.len() <= 256
    &&& !text::has_control(value)
    &&& forall|i: int| 0 <= i < value.len() ==> #[trigger] value[i] != '/' && value[i] != '\\'
    &&& forall|i: int|
        0 <= i < value.len() - 1 ==> !(#[trigger] value[i] == '.' && value[i + 1] == '.')
}

fn artifact_id_shaped(value: &str) -> (r: bool)
    ensures
        r == is_artifact_id(value@),
{
    let chars = text::chars_of(value);
    if chars.len() < 16 || chars.len() > 256 || text::contains_control(value) {
        return false;
    }
    let mut i: usize = 0;
    while i < chars.len()
        invariant
            i <= chars@.len(),
            chars@ == value@,
            forall|j: int| 0 <= j < i ==> #[trigger] value@[j] != '/' && value@[j] != '\\',
            forall|j: int|
                0 <= j < i && j < value@.len() - 1 ==> !(#[trigger] value@[j] == '.' && value@[j
                    + 1] == '.'),
        decreases chars@.len() - i,
    {
        let c = chars[i];
        if c == '/' || c == '\\' || (c == '.' && i + 1 < chars.len() && chars[i + 1] == '.') {
            assert(value@[i as int] == c);
            return false;
        }
        i = i + 1;
    }
    true
}

/// One to 256 characters, none of them a control character.
pub open spec fn is_command_id(value: Seq<char>) -> bool {
    1 <= value.len() <= 256 && !text::has_control(value)
}

fn command_id_shaped(value: &str) -> (r: bool)
    ensures
        r == is_command_id(value@),
{
    let count: usize = value.unicode_len();
    1 <= count && count <= 256 && !text::contains_control(value)
}

/// Opaque catalog key. It can never be interpreted as a filesystem path.
#[derive(PartialEq, Eq, PartialOrd, Ord, Hash)]
pub struct ArtifactId(String);

impl View for ArtifactId {
    type V = Seq<char>;

    closed spec fn view(&self) -> Seq<char> {
        self.0@
    }
}

impl ArtifactId {
    #[verifier::type_invariant]
    spec fn inv(self) -> bool {
        is_artifact_id(self.0@)
    }

    #[must_use]
    pub fn expose(&self) -> (r: &str)
        ensures
            r@ == self@,
            is_artifact_id(r@),
    {
        proof {
            use_type_invariant(self);
        }
        self.0.as_str()
    }
}

impl Clone for ArtifactId {
    fn clone(&self) -> (r: Self)
        ensures
            r == *self,
    {
        proof {
            use_type_invariant(self);
        }
        ArtifactId(self.0.clone())
    }
}

impl TryFrom<&str> for ArtifactId {
    type Error = ValueError;

    fn try_from(value: &str) -> (r: Result<Self, ValueError>)
        ensures
            is_artifact_id(value@) ==> r is Ok && r->Ok_0@ == value@,
            !is_artifact_id(value@) ==> r == Err::<Self, ValueError>(ValueError::InvalidArtifactId),
    {
        if artifact_id_shaped(value) {
            Ok(ArtifactId(value.to_owned()))
        } else {
            Err(ValueError::InvalidArtifactId)
        }
    }
}

impl vstd::std_specs::convert::TryFromSpecImpl<&str> for ArtifactId {
    open spec fn obeys_try_from_spec() -> bool {
        false
    }

    open spec fn try_from_spec(value: &str) -> Result<Self, ValueError> {
        arbitrary()
    }
}

impl TryFrom<String> for ArtifactId {
    type Error = ValueError;

    fn try_from(value: String) -> (r: Result<Self, ValueError>)
        ensures
            is_artifact_id(value@) ==> r is Ok && r->Ok_0@ == value@,
            !is_artifact_id(value@) ==> r == Err::<Self, ValueError>(ValueError::InvalidArtifactId),
    {
        if artifact_id_shaped(value.as_str()) {
            Ok(ArtifactId(value))
        } else {
            Err(ValueError::InvalidArtifactId)
        }
    }
}

impl vstd::std_specs::convert::TryFromSpecImpl<String> for ArtifactId {
    open spec fn obeys_try_from_spec() -> bool {
        false
    }

    open spec fn try_from_spec(value: String) -> Result<Self, ValueError> {
        arbitrary()
    }
}

impl core::fmt::Debug for ArtifactId {
    fn fmt(&self, formatter: &mut core::fmt::Formatter<'_>) -> (r: Result<(), core::fmt::Error>)
        ensures
            r is Ok ==> display::wrote(*old(formatter), *final(formatter), "ArtifactId(<redacted>)"@),
    {
        formatter.write_str("ArtifactId(<redacted>)")
    }
}

/// Exact lowercase SHA-256 identifier used by the public command contract.
#[derive(PartialEq, Eq, PartialOrd, Ord, Hash)]
pub struct Sha256Digest(String);

impl View for Sha256Digest {
    type V = Seq<char>;

    closed spec fn view(&self) -> Seq<char> {
        self.0@
    }
}

impl Sha256Digest {
    #[verifier::type_invariant]
    spec fn inv(self) -> bool {
        digest::is_digest_text(self.0@)
    }

    #[must_use]
    pub fn expose(&self) -> (r: &str)
        ensures
            r@ == self@,
            digest::is_digest_text(r@),
    {
        proof {
            use_type_invariant(self);
        }
        self.0.as_str()
    }
}

impl Clone for Sha256Digest {
    fn clone(&self) -> (r: Self)
        ensures
            r == *self,
    {
        proof {
            use_type_invariant(self);
        }
        Sha256Digest(self.0.clone())
    }
}

impl TryFrom<&str> for Sha256Digest {
    type Error = ValueError;

    fn try_from(value: &str) -> (r: Result<Self, ValueError>)
        ensures
            digest::is_digest_text(value@) ==> r is Ok && r->Ok_0@ == value@,
            !digest::is_digest_text(value@) ==> r == Err::<Self, ValueError>(ValueError::InvalidDigest),
    {
        if digest::digest_shaped(value) {
            Ok(Sha256Digest(value.to_owned()))
        } else {
            Err(ValueError::InvalidDigest)
        }
    }
}

impl vstd::std_specs::convert::TryFromSpecImpl<&str> for Sha256Digest {
    open spec fn obeys_try_from_spec() -> bool {
        false
    }

    open spec fn try_from_spec(value: &str) -> Result<Self, ValueError> {
        arbitrary()
    }
}

impl TryFrom<String> for Sha256Digest {
    type Error = ValueError;

    fn try_from(value: String) -> (r: Result<Self, ValueError>)
        ensures
            digest::is_digest_text(value@) ==> r is Ok && r->Ok_0@ == value@,
            !digest::is_digest_text(value@) ==> r == Err::<Self, ValueError>(ValueError::InvalidDigest),
    {
        if digest::digest_shaped(value.as_str()) {
            Ok(Sha256Digest(value))
        } else {
            Err(ValueError::InvalidDigest)
        }
    }
}

impl vstd::std_specs::convert::TryFromSpecImpl<String> for Sha256Digest {
    open spec fn obeys_try_from_spec() -> bool {
        false
    }

    open spec fn try_from_spec(value: String) -> Result<Self, ValueError> {
        arbitrary()
    }
}

impl core::fmt::Debug for Sha256Digest {
    fn fmt(&self, formatter: &mut core::fmt::Formatter<'_>) -> (r: Result<(), core::fmt::Error>)
        ensures
            r is Ok ==> display::wrote(*old(formatter), *final(formatter), "Sha256Digest(<redacted>)"@),
    {
        formatter.write_str("Sha256Digest(<redacted>)")
    }
}

/// Payload-external command envelope identity carried as MQTT correlation data.
#[derive(PartialEq, Eq, PartialOrd, Ord, Hash)]
pub struct CommandId(String);

impl View for CommandId {
    type V = Seq<char>;

    closed spec fn view(&self) -> Seq<char> {
        self.0@
    }
}

impl CommandId {
    #[verifier::type_invariant]
    spec fn inv(self) -> bool {
        is_command_id(self.0@)
    }

    #[must_use]
    pub fn expose(&self) -> (r: &str)
        ensures
            r@ == self@,
            is_command_id(r@),
    {
        proof {
            use_type_invariant(self);
        }
        self.0.as_str()
    }
}

impl Clone for CommandId {
    fn clone(&self) -> (r: Self)
        ensures
            r == *self,
    {
        proof {
            use_type_invariant(self);
        }
        CommandId(self.0.clone())
    }
}

impl TryFrom<&str> for CommandId {
    type Error = ValueError;

    fn try_from(value: &str) -> (r: Result<Self, ValueError>)
        ensures
            is_command_id(value@) ==> r is Ok && r->Ok_0@ == value@,
            !is_command_id(value@) ==> r == Err::<Self, ValueError>(ValueError::InvalidCommandId),
    {
        if command_id_shaped(value) {
            Ok(CommandId(value.to_owned()))
        } else {
            Err(ValueError::InvalidCommandId)
        }
    }
}

impl vstd::std_specs::convert::TryFromSpecImpl<&str> for CommandId {
    open spec fn obeys_try_from_spec() -> bool {
        false
    }

    open spec fn try_from_spec(value: &str) -> Result<Self, ValueError> {
        arbitrary()
    }
}

impl TryFrom<String> for CommandId {
    type Error = ValueError;

    fn try_from(value: String) -> (r: Result<Self, ValueError>)
        ensures
            is_command_id(value@) ==> r is Ok && r->Ok_0@ == value@,
            !is_command_id(value@) ==> r == Err::<Self, ValueError>(ValueError::InvalidCommandId),
    {
        if command_id_shaped(value.as_str()) {
            Ok(CommandId(value))
        } else {
            Err(ValueError::InvalidCommandId)
        }
    }
}

impl vstd::std_specs::convert::TryFromSpecImpl<String> for CommandId {
    open spec fn obeys_try_from_spec() -> bool {
        false
    }

    open spec fn try_from_spec(value: String) -> Result<Self, ValueError> {
        arbitrary()
    }
}

impl core::fmt::Debug for CommandId {
    fn fmt(&self, formatter: &mut core::fmt::Formatter<'_>) -> (r: Result<(), core::fmt::Error>)
        ensures
            r is Ok ==> display::wrote(*old(formatter), *final(formatter), "CommandId(<redacted>)"@),
    {
        formatter.write_str("CommandId(<redacted>)")
    }
}

/// What a canonical command asks for.
pub struct CommandView {
    pub command_id: Seq<char>,
    pub device_id: u128,
    pub artifact_id: Seq<char>,
    pub artifact_digest: Seq<char>,
    pub authorization_receipt_id: u128,
    pub deadline_epoch_seconds: u64,
    pub desired_generation: u64,
    pub fence_epoch: u64,
    pub intent_digest: Seq<char>,
    pub policy_hash: Seq<char>,
}

/// Canonical command values after exact decoding and device correlation.
#[derive(Debug, PartialEq, Eq)]
pub struct DeviceCommand {
    command_id: CommandId,
    device_id: Uuid,
    artifact_id: ArtifactId,
    artifact_digest: Sha256Digest,
    authorization_receipt_id: Uuid,
    deadline_epoch_seconds: NonZeroU64,
    desired_generation: Generation,
    fence_epoch: FenceEpoch,
    intent_digest: Sha256Digest,
    policy_hash: Sha256Digest,
}

impl View for DeviceCommand {
    type V = CommandView;

    closed spec fn view(&self) -> CommandView {
        CommandView {
            command_id: self.command_id@,
            device_id: self.device_id@,
            artifact_id: self.artifact_id@,
            artifact_digest: self.artifact_digest@,
            authorization_receipt_id: self.authorization_receipt_id@,
            deadline_epoch_seconds: self.deadline_epoch_seconds@,
            desired_generation: self.desired_generation@,
            fence_epoch: self.fence_epoch@,
            intent_digest: self.intent_digest@,
            policy_hash: self.policy_hash@,
        }
    }
}

impl DeviceCommand {
    #[must_use]
    pub fn new(
        command_id: CommandId,
        device_id: Uuid,
        artifact_id: ArtifactId,
        artifact_digest: Sha256Digest,
        authorization_receipt_id: Uuid,
        deadline_epoch_seconds: NonZeroU64,
        desired_generation: Generation,
        fence_epoch: FenceEpoch,
        intent_digest: Sha256Digest,
        policy_hash: Sha256Digest,
    ) -> (r: Self)
        ensures
            r@ == (CommandView {
                command_id: command_id@,
                device_id: device_id@,
                artifact_id: artifact_id@,
                artifact_digest: artifact_digest@,
                authorization_receipt_id: authorization_receipt_id@,
                deadline_epoch_seconds: deadline_epoch_seconds@,
                desired_generation: desired_generation@,
                fence_epoch: fence_epoch@,
                intent_digest: intent_digest@,
                policy_hash: policy_hash@,
            }),
    {
        DeviceCommand {
            command_id,
            device_id,
            artifact_id,
            artifact_digest,
            authorization_receipt_id,
            deadline_epoch_seconds,
            desired_generation,
            fence_epoch,
            intent_digest,
            policy_hash,
        }
    }

    #[must_use]
    pub fn command_id(&self) -> (r: &CommandId)
        ensures
            r@ == self@.command_id,
    {
        &self.command_id
    }

    #[must_use]
    pub fn device_id(&self) -> (r: Uuid)
        ensures
            r@ == self@.device_id,
    {
        self.device_id
    }

    #[must_use]
    pub fn artifact_id(&self) -> (r: &ArtifactId)
        ensures
            r@ == self@.artifact_id,
    {
        &self.artifact_id
    }

    #[must_use]
    pub fn artifact_digest(&self) -> (r: &Sha256Digest)
        ensures
            r@ == self@.artifact_digest,
    {
        &self.artifact_digest
    }

    #[must_use]
    pub fn authorization_receipt_id(&self) -> (r: Uuid)
        ensures
            r@ == self@.authorization_receipt_id,
    {
        self.authorization_receipt_id
    }

    #[must_use]
    pub fn deadline_epoch_seconds(&self) -> (r: NonZeroU64)
        ensures
            r@ == self@.deadline_epoch_seconds,
    {
        self.deadline_epoch_seconds
    }

    #[must_use]
    pub fn desired_generation(&self) -> (r: Generation)
        ensures
            r@ == self@.desired_generation,
    {
        self.desired_generation
    }

    #[must_use]
    pub fn fence_epoch(&self) -> (r: FenceEpoch)
        ensures
            r@ == self@.fence_epoch,
    {
        self.fence_epoch
    }

    #[must_use]
    pub fn intent_digest(&self) -> (r: &Sha256Digest)
        ensures
            r@ == self@.intent_digest,
    {
        &self.intent_digest
    }

    #[must_use]
    pub fn policy_hash(&self) -> (r: &Sha256Digest)
        ensures
            r@ == self@.policy_hash,
    {
        &self.policy_hash
    }
}

impl Clone for DeviceCommand {
    fn clone(&self) -> (r: Self)
        ensures
            r == *self,
    {
        DeviceCommand {
            command_id: self.command_id.clone(),
            device_id: self.device_id,
            artifact_id: self.artifact_id.clone(),
            artifact_digest: self.artifact_digest.clone(),
            authorization_receipt_id: self.authorization_receipt_id,
            deadline_epoch_seconds: self.deadline_epoch_seconds,
            desired_generation: self.desired_generation,
            fence_epoch: self.fence_epoch,
            intent_digest: self.intent_digest.clone(),
            policy_hash: self.policy_hash.clone(),
        }
    }
}

/// Closed device rejection space mapped one-to-one to the public ACK contract.
#[derive(Clone, Copy, Debug, PartialEq, Eq, Structural)]
pub enum CommandRejection {
    ArtifactUnavailable,
    ArtifactDigestMismatch,
    PolicyRejected,
    GenerationStale,
    FenceEpochStale,
    MalformedCommand,
    DeviceFailure,
}

/// Durable command application result. Broker settlement is a separate operation.
#[derive(Clone, Copy, Debug, PartialEq, Eq, Structural)]
pub enum ApplyOutcome {
    Accepted,
    Duplicate,
    Rejected(CommandRejection),
}

/// What an acknowledgement tells.
pub struct AckFactView {
    pub command_id: Seq<char>,
    pub desired_generation: u64,
    pub fence_epoch: u64,
    pub device_sequence: u64,
    pub observed_at: i64,
    pub rejection: Option<CommandRejection>,
}

/// ACK payload values for the canonical wire adapter.
#[derive(Debug, PartialEq, Eq)]
pub struct AckFact {
    pub command_id: String,
    pub desired_generation: u64,
    pub fence_epoch: u64,
    pub device_sequence: u64,
    pub observed_at: i64,
    pub rejection: Option<CommandRejection>,
}

impl View for AckFact {
    type V = AckFactView;

    open spec fn view(&self) -> AckFactView {
        AckFactView {
            command_id: self.command_id@,
            desired_generation: self.desired_generation,
            fence_epoch: self.fence_epoch,
            device_sequence: self.device_sequence,
            observed_at: self.observed_at,
            rejection: self.rejection,
        }
    }
}

impl Clone for AckFact {
    fn clone(&self) -> (r: Self)
        ensures
            r == *self,
    {
        AckFact {
            command_id: self.command_id.clone(),
            desired_generation: self.desired_generation,
            fence_epoch: self.fence_epoch,
            device_sequence: self.device_sequence,
            observed_at: self.observed_at,
            rejection: self.rejection,
        }
    }
}

/// What a credential report tells.
pub struct ReportFactView {
    pub observed_generation: u64,
    pub fence_epoch: u64,
    pub device_sequence: u64,
    pub observed_at: i64,
    pub state_hash: Seq<char>,
    pub artifact_digest: Seq<char>,
    pub expires_at: Option<i64>,
}

/// Report payload values for the canonical wire adapter.
#[derive(Debug, PartialEq, Eq)]
pub struct ReportFact {
    pub observed_generation: u64,
    pub fence_epoch: u64,
    pub device_sequence: u64,
    pub observed_at: i64,
    pub state_hash: String,
    pub artifact_digest: String,
    pub expires_at: Option<i64>,
}

impl View for ReportFact {
    type V = ReportFactView;

    open spec fn view(&self) -> ReportFactView {
        ReportFactView {
            observed_generation: self.observed_generation,
            fence_epoch: self.fence_epoch,
            device_sequence: self.device_sequence,
            observed_at: self.observed_at,
            state_hash: self.state_hash@,
            artifact_digest: self.artifact_digest@,
            expires_at: self.expires_at,
        }
    }
}

impl Clone for ReportFact {
    fn clone(&self) -> (r: Self)
        ensures
            r == *self,
    {
        ReportFact {
            observed_generation: self.observed_generation,
            fence_epoch: self.fence_epoch,
            device_sequence: self.device_sequence,
            observed_at: self.observed_at,
            state_hash: self.state_hash.clone(),
            artifact_digest: self.artifact_digest.clone(),
            expires_at: self.expires_at,
        }
    }
}

/// What an outbound fact tells, under its stable event identity.
#[allow(inconsistent_fields)]
pub enum OutboundFactView {
    CommandAcknowledged { event_id: Seq<char>, payload: AckFactView },
    CertificateReported { event_id: Seq<char>, payload: ReportFactView },
}

impl OutboundFactView {
    pub open spec fn event_id(self) -> Seq<char> {
        match self {
            OutboundFactView::CommandAcknowledged { event_id, .. } => event_id,
            OutboundFactView::CertificateReported { event_id, .. } => event_id,
        }
    }
}

/// A durable outbound fact. The stable event identity is MQTT correlation data, not payload.
#[allow(inconsistent_fields)]
#[derive(Debug, PartialEq, Eq)]
pub enum OutboundFact {
    CommandAcknowledged { event_id: String, payload: AckFact },
    CertificateReported { event_id: String, payload: ReportFact },
}

impl View for OutboundFact {
    type V = OutboundFactView;

    open spec fn view(&self) -> OutboundFactView {
        match self {
            OutboundFact::CommandAcknowledged { event_id, payload } =>
                OutboundFactView::CommandAcknowledged { event_id: event_id@, payload: payload@ },
            OutboundFact::CertificateReported { event_id, payload } =>
                OutboundFactView::CertificateReported { event_id: event_id@, payload: payload@ },
        }
    }
}

impl OutboundFact {
    #[must_use]
    pub fn event_id(&self) -> (r: &str)
        ensures
            r@ == self@.event_id(),
    {
        match self {
            OutboundFact::CommandAcknowledged { event_id, .. } => event_id.as_str(),
            OutboundFact::CertificateReported { event_id, .. } => event_id.as_str(),
        }
    }
}

impl Clone for OutboundFact {
    fn clone(&self) -> (r: Self)
        ensures
            r == *self,
    {
        match self {
            OutboundFact::CommandAcknowledged { event_id, payload } =>
                OutboundFact::CommandAcknowledged {
                    event_id: event_id.clone(),
                    payload: payload.clone(),
                },
            OutboundFact::CertificateReported { event_id, payload } =>
                OutboundFact::CertificateReported {
                    event_id: event_id.clone(),
                    payload: payload.clone(),
                },
        }
    }
}

/// Where the three parts of a credential lie.
pub struct CredentialFilesView {
    pub ca_certificate: PathBuf,
    pub certificate_chain: PathBuf,
    pub private_key: PathBuf,
}

/// Concrete certificate material required for every MQTT connection.
#[derive(Debug, PartialEq, Eq)]
pub struct CredentialFiles {
    ca_certificate: PathBuf,
    certificate_chain: PathBuf,
    private_key: PathBuf,
}

impl View for CredentialFiles {
    type V = CredentialFilesView;

    closed spec fn view(&self) -> CredentialFilesView {
        CredentialFilesView {
            ca_certificate: self.ca_certificate,
            certificate_chain: self.certificate_chain,
            private_key: self.private_key,
        }
    }
}

impl CredentialFiles {
    #[must_use]
    pub fn new(
        ca_certificate: PathBuf,
        certificate_chain: PathBuf,
        private_key: PathBuf,
    ) -> (r: Self)
        ensures
            r@ == (CredentialFilesView { ca_certificate, certificate_chain, private_key }),
    {
        CredentialFiles { ca_certificate, certificate_chain, private_key }
    }

    #[must_use]
    pub fn ca_certificate(&self) -> (r: &PathBuf)
        ensures
            *r == self@.ca_certificate,
    {
        &self.ca_certificate
    }

    #[must_use]
    pub fn certificate_chain(&self) -> (r: &PathBuf)
        ensures
            *r == self@.certificate_chain,
    {
        &self.certificate_chain
    }

    #[must_use]
    pub fn private_key(&self) -> (r: &PathBuf)
        ensures
            *r == self@.private_key,
    {
        &self.private_key
    }
}

/// The coordinates of one persistent MQTT session.
pub struct ConnectionView {
    pub host: Seq<char>,
    pub port: u16,
    pub client_id: Seq<char>,
    pub session_expiry_seconds: u32,
    pub request_capacity: usize,
}

impl ConnectionView {
    /// What is wrong with the coordinates, looked for in the order host, port, client identity.
    pub open spec fn error(self) -> Option<ValueError> {
        if text::is_blank(self.host) || text::has_control(self.host) {
            Some(ValueError::InvalidHost)
        } else if self.port == 0 {
            Some(ValueError::InvalidPort)
        } else if self.client_id.len() == 0 || text::has_control(self.client_id) {
            Some(ValueError::InvalidClientId)
        } else {
            None
        }
    }
}

/// Mandatory concrete MQTT v5 session configuration.
#[derive(Debug, PartialEq, Eq)]
pub struct MqttConnectionConfig {
    host: String,
    port: u16,
    client_id: String,
    session_expiry_seconds: NonZeroU32,
    request_capacity: NonZeroUsize,
}

impl View for MqttConnectionConfig {
    type V = ConnectionView;

    closed spec fn view(&self) -> ConnectionView {
        ConnectionView {
            host: self.host@,
            port: self.port,
            client_id: self.client_id@,
            session_expiry_seconds: self.session_expiry_seconds@,
            request_capacity: self.request_capacity@,
        }
    }
}

impl MqttConnectionConfig {
    #[verifier::type_invariant]
    spec fn inv(self) -> bool {
        self@.error() is None
    }

    /// Constructs the mandatory persistent-session MQTT coordinates.
    pub fn new(
        host: &str,
        port: u16,
        client_id: &str,
        session_expiry_seconds: NonZeroU32,
        request_capacity: NonZeroUsize,
    ) -> (r: Result<Self, ValueError>)
        ensures
            ({
                let asked = ConnectionView {
                    host: host@,
                    port,
                    client_id: client_id@,
                    session_expiry_seconds: session_expiry_seconds@,
                    request_capacity: request_capacity@,
                };
                match asked.error() {
                    Some(error) => r == Err::<Self, ValueError>(error),
                    None => r is Ok && r->Ok_0@ == asked,
                }
            }),
    {
        if text::blank(host) || text::contains_control(host) {
            return Err(ValueError::InvalidHost);
        }
        if port == 0 {
            return Err(ValueError::InvalidPort);
        }
        if client_id.is_empty() || text::contains_control(client_id) {
            return Err(ValueError::InvalidClientId);
        }
        Ok(
            MqttConnectionConfig {
                host: host.to_owned(),
                port,
                client_id: client_id.to_owned(),
                session_expiry_seconds,
                request_capacity,
            },
        )
    }

    #[must_use]
    pub fn host(&self) -> (r: &str)
        ensures
            r@ == self@.host,
    {
        self.host.as_str()
    }

    #[must_use]
    pub fn port(&self) -> (r: u16)
        ensures
            r == self@.port,
            r > 0,
    {
        proof {
            use_type_invariant(self);
        }
        self.port
    }

    #[must_use]
    pub fn client_id(&self) -> (r: &str)
        ensures
            r@ == self@.client_id,
    {
        self.client_id.as_str()
    }

    #[must_use]
    pub fn session_expiry_seconds(&self) -> (r: NonZeroU32)
        ensures
            r@ == self@.session_expiry_seconds,
    {
        self.session_expiry_seconds
    }

    #[must_use]
    pub fn request_capacity(&self) -> (r: NonZeroUsize)
        ensures
            r@ == self@.request_capacity,
    {
        self.request_capacity
    }
}

} // verus!
