//! Transport-neutral product model of a secure device credential rotation:
//! positions, policies and the distinct facts that one rotation produces.

use crate::display;
use crate::reference::{
    ArtifactDigest, AuthorizationReceiptRef, CommandRef, CorrelationId, DeviceRef, EventRef,
    IngressEnvelopeRef, PrincipalRef, RequestId, RotationId, RotationModelError, StateHash,
    TenantRef,
};
use crate::text;
use core::cmp::Ordering;
use vstd::prelude::*;
use vstd::std_specs::cmp::PartialOrdSpec;
use vstd::string::*;

verus! {

/// Positive generation observed at the public product boundary.
#[derive(Clone, Copy, Debug, PartialEq, Eq, Ord, Hash, Structural)]
pub struct Generation(u64);

impl View for Generation {
    type V = u64;

    closed spec fn view(&self) -> u64 {
        self.0
    }
}

impl PartialOrd for Generation {
    fn partial_cmp(&self, other: &Self) -> (r: Option<Ordering>) {
        if self.0 < other.0 {
            Some(Ordering::Less)
        } else if self.0 == other.0 {
            Some(Ordering::Equal)
        } else {
            Some(Ordering::Greater)
        }
    }
}

impl vstd::std_specs::cmp::PartialOrdSpecImpl for Generation {
    open spec fn obeys_partial_cmp_spec() -> bool {
        true
    }

    open spec fn partial_cmp_spec(&self, other: &Self) -> Option<Ordering> {
        if self@ < other@ {
            Some(Ordering::Less)
        } else if self@ == other@ {
            Some(Ordering::Equal)
        } else {
            Some(Ordering::Greater)
        }
    }
}

/// Generations compare as their values do.
pub proof fn law_generations_order_by_value(a: Generation, b: Generation)
    ensures
        a.partial_cmp_spec(&b) == Some(Ordering::Less) <==> a@ < b@,
        a.partial_cmp_spec(&b) == Some(Ordering::Equal) <==> a@ == b@,
        a.partial_cmp_spec(&b) == Some(Ordering::Greater) <==> a@ > b@,
{
}

impl Generation {
    #[verifier::type_invariant]
    spec fn inv(self) -> bool {
        self.0 > 0
    }

    /// Returns the positive generation value.
    #[must_use]
    pub fn get(self) -> (r: u64)
        ensures
            r == self@,
            r > 0,
    {
        proof {
            use_type_invariant(&self);
        }
        self.0
    }
}

impl TryFrom<u64> for Generation {
    type Error = RotationModelError;

    fn try_from(value: u64) -> (r: Result<Self, RotationModelError>)
        ensures
            value == 0 ==> r == Err::<Self, RotationModelError>(RotationModelError::ZeroGeneration),
            value > 0 ==> r is Ok && r->Ok_0@ == value,
    {
        if value == 0 {
            Err(RotationModelError::ZeroGeneration)
        } else {
            Ok(Generation(value))
        }
    }
}

impl vstd::std_specs::convert::TryFromSpecImpl<u64> for Generation {
    open spec fn obeys_try_from_spec() -> bool {
        false
    }

    open spec fn try_from_spec(value: u64) -> Result<Self, RotationModelError> {
        arbitrary()
    }
}

/// Positive device-local fence epoch; it does not grant server authority.
#[derive(Clone, Copy, Debug, PartialEq, Eq, Ord, Hash, Structural)]
pub struct FenceEpoch(u64);

impl View for FenceEpoch {
    type V = u64;

    closed spec fn view(&self) -> u64 {
        self.0
    }
}

impl PartialOrd for FenceEpoch {
    fn partial_cmp(&self, other: &Self) -> (r: Option<Ordering>) {
        if self.0 < other.0 {
            Some(Ordering::Less)
        } else if self.0 == other.0 {
            Some(Ordering::Equal)
        } else {
            Some(Ordering::Greater)
        }
    }
}

impl vstd::std_specs::cmp::PartialOrdSpecImpl for FenceEpoch {
    open spec fn obeys_partial_cmp_spec() -> bool {
        true
    }

    open spec fn partial_cmp_spec(&self, other: &Self) -> Option<Ordering> {
        if self@ < other@ {
            Some(Ordering::Less)
        } else if self@ == other@ {
            Some(Ordering::Equal)
        } else {
            Some(Ordering::Greater)
        }
    }
}

/// Fence epochs compare as their values do.
pub proof fn law_fence_epochs_order_by_value(a: FenceEpoch, b: FenceEpoch)
    ensures
        a.partial_cmp_spec(&b) == Some(Ordering::Less) <==> a@ < b@,
        a.partial_cmp_spec(&b) == Some(Ordering::Equal) <==> a@ == b@,
        a.partial_cmp_spec(&b) == Some(Ordering::Greater) <==> a@ > b@,
{
}

impl FenceEpoch {
    #[verifier::type_invariant]
    spec fn inv(self) -> bool {
        self.0 > 0
    }

    /// Returns the positive fence epoch value.
    #[must_use]
    pub fn get(self) -> (r: u64)
        ensures
            r == self@,
            r > 0,
    {
        proof {
            use_type_invariant(&self);
        }
        self.0
    }
}

impl TryFrom<u64> for FenceEpoch {
    type Error = RotationModelError;

    fn try_from(value: u64) -> (r: Result<Self, RotationModelError>)
        ensures
            value == 0 ==> r == Err::<Self, RotationModelError>(RotationModelError::ZeroFenceEpoch),
            value > 0 ==> r is Ok && r->Ok_0@ == value,
    {
        if value == 0 {
            Err(RotationModelError::ZeroFenceEpoch)
        } else {
            Ok(FenceEpoch(value))
        }
    }
}

impl vstd::std_specs::convert::TryFromSpecImpl<u64> for FenceEpoch {
    open spec fn obeys_try_from_spec() -> bool {
        false
    }

    open spec fn try_from_spec(value: u64) -> Result<Self, RotationModelError> {
        arbitrary()
    }
}

/// Positive device-local credential revision.
///
/// This is deliberately distinct from desired generation and MQTT credential generation.
#[derive(Clone, Copy, Debug, PartialEq, Eq, Ord, Hash, Structural)]
pub struct CredentialRevision(u64);

impl View for CredentialRevision {
    type V = u64;

    closed spec fn view(&self) -> u64 {
        self.0
    }
}

impl PartialOrd for CredentialRevision {
    fn partial_cmp(&self, other: &Self) -> (r: Option<Ordering>) {
        if self.0 < other.0 {
            Some(Ordering::Less)
        } else if self.0 == other.0 {
            Some(Ordering::Equal)
        } else {
            Some(Ordering::Greater)
        }
    }
}

impl vstd::std_specs::cmp::PartialOrdSpecImpl for CredentialRevision {
    open spec fn obeys_partial_cmp_spec() -> bool {
        true
    }

    open spec fn partial_cmp_spec(&self, other: &Self) -> Option<Ordering> {
        if self@ < other@ {
            Some(Ordering::Less)
        } else if self@ == other@ {
            Some(Ordering::Equal)
        } else {
            Some(Ordering::Greater)
        }
    }
}

/// Credential revisions compare as their values do.
pub proof fn law_credential_revisions_order_by_value(a: CredentialRevision, b: CredentialRevision)
    ensures
        a.partial_cmp_spec(&b) == Some(Ordering::Less) <==> a@ < b@,
        a.partial_cmp_spec(&b) == Some(Ordering::Equal) <==> a@ == b@,
        a.partial_cmp_spec(&b) == Some(Ordering::Greater) <==> a@ > b@,
{
}

impl CredentialRevision {
    #[verifier::type_invariant]
    spec fn inv(self) -> bool {
        self.0 > 0
    }

    /// Returns the positive local revision value.
    #[must_use]
    pub fn get(self) -> (r: u64)
        ensures
            r == self@,
            r > 0,
    {
        proof {
            use_type_invariant(&self);
        }
        self.0
    }
}

impl TryFrom<u64> for CredentialRevision {
    type Error = RotationModelError;

    fn try_from(value: u64) -> (r: Result<Self, RotationModelError>)
        ensures
            value == 0 ==> r == Err::<Self, RotationModelError>(RotationModelError::ZeroCredentialRevision),
            value > 0 ==> r is Ok && r->Ok_0@ == value,
    {
        if value == 0 {
            Err(RotationModelError::ZeroCredentialRevision)
        } else {
            Ok(CredentialRevision(value))
        }
    }
}

impl vstd::std_specs::convert::TryFromSpecImpl<u64> for CredentialRevision {
    open spec fn obeys_try_from_spec() -> bool {
        false
    }

    open spec fn try_from_spec(value: u64) -> Result<Self, RotationModelError> {
        arbitrary()
    }
}

/// Monotonic device sequence from an ACK or reported observation.
#[derive(Clone, Copy, Debug, PartialEq, Eq, Ord, Hash, Structural)]
pub struct DeviceSequence(u64);

impl View for DeviceSequence {
    type V = u64;

    closed spec fn view(&self) -> u64 {
        self.0
    }
}

impl PartialOrd for DeviceSequence {
    fn partial_cmp(&self, other: &Self) -> (r: Option<Ordering>) {
        if self.0 < other.0 {
            Some(Ordering::Less)
        } else if self.0 == other.0 {
            Some(Ordering::Equal)
        } else {
            Some(Ordering::Greater)
        }
    }
}

impl vstd::std_specs::cmp::PartialOrdSpecImpl for DeviceSequence {
    open spec fn obeys_partial_cmp_spec() -> bool {
        true
    }

    open spec fn partial_cmp_spec(&self, other: &Self) -> Option<Ordering> {
        if self@ < other@ {
            Some(Ordering::Less)
        } else if self@ == other@ {
            Some(Ordering::Equal)
        } else {
            Some(Ordering::Greater)
        }
    }
}

/// Device sequences compare as their values do.
pub proof fn law_device_sequences_order_by_value(a: DeviceSequence, b: DeviceSequence)
    ensures
        a.partial_cmp_spec(&b) == Some(Ordering::Less) <==> a@ < b@,
        a.partial_cmp_spec(&b) == Some(Ordering::Equal) <==> a@ == b@,
        a.partial_cmp_spec(&b) == Some(Ordering::Greater) <==> a@ > b@,
{
}

impl DeviceSequence {
    /// Creates a sequence value. Zero is valid at the public contract boundary.
    #[must_use]
    pub fn new(value: u64) -> (r: Self)
        ensures
            r@ == value,
    {
        DeviceSequence(value)
    }

    /// Returns the sequence value.
    #[must_use]
    pub fn get(self) -> (r: u64)
        ensures
            r == self@,
    {
        self.0
    }
}

/// Contract timestamp represented as signed Unix time without transport encoding.
#[derive(Clone, Copy, Debug, PartialEq, Eq, Ord, Hash, Structural)]
pub struct UnixTimestamp(i64);

impl View for UnixTimestamp {
    type V = i64;

    closed spec fn view(&self) -> i64 {
        self.0
    }
}

impl PartialOrd for UnixTimestamp {
    fn partial_cmp(&self, other: &Self) -> (r: Option<Ordering>) {
        if self.0 < other.0 {
            Some(Ordering::Less)
        } else if self.0 == other.0 {
            Some(Ordering::Equal)
        } else {
            Some(Ordering::Greater)
        }
    }
}

impl vstd::std_specs::cmp::PartialOrdSpecImpl for UnixTimestamp {
    open spec fn obeys_partial_cmp_spec() -> bool {
        true
    }

    open spec fn partial_cmp_spec(&self, other: &Self) -> Option<Ordering> {
        if self@ < other@ {
            Some(Ordering::Less)
        } else if self@ == other@ {
            Some(Ordering::Equal)
        } else {
            Some(Ordering::Greater)
        }
    }
}

/// Timestamps compare as their signed values do, before the epoch as well as after it.
pub proof fn law_timestamps_order_by_signed_value(a: UnixTimestamp, b: UnixTimestamp)
    ensures
        a.partial_cmp_spec(&b) == Some(Ordering::Less) <==> a@ < b@,
        a.partial_cmp_spec(&b) == Some(Ordering::Equal) <==> a@ == b@,
        a.partial_cmp_spec(&b) == Some(Ordering::Greater) <==> a@ > b@,
{
}

impl UnixTimestamp {
    /// Creates a timestamp value.
    #[must_use]
    pub fn new(value: i64) -> (r: Self)
        ensures
            r@ == value,
    {
        UnixTimestamp(value)
    }

    /// Returns the signed Unix timestamp.
    #[must_use]
    pub fn get(self) -> (r: i64)
        ensures
            r == self@,
    {
        self.0
    }
}

/// An optional time as its optional signed value.
pub open spec fn optional_time(time: Option<UnixTimestamp>) -> Option<i64> {
    match time {
        Some(time) => Some(time@),
        None => None,
    }
}

/// What [`InstalledCredentialPosition`] carries.
pub struct PositionView {
    pub desired_generation: u64,
    pub fence_epoch: u64,
    pub credential_revision: u64,
}

/// The three monotonic coordinates committed with an installed credential.
#[derive(Clone, Copy, Debug, PartialEq, Eq, Structural)]
pub struct InstalledCredentialPosition {
    desired_generation: Generation,
    fence_epoch: FenceEpoch,
    credential_revision: CredentialRevision,
}

impl View for InstalledCredentialPosition {
    type V = PositionView;

    closed spec fn view(&self) -> PositionView {
        PositionView {
            desired_generation: self.desired_generation@,
            fence_epoch: self.fence_epoch@,
            credential_revision: self.credential_revision@,
        }
    }
}

impl InstalledCredentialPosition {
    /// Creates a committed device-local credential position.
    #[must_use]
    pub fn new(
        desired_generation: Generation,
        fence_epoch: FenceEpoch,
        credential_revision: CredentialRevision,
    ) -> (r: Self)
        ensures
            r@ == (PositionView {
                desired_generation: desired_generation@,
                fence_epoch: fence_epoch@,
                credential_revision: credential_revision@,
            }),
    {
        InstalledCredentialPosition { desired_generation, fence_epoch, credential_revision }
    }

    /// Returns the authoritative desired generation observed by this device.
    #[must_use]
    pub fn desired_generation(self) -> (r: Generation)
        ensures
            r@ == self@.desired_generation,
    {
        self.desired_generation
    }

    /// Returns the committed fence epoch.
    #[must_use]
    pub fn fence_epoch(self) -> (r: FenceEpoch)
        ensures
            r@ == self@.fence_epoch,
    {
        self.fence_epoch
    }

    /// Returns the independent local credential revision.
    #[must_use]
    pub fn credential_revision(self) -> (r: CredentialRevision)
        ensures
            r@ == self@.credential_revision,
    {
        self.credential_revision
    }
}

/// Closed certificate key usage vocabulary accepted by the rotation product.
#[derive(Clone, Copy, Debug, PartialEq, Eq, Ord, Hash, Structural)]
pub enum KeyUsage {
    ClientAuth,
    ServerAuth,
}

impl PartialOrd for KeyUsage {
    fn partial_cmp(&self, other: &Self) -> (r: Option<Ordering>) {
        match (self, other) {
            (KeyUsage::ClientAuth, KeyUsage::ServerAuth) => Some(Ordering::Less),
            (KeyUsage::ServerAuth, KeyUsage::ClientAuth) => Some(Ordering::Greater),
            _ => Some(Ordering::Equal),
        }
    }
}

/// Client authentication comes before server authentication.
impl vstd::std_specs::cmp::PartialOrdSpecImpl for KeyUsage {
    open spec fn obeys_partial_cmp_spec() -> bool {
        true
    }

    open spec fn partial_cmp_spec(&self, other: &Self) -> Option<Ordering> {
        if *self == *other {
            Some(Ordering::Equal)
        } else if *self == KeyUsage::ClientAuth {
            Some(Ordering::Less)
        } else {
            Some(Ordering::Greater)
        }
    }
}

impl KeyUsage {
    /// The name of the usage on the wire.
    pub open spec fn name(self) -> Seq<char> {
        match self {
            KeyUsage::ClientAuth => "clientAuth"@,
            KeyUsage::ServerAuth => "serverAuth"@,
        }
    }

    #[must_use]
    pub fn as_str(self) -> (r: &'static str)
        ensures
            r@ == self.name(),
    {
        match self {
            KeyUsage::ClientAuth => "clientAuth",
            KeyUsage::ServerAuth => "serverAuth",
        }
    }
}

/// What a rotation policy asks for.
pub struct PolicyView {
    pub key_usages: Seq<KeyUsage>,
    pub renew_before_seconds: u64,
    pub sans: Seq<Seq<char>>,
    pub validity_seconds: u64,
}

impl PolicyView {
    /// A subject alternative name of acceptable shape.
    pub open spec fn san_ok(san: Seq<char>) -> bool {
        0 < san.len() <= 253 && !text::has_control(san)
    }

    /// The closed product constraints.
    pub open spec fn valid(self) -> bool {
        &&& self.key_usages.len() > 0
        &&& self.key_usages.no_duplicates()
        &&& 300 <= self.validity_seconds <= 31_536_000
        &&& 60 <= self.renew_before_seconds < self.validity_seconds
        &&& self.sans.len() <= 32
        &&& self.sans.no_duplicates()
        &&& forall|i: int| 0 <= i < self.sans.len() ==> Self::san_ok(#[trigger] self.sans[i])
    }
}

/// Validated, transport-neutral certificate rotation policy.
#[derive(PartialEq, Eq)]
pub struct RotationPolicy {
    key_usages: Vec<KeyUsage>,
    renew_before_seconds: u64,
    sans: Vec<String>,
    validity_seconds: u64,
}

impl View for RotationPolicy {
    type V = PolicyView;

    closed spec fn view(&self) -> PolicyView {
        PolicyView {
            key_usages: self.key_usages@,
            renew_before_seconds: self.renew_before_seconds,
            sans: text::texts(self.sans@),
            validity_seconds: self.validity_seconds,
        }
    }
}

fn distinct_usages(usages: &Vec<KeyUsage>) -> (r: bool)
    ensures
        r == usages@.no_duplicates(),
{
    let mut i: usize = 0;
    while i < usages.len()
        invariant
            i <= usages@.len(),
            forall|a: int, b: int| 0 <= a < b < i ==> usages@[a] != usages@[b],
        decreases usages@.len() - i,
    {
        let mut j: usize = 0;
        while j < i
            invariant
                j <= i < usages@.len(),
                forall|a: int| 0 <= a < j ==> usages@[a] != usages@[i as int],
            decreases i - j,
        {
            if usages[j] == usages[i] {
                return false;
            }
            j = j + 1;
        }
        i = i + 1;
    }
    true
}

fn distinct_texts(strings: &Vec<String>) -> (r: bool)
    ensures
        r == text::texts(strings@).no_duplicates(),
{
    let ghost all = text::texts(strings@);
    let mut i: usize = 0;
    while i < strings.len()
        invariant
            all == text::texts(strings@),
            i <= strings@.len(),
            forall|a: int, b: int| 0 <= a < b < i ==> all[a] != all[b],
        decreases strings@.len() - i,
    {
        let mut j: usize = 0;
        while j < i
            invariant
                all == text::texts(strings@),
                j <= i < strings@.len(),
                forall|a: int| 0 <= a < j ==> all[a] != all[i as int],
            decreases i - j,
        {
            assert(all[i as int] == strings@[i as int]@ && all[j as int] == strings@[j as int]@);
            if strings[j] == strings[i] {
                return false;
            }
            j = j + 1;
        }
        i = i + 1;
    }
    true
}

fn sans_ok(sans: &Vec<String>) -> (r: bool)
    ensures
        r == (forall|i: int|
            0 <= i < sans@.len() ==> PolicyView::san_ok(#[trigger] text::texts(sans@)[i])),
{
    let mut i: usize = 0;
    while i < sans.len()
        invariant
            i <= sans@.len(),
            forall|j: int| 0 <= j < i ==> PolicyView::san_ok(#[trigger] text::texts(sans@)[j]),
        decreases sans@.len() - i,
    {
        let san = sans[i].as_str();
        assert(text::texts(sans@)[i as int] == san@);
        if san.is_empty() || san.unicode_len() > 253 || text::contains_control(san) {
            assert(!PolicyView::san_ok(text::texts(sans@)[i as int]));
            return false;
        }
        i = i + 1;
    }
    true
}

impl RotationPolicy {
    #[verifier::type_invariant]
    spec fn inv(self) -> bool {
        self@.valid()
    }

    /// Creates a policy exactly when it obeys the closed product constraints.
    pub fn try_new(
        key_usages: Vec<KeyUsage>,
        renew_before_seconds: u64,
        sans: Vec<String>,
        validity_seconds: u64,
    ) -> (r: Result<Self, RotationModelError>)
        ensures
            ({
                let asked = PolicyView {
                    key_usages: key_usages@,
                    renew_before_seconds,
                    sans: text::texts(sans@),
                    validity_seconds,
                };
                if asked.valid() {
                    r is Ok && r->Ok_0@ == asked
                } else {
                    r == Err::<Self, RotationModelError>(RotationModelError::InvalidPolicy)
                }
            }),
    {
        if key_usages.len() == 0 || !distinct_usages(&key_usages) || validity_seconds < 300
            || validity_seconds > 31_536_000 || renew_before_seconds < 60 || renew_before_seconds
            >= validity_seconds || sans.len() > 32 || !distinct_texts(&sans) || !sans_ok(&sans) {
            return Err(RotationModelError::InvalidPolicy);
        }
        Ok(RotationPolicy { key_usages, renew_before_seconds, sans, validity_seconds })
    }

    #[must_use]
    pub fn key_usages(&self) -> (r: &[KeyUsage])
        ensures
            r@ == self@.key_usages,
            self@.valid(),
    {
        proof {
            use_type_invariant(self);
        }
        self.key_usages.as_slice()
    }

    #[must_use]
    pub fn renew_before_seconds(&self) -> (r: u64)
        ensures
            r == self@.renew_before_seconds,
            self@.valid(),
    {
        proof {
            use_type_invariant(self);
        }
        self.renew_before_seconds
    }

    #[must_use]
    pub fn sans(&self) -> (r: &[String])
        ensures
            text::texts(r@) == self@.sans,
            self@.valid(),
    {
        proof {
            use_type_invariant(self);
        }
        self.sans.as_slice()
    }

    #[must_use]
    pub fn validity_seconds(&self) -> (r: u64)
        ensures
            r == self@.validity_seconds,
            self@.valid(),
    {
        proof {
            use_type_invariant(self);
        }
        self.validity_seconds
    }
}

impl Clone for RotationPolicy {
    fn clone(&self) -> (r: Self)
        ensures
            r@ == self@,
    {
        proof {
            use_type_invariant(self);
        }
        let key_usages = self.key_usages.clone();
        let sans = self.sans.clone();
        assert(key_usages@ =~= self.key_usages@);
        assert(sans@ =~= self.sans@);
        RotationPolicy {
            key_usages,
            renew_before_seconds: self.renew_before_seconds,
            sans,
            validity_seconds: self.validity_seconds,
        }
    }
}

/// The usages as they are listed when a policy is rendered.
pub open spec fn usage_list(usages: Seq<KeyUsage>) -> Seq<char>
    decreases usages.len(),
{
    if usages.len() == 0 {
        ""@
    } else {
        let last = match usages.last() {
            KeyUsage::ClientAuth => "ClientAuth"@,
            KeyUsage::ServerAuth => "ServerAuth"@,
        };
        if usages.len() == 1 {
            last
        } else {
            usage_list(usages.drop_last()) + ", "@ + last
        }
    }
}

/// How a policy is rendered: every field in clear but the names, of which only the number shows.
pub open spec fn policy_text(policy: PolicyView) -> Seq<char> {
    "RotationPolicy { key_usages: ["@ + usage_list(policy.key_usages)
        + "], renew_before_seconds: "@ + text::decimal(policy.renew_before_seconds as nat)
        + ", sans: [REDACTED; "@ + text::decimal(policy.sans.len()) + "], validity_seconds: "@
        + text::decimal(policy.validity_seconds as nat) + " }"@
}

fn usage_text(usages: &[KeyUsage], n: usize) -> (r: String)
    requires
        n <= usages@.len(),
    ensures
        r@ == usage_list(usages@.take(n as int)),
    decreases n,
{
    if n == 0 {
        return String::from_str("");
    }
    let last = match usages[n - 1] {
        KeyUsage::ClientAuth => "ClientAuth",
        KeyUsage::ServerAuth => "ServerAuth",
    };
    assert(usages@.take(n as int).drop_last() =~= usages@.take(n - 1));
    if n == 1 {
        String::from_str(last)
    } else {
        usage_text(usages, n - 1).concat(", ").concat(last)
    }
}

impl core::fmt::Debug for RotationPolicy {
    fn fmt(&self, formatter: &mut core::fmt::Formatter<'_>) -> (r: Result<(), core::fmt::Error>)
        ensures
            r is Ok ==> display::wrote(*old(formatter), *final(formatter), policy_text(self@)),
    {
        proof {
            use_type_invariant(self);
        }
        assert(self.key_usages@.take(self.key_usages@.len() as int) =~= self.key_usages@);
        let usages = usage_text(self.key_usages.as_slice(), self.key_usages.len());
        let rendered = String::from_str("RotationPolicy { key_usages: [").concat(
            usages.as_str(),
        ).concat("], renew_before_seconds: ").concat(
            text::decimal_text(self.renew_before_seconds).as_str(),
        ).concat(", sans: [REDACTED; ").concat(
            text::decimal_text(self.sans.len() as u64).as_str(),
        ).concat("], validity_seconds: ").concat(
            text::decimal_text(self.validity_seconds).as_str(),
        ).concat(" }");
        formatter.write_str(rendered.as_str())
    }
}

/// What [`OperationCorrelation`] carries.
pub struct CorrelationView {
    pub request_id: Seq<char>,
    pub correlation_id: Seq<char>,
}

/// Correlation emitted for one control operation; it does not grant authority.
#[derive(Debug, PartialEq, Eq)]
pub struct OperationCorrelation {
    request_id: RequestId,
    correlation_id: CorrelationId,
}

impl View for OperationCorrelation {
    type V = CorrelationView;

    closed spec fn view(&self) -> CorrelationView {
        CorrelationView {
            request_id: self.request_id@,
            correlation_id: self.correlation_id@,
        }
    }
}

impl OperationCorrelation {
    /// Pairs the request and correlation identities of one operation.
    #[must_use]
    pub fn new(
        request_id: RequestId,
        correlation_id: CorrelationId,
    ) -> (r: Self)
        ensures
            r@ == (CorrelationView {
                request_id: request_id@,
                correlation_id: correlation_id@,
            }),
    {
        OperationCorrelation { request_id, correlation_id }
    }

    /// Returns the request identity.
    #[must_use]
    pub fn request_id(&self) -> (r: &RequestId)
        ensures
            r@ == self@.request_id,
    {
        &self.request_id
    }

    /// Returns the correlation identity.
    #[must_use]
    pub fn correlation_id(&self) -> (r: &CorrelationId)
        ensures
            r@ == self@.correlation_id,
    {
        &self.correlation_id
    }
}

impl Clone for OperationCorrelation {
    fn clone(&self) -> (r: Self)
        ensures
            r == *self,
    {
        OperationCorrelation {
            request_id: self.request_id.clone(),
            correlation_id: self.correlation_id.clone(),
        }
    }
}

/// What [`RotationCoordinates`] carries.
pub struct CoordinatesView {
    pub rotation_id: Seq<char>,
    pub tenant: Seq<char>,
    pub device: Seq<char>,
}

/// Stable product coordinates shared by correlated rotation observations.
#[derive(Debug, PartialEq, Eq)]
pub struct RotationCoordinates {
    rotation_id: RotationId,
    tenant: TenantRef,
    device: DeviceRef,
}

impl View for RotationCoordinates {
    type V = CoordinatesView;

    closed spec fn view(&self) -> CoordinatesView {
        CoordinatesView {
            rotation_id: self.rotation_id@,
            tenant: self.tenant@,
            device: self.device@,
        }
    }
}

impl RotationCoordinates {
    /// Creates product coordinates without asserting identity or authorization.
    #[must_use]
    pub fn new(
        rotation_id: RotationId,
        tenant: TenantRef,
        device: DeviceRef,
    ) -> (r: Self)
        ensures
            r@ == (CoordinatesView {
                rotation_id: rotation_id@,
                tenant: tenant@,
                device: device@,
            }),
    {
        RotationCoordinates { rotation_id, tenant, device }
    }

    /// Returns the product-owned rotation correlation ID.
    #[must_use]
    pub fn rotation_id(&self) -> (r: &RotationId)
        ensures
            r@ == self@.rotation_id,
    {
        &self.rotation_id
    }

    /// Returns the unverified tenant reference.
    #[must_use]
    pub fn tenant(&self) -> (r: &TenantRef)
        ensures
            r@ == self@.tenant,
    {
        &self.tenant
    }

    /// Returns the unverified device reference.
    #[must_use]
    pub fn device(&self) -> (r: &DeviceRef)
        ensures
            r@ == self@.device,
    {
        &self.device
    }
}

impl Clone for RotationCoordinates {
    fn clone(&self) -> (r: Self)
        ensures
            r == *self,
    {
        RotationCoordinates {
            rotation_id: self.rotation_id.clone(),
            tenant: self.tenant.clone(),
            device: self.device.clone(),
        }
    }
}

/// What [`RotationIntent`] carries.
pub struct IntentView {
    pub coordinates: CoordinatesView,
    pub requested_by: Seq<char>,
}

/// Product request intent before any authoritative acceptance is observed.
#[derive(Debug, PartialEq, Eq)]
pub struct RotationIntent {
    coordinates: RotationCoordinates,
    requested_by: PrincipalRef,
}

impl View for RotationIntent {
    type V = IntentView;

    closed spec fn view(&self) -> IntentView {
        IntentView {
            coordinates: self.coordinates@,
            requested_by: self.requested_by@,
        }
    }
}

impl RotationIntent {
    /// Creates an intent without performing authentication or authorization.
    #[must_use]
    pub fn new(
        coordinates: RotationCoordinates,
        requested_by: PrincipalRef,
    ) -> (r: Self)
        ensures
            r@ == (IntentView {
                coordinates: coordinates@,
                requested_by: requested_by@,
            }),
    {
        RotationIntent { coordinates, requested_by }
    }

    /// Returns the rotation coordinates.
    #[must_use]
    pub fn coordinates(&self) -> (r: &RotationCoordinates)
        ensures
            r@ == self@.coordinates,
    {
        &self.coordinates
    }

    /// Returns the unverified requester reference.
    #[must_use]
    pub fn requested_by(&self) -> (r: &PrincipalRef)
        ensures
            r@ == self@.requested_by,
    {
        &self.requested_by
    }
}

impl Clone for RotationIntent {
    fn clone(&self) -> (r: Self)
        ensures
            r == *self,
    {
        RotationIntent {
            coordinates: self.coordinates.clone(),
            requested_by: self.requested_by.clone(),
        }
    }
}

/// Closed condition returned when desired policy is accepted.
#[derive(Clone, Copy, Debug, PartialEq, Eq, Structural)]
pub enum AcceptanceCondition {
    /// Upstream reconciliation is in progress.
    Reconciling,
    /// Upstream is waiting for the device.
    PendingDevice,
}

/// What [`RotationAccepted`] carries.
pub struct AcceptedView {
    pub coordinates: CoordinatesView,
    pub authorization_receipt: Seq<char>,
    pub accepted_generation: u64,
    pub condition: AcceptanceCondition,
}

/// Product projection of the public policy acceptance response.
#[derive(Debug, PartialEq, Eq)]
pub struct RotationAccepted {
    coordinates: RotationCoordinates,
    authorization_receipt: AuthorizationReceiptRef,
    accepted_generation: Generation,
    condition: AcceptanceCondition,
}

impl View for RotationAccepted {
    type V = AcceptedView;

    closed spec fn view(&self) -> AcceptedView {
        AcceptedView {
            coordinates: self.coordinates@,
            authorization_receipt: self.authorization_receipt@,
            accepted_generation: self.accepted_generation@,
            condition: self.condition,
        }
    }
}

impl RotationAccepted {
    /// Creates a shape-validated projection without establishing authenticated provenance.
    #[must_use]
    pub fn new(
        coordinates: RotationCoordinates,
        authorization_receipt: AuthorizationReceiptRef,
        accepted_generation: Generation,
        condition: AcceptanceCondition,
    ) -> (r: Self)
        ensures
            r@ == (AcceptedView {
                coordinates: coordinates@,
                authorization_receipt: authorization_receipt@,
                accepted_generation: accepted_generation@,
                condition: condition,
            }),
    {
        RotationAccepted { coordinates, authorization_receipt, accepted_generation, condition }
    }

    /// Returns the rotation coordinates.
    #[must_use]
    pub fn coordinates(&self) -> (r: &RotationCoordinates)
        ensures
            r@ == self@.coordinates,
    {
        &self.coordinates
    }

    /// Returns correlation to the durable authorization decision.
    #[must_use]
    pub fn authorization_receipt(&self) -> (r: &AuthorizationReceiptRef)
        ensures
            r@ == self@.authorization_receipt,
    {
        &self.authorization_receipt
    }

    /// Returns the accepted desired generation.
    #[must_use]
    pub fn accepted_generation(&self) -> (r: Generation)
        ensures
            r@ == self@.accepted_generation,
    {
        self.accepted_generation
    }

    /// Returns the upstream acceptance condition.
    #[must_use]
    pub fn condition(&self) -> (r: AcceptanceCondition)
        ensures
            r == self@.condition,
    {
        self.condition
    }
}

impl Clone for RotationAccepted {
    fn clone(&self) -> (r: Self)
        ensures
            r == *self,
    {
        RotationAccepted {
            coordinates: self.coordinates.clone(),
            authorization_receipt: self.authorization_receipt.clone(),
            accepted_generation: self.accepted_generation,
            condition: self.condition,
        }
    }
}

/// Rejection reasons preserved from the public command acknowledgement contract.
#[derive(Clone, Copy, Debug, PartialEq, Eq, Structural)]
pub enum CommandRejectionReason {
    /// The referenced artifact was unavailable.
    ArtifactUnavailable,
    /// The artifact digest did not match.
    ArtifactDigestMismatch,
    /// Device policy rejected the command.
    PolicyRejected,
    /// The desired generation was stale.
    GenerationStale,
    /// The fence epoch was stale.
    FenceEpochStale,
    /// The command was malformed.
    MalformedCommand,
    /// The device failed while handling the command.
    DeviceFailure,
}

/// Closed result of a device command acknowledgement.
#[derive(Clone, Copy, Debug, PartialEq, Eq, Structural)]
pub enum CommandAcknowledgementOutcome {
    /// The device received the command.
    Received,
    /// The device rejected the command for the attached reason.
    Rejected(CommandRejectionReason),
}

/// What [`CommandAckPosition`] carries.
pub struct AckPositionView {
    pub desired_generation: u64,
    pub fence_epoch: u64,
    pub device_sequence: u64,
    pub observed_at: i64,
}

/// Position fields carried by the command acknowledgement contract.
#[derive(Clone, Copy, Debug, PartialEq, Eq, Structural)]
pub struct CommandAckPosition {
    desired_generation: Generation,
    fence_epoch: FenceEpoch,
    device_sequence: DeviceSequence,
    observed_at: UnixTimestamp,
}

impl View for CommandAckPosition {
    type V = AckPositionView;

    closed spec fn view(&self) -> AckPositionView {
        AckPositionView {
            desired_generation: self.desired_generation@,
            fence_epoch: self.fence_epoch@,
            device_sequence: self.device_sequence@,
            observed_at: self.observed_at@,
        }
    }
}

impl CommandAckPosition {
    /// Creates the preserved ACK position without advancing authoritative state.
    #[must_use]
    pub fn new(
        desired_generation: Generation,
        fence_epoch: FenceEpoch,
        device_sequence: DeviceSequence,
        observed_at: UnixTimestamp,
    ) -> (r: Self)
        ensures
            r@ == (AckPositionView {
                desired_generation: desired_generation@,
                fence_epoch: fence_epoch@,
                device_sequence: device_sequence@,
                observed_at: observed_at@,
            }),
    {
        CommandAckPosition { desired_generation, fence_epoch, device_sequence, observed_at }
    }
}

/// What [`CommandAcknowledgement`] carries.
pub struct AcknowledgementView {
    pub coordinates: CoordinatesView,
    pub event: Seq<char>,
    pub command: Seq<char>,
    pub position: AckPositionView,
    pub outcome: CommandAcknowledgementOutcome,
}

/// A command acknowledgement is not interchangeable with a report or receipt.
#[derive(Debug, PartialEq, Eq)]
pub struct CommandAcknowledgement {
    coordinates: RotationCoordinates,
    event: EventRef,
    command: CommandRef,
    position: CommandAckPosition,
    outcome: CommandAcknowledgementOutcome,
}

impl View for CommandAcknowledgement {
    type V = AcknowledgementView;

    closed spec fn view(&self) -> AcknowledgementView {
        AcknowledgementView {
            coordinates: self.coordinates@,
            event: self.event@,
            command: self.command@,
            position: self.position@,
            outcome: self.outcome,
        }
    }
}

impl CommandAcknowledgement {
    /// Creates an ACK projection without deriving readiness or trusted provenance.
    #[must_use]
    pub fn new(
        coordinates: RotationCoordinates,
        event: EventRef,
        command: CommandRef,
        position: CommandAckPosition,
        outcome: CommandAcknowledgementOutcome,
    ) -> (r: Self)
        ensures
            r@ == (AcknowledgementView {
                coordinates: coordinates@,
                event: event@,
                command: command@,
                position: position@,
                outcome: outcome,
            }),
    {
        CommandAcknowledgement { coordinates, event, command, position, outcome }
    }

    /// Returns the independent ACK event-envelope identity.
    #[must_use]
    pub fn event(&self) -> (r: &EventRef)
        ensures
            r@ == self@.event,
    {
        &self.event
    }

    /// Returns the rotation coordinates.
    #[must_use]
    pub fn coordinates(&self) -> (r: &RotationCoordinates)
        ensures
            r@ == self@.coordinates,
    {
        &self.coordinates
    }

    /// Returns the opaque command reference.
    #[must_use]
    pub fn command(&self) -> (r: &CommandRef)
        ensures
            r@ == self@.command,
    {
        &self.command
    }

    /// Returns the desired generation carried by the ACK.
    #[must_use]
    pub fn desired_generation(&self) -> (r: Generation)
        ensures
            r@ == self@.position.desired_generation,
    {
        self.position.desired_generation
    }

    /// Returns the fence epoch carried by the ACK.
    #[must_use]
    pub fn fence_epoch(&self) -> (r: FenceEpoch)
        ensures
            r@ == self@.position.fence_epoch,
    {
        self.position.fence_epoch
    }

    /// Returns the device sequence carried by the ACK.
    #[must_use]
    pub fn device_sequence(&self) -> (r: DeviceSequence)
        ensures
            r@ == self@.position.device_sequence,
    {
        self.position.device_sequence
    }

    /// Returns the closed ACK outcome.
    #[must_use]
    pub fn outcome(&self) -> (r: CommandAcknowledgementOutcome)
        ensures
            r == self@.outcome,
    {
        self.outcome
    }

    /// Returns the ACK observation time.
    #[must_use]
    pub fn observed_at(&self) -> (r: UnixTimestamp)
        ensures
            r@ == self@.position.observed_at,
    {
        self.position.observed_at
    }
}

impl Clone for CommandAcknowledgement {
    fn clone(&self) -> (r: Self)
        ensures
            r == *self,
    {
        CommandAcknowledgement {
            coordinates: self.coordinates.clone(),
            event: self.event.clone(),
            command: self.command.clone(),
            position: self.position,
            outcome: self.outcome,
        }
    }
}

/// What [`ReportPosition`] carries.
pub struct ReportPositionView {
    pub observed_generation: u64,
    pub fence_epoch: u64,
    pub device_sequence: u64,
    pub observed_at: i64,
}

/// Position fields carried by the reported-state contract.
#[derive(Clone, Copy, Debug, PartialEq, Eq, Structural)]
pub struct ReportPosition {
    observed_generation: Generation,
    fence_epoch: FenceEpoch,
    device_sequence: DeviceSequence,
    observed_at: UnixTimestamp,
}

impl View for ReportPosition {
    type V = ReportPositionView;

    closed spec fn view(&self) -> ReportPositionView {
        ReportPositionView {
            observed_generation: self.observed_generation@,
            fence_epoch: self.fence_epoch@,
            device_sequence: self.device_sequence@,
            observed_at: self.observed_at@,
        }
    }
}

impl ReportPosition {
    /// Creates a reported position without advancing authoritative state.
    #[must_use]
    pub fn new(
        observed_generation: Generation,
        fence_epoch: FenceEpoch,
        device_sequence: DeviceSequence,
        observed_at: UnixTimestamp,
    ) -> (r: Self)
        ensures
            r@ == (ReportPositionView {
                observed_generation: observed_generation@,
                fence_epoch: fence_epoch@,
                device_sequence: device_sequence@,
                observed_at: observed_at@,
            }),
    {
        ReportPosition { observed_generation, fence_epoch, device_sequence, observed_at }
    }
}

/// What [`CredentialReport`] carries.
pub struct ReportView {
    pub coordinates: CoordinatesView,
    pub event: Seq<char>,
    pub position: ReportPositionView,
    pub state_hash: Seq<char>,
    pub artifact_digest: Seq<char>,
    pub expires_at: Option<i64>,
}

/// Product projection of a device credential report.
#[derive(Debug, PartialEq, Eq)]
pub struct CredentialReport {
    coordinates: RotationCoordinates,
    event: EventRef,
    position: ReportPosition,
    state_hash: StateHash,
    artifact_digest: ArtifactDigest,
    expires_at: Option<UnixTimestamp>,
}

impl View for CredentialReport {
    type V = ReportView;

    closed spec fn view(&self) -> ReportView {
        ReportView {
            coordinates: self.coordinates@,
            event: self.event@,
            position: self.position@,
            state_hash: self.state_hash@,
            artifact_digest: self.artifact_digest@,
            expires_at: optional_time(self.expires_at),
        }
    }
}

impl CredentialReport {
    /// Creates a report projection without advancing authoritative state.
    #[must_use]
    pub fn new(
        coordinates: RotationCoordinates,
        event: EventRef,
        position: ReportPosition,
        state_hash: StateHash,
        artifact_digest: ArtifactDigest,
        expires_at: Option<UnixTimestamp>,
    ) -> (r: Self)
        ensures
            r@ == (ReportView {
                coordinates: coordinates@,
                event: event@,
                position: position@,
                state_hash: state_hash@,
                artifact_digest: artifact_digest@,
                expires_at: optional_time(expires_at),
            }),
    {
        CredentialReport { coordinates, event, position, state_hash, artifact_digest, expires_at }
    }

    /// Returns the independent report event-envelope identity.
    #[must_use]
    pub fn event(&self) -> (r: &EventRef)
        ensures
            r@ == self@.event,
    {
        &self.event
    }

    /// Returns the rotation coordinates.
    #[must_use]
    pub fn coordinates(&self) -> (r: &RotationCoordinates)
        ensures
            r@ == self@.coordinates,
    {
        &self.coordinates
    }

    /// Returns the observed generation.
    #[must_use]
    pub fn observed_generation(&self) -> (r: Generation)
        ensures
            r@ == self@.position.observed_generation,
    {
        self.position.observed_generation
    }

    /// Returns the observed fence epoch.
    #[must_use]
    pub fn fence_epoch(&self) -> (r: FenceEpoch)
        ensures
            r@ == self@.position.fence_epoch,
    {
        self.position.fence_epoch
    }

    /// Returns the observed device sequence.
    #[must_use]
    pub fn device_sequence(&self) -> (r: DeviceSequence)
        ensures
            r@ == self@.position.device_sequence,
    {
        self.position.device_sequence
    }

    /// Returns the opaque state hash.
    #[must_use]
    pub fn state_hash(&self) -> (r: &StateHash)
        ensures
            r@ == self@.state_hash,
    {
        &self.state_hash
    }

    /// Returns the opaque artifact digest.
    #[must_use]
    pub fn artifact_digest(&self) -> (r: &ArtifactDigest)
        ensures
            r@ == self@.artifact_digest,
    {
        &self.artifact_digest
    }

    /// Returns the optional upstream expiry time.
    #[must_use]
    pub fn expires_at(&self) -> (r: Option<UnixTimestamp>)
        ensures
            optional_time(r) == self@.expires_at,
    {
        self.expires_at
    }

    /// Returns the report observation time.
    #[must_use]
    pub fn observed_at(&self) -> (r: UnixTimestamp)
        ensures
            r@ == self@.position.observed_at,
    {
        self.position.observed_at
    }
}

impl Clone for CredentialReport {
    fn clone(&self) -> (r: Self)
        ensures
            r == *self,
    {
        CredentialReport {
            coordinates: self.coordinates.clone(),
            event: self.event.clone(),
            position: self.position,
            state_hash: self.state_hash.clone(),
            artifact_digest: self.artifact_digest.clone(),
            expires_at: self.expires_at,
        }
    }
}

/// Reasons paired with a stale application receipt.
#[derive(Clone, Copy, Debug, PartialEq, Eq, Structural)]
pub enum ApplicationStaleReason {
    /// The desired generation was stale.
    GenerationStale,
    /// The fence epoch was stale.
    FenceEpochStale,
    /// The device sequence was stale.
    DeviceSequenceStale,
}

/// Reasons paired with a rejected application receipt.
#[derive(Clone, Copy, Debug, PartialEq, Eq, Structural)]
pub enum ApplicationRejectionReason {
    /// Desired policy had not been accepted.
    NotAccepted,
    /// The inbound payload failed schema validation.
    SchemaRejected,
    /// The inbound payload violated the protocol.
    ProtocolViolation,
}

/// What [`ReceiptLineage`] carries.
pub struct LineageView {
    pub authorization_receipt: Seq<char>,
    pub desired_generation: u64,
}

/// Authorization lineage required for an accepted application outcome.
#[derive(Debug, PartialEq, Eq)]
pub struct ReceiptLineage {
    authorization_receipt: AuthorizationReceiptRef,
    desired_generation: Generation,
}

impl View for ReceiptLineage {
    type V = LineageView;

    closed spec fn view(&self) -> LineageView {
        LineageView {
            authorization_receipt: self.authorization_receipt@,
            desired_generation: self.desired_generation@,
        }
    }
}

impl ReceiptLineage {
    /// Creates lineage without treating the correlation reference as an authorization capability.
    #[must_use]
    pub fn new(
        authorization_receipt: AuthorizationReceiptRef,
        desired_generation: Generation,
    ) -> (r: Self)
        ensures
            r@ == (LineageView {
                authorization_receipt: authorization_receipt@,
                desired_generation: desired_generation@,
            }),
    {
        ReceiptLineage { authorization_receipt, desired_generation }
    }

    /// Returns correlation to the durable authorization decision.
    #[must_use]
    pub fn authorization_receipt(&self) -> (r: &AuthorizationReceiptRef)
        ensures
            r@ == self@.authorization_receipt,
    {
        &self.authorization_receipt
    }

    /// Returns the desired generation bound to the decision.
    #[must_use]
    pub fn desired_generation(&self) -> (r: Generation)
        ensures
            r@ == self@.desired_generation,
    {
        self.desired_generation
    }
}

impl Clone for ReceiptLineage {
    fn clone(&self) -> (r: Self)
        ensures
            r == *self,
    {
        ReceiptLineage {
            authorization_receipt: self.authorization_receipt.clone(),
            desired_generation: self.desired_generation,
        }
    }
}

/// Closed application ingress outcome with only valid reason pairings.
///
/// A rejected outcome cannot carry accepted authorization lineage.
#[derive(Debug, PartialEq, Eq)]
pub enum ApplicationReceiptOutcome {
    /// The inbound observation was committed with accepted lineage.
    Committed(ReceiptLineage),
    /// The inbound observation was already committed with the same accepted lineage.
    Duplicate(ReceiptLineage),
    /// The inbound observation was stale for the attached reason and accepted lineage.
    Stale { lineage: ReceiptLineage, reason: ApplicationStaleReason },
    /// The inbound observation was rejected before accepted lineage was available.
    Rejected(ApplicationRejectionReason),
}

impl Clone for ApplicationReceiptOutcome {
    fn clone(&self) -> (r: Self)
        ensures
            r == *self,
    {
        match self {
            ApplicationReceiptOutcome::Committed(lineage) => ApplicationReceiptOutcome::Committed(
                lineage.clone(),
            ),
            ApplicationReceiptOutcome::Duplicate(lineage) => ApplicationReceiptOutcome::Duplicate(
                lineage.clone(),
            ),
            ApplicationReceiptOutcome::Stale { lineage, reason } =>
                ApplicationReceiptOutcome::Stale { lineage: lineage.clone(), reason: *reason },
            ApplicationReceiptOutcome::Rejected(reason) => ApplicationReceiptOutcome::Rejected(
                *reason,
            ),
        }
    }
}

/// What an [`ApplicationReceiptOutcome`] says.
pub enum ReceiptOutcomeView {
    Committed(LineageView),
    Duplicate(LineageView),
    Stale { lineage: LineageView, reason: ApplicationStaleReason },
    Rejected(ApplicationRejectionReason),
}

impl View for ApplicationReceiptOutcome {
    type V = ReceiptOutcomeView;

    open spec fn view(&self) -> ReceiptOutcomeView {
        match self {
            ApplicationReceiptOutcome::Committed(lineage) => ReceiptOutcomeView::Committed(
                lineage@,
            ),
            ApplicationReceiptOutcome::Duplicate(lineage) => ReceiptOutcomeView::Duplicate(
                lineage@,
            ),
            ApplicationReceiptOutcome::Stale { lineage, reason } => ReceiptOutcomeView::Stale {
                lineage: lineage@,
                reason: *reason,
            },
            ApplicationReceiptOutcome::Rejected(reason) => ReceiptOutcomeView::Rejected(*reason),
        }
    }
}

/// What [`ApplicationReceiptObservation`] carries.
pub struct ReceiptView {
    pub coordinates: CoordinatesView,
    pub event: Seq<char>,
    pub ingress_envelope: Seq<char>,
    pub outcome: ReceiptOutcomeView,
    pub committed_at: i64,
}

/// Product projection of an application ingress receipt.
#[derive(Debug, PartialEq, Eq)]
pub struct ApplicationReceiptObservation {
    coordinates: RotationCoordinates,
    event: EventRef,
    ingress_envelope: IngressEnvelopeRef,
    outcome: ApplicationReceiptOutcome,
    committed_at: UnixTimestamp,
}

impl View for ApplicationReceiptObservation {
    type V = ReceiptView;

    closed spec fn view(&self) -> ReceiptView {
        ReceiptView {
            coordinates: self.coordinates@,
            event: self.event@,
            ingress_envelope: self.ingress_envelope@,
            outcome: self.outcome@,
            committed_at: self.committed_at@,
        }
    }
}

impl ApplicationReceiptObservation {
    /// Creates a receipt projection without deriving readiness or trusted provenance.
    #[must_use]
    pub fn new(
        coordinates: RotationCoordinates,
        event: EventRef,
        ingress_envelope: IngressEnvelopeRef,
        outcome: ApplicationReceiptOutcome,
        committed_at: UnixTimestamp,
    ) -> (r: Self)
        ensures
            r@ == (ReceiptView {
                coordinates: coordinates@,
                event: event@,
                ingress_envelope: ingress_envelope@,
                outcome: outcome@,
                committed_at: committed_at@,
            }),
    {
        ApplicationReceiptObservation { coordinates, event, ingress_envelope, outcome, committed_at }
    }

    /// Returns the independent receipt event-envelope identity.
    #[must_use]
    pub fn event(&self) -> (r: &EventRef)
        ensures
            r@ == self@.event,
    {
        &self.event
    }

    /// Returns the rotation coordinates.
    #[must_use]
    pub fn coordinates(&self) -> (r: &RotationCoordinates)
        ensures
            r@ == self@.coordinates,
    {
        &self.coordinates
    }

    /// Returns correlation to the receipted inbound envelope.
    #[must_use]
    pub fn ingress_envelope(&self) -> (r: &IngressEnvelopeRef)
        ensures
            r@ == self@.ingress_envelope,
    {
        &self.ingress_envelope
    }

    /// Returns the closed application outcome.
    #[must_use]
    pub fn outcome(&self) -> (r: &ApplicationReceiptOutcome)
        ensures
            r@ == self@.outcome,
    {
        &self.outcome
    }

    /// Returns the durable ingress commit time.
    #[must_use]
    pub fn committed_at(&self) -> (r: UnixTimestamp)
        ensures
            r@ == self@.committed_at,
    {
        self.committed_at
    }
}

impl Clone for ApplicationReceiptObservation {
    fn clone(&self) -> (r: Self)
        ensures
            r == *self,
    {
        ApplicationReceiptObservation {
            coordinates: self.coordinates.clone(),
            event: self.event.clone(),
            ingress_envelope: self.ingress_envelope.clone(),
            outcome: self.outcome.clone(),
            committed_at: self.committed_at,
        }
    }
}

} // verus!
