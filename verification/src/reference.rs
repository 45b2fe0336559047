//! Opaque references: values that correlate facts without granting anything.
//! Each kind is a type of its own and is never rendered in clear.

use crate::display;
use crate::text;
use vstd::prelude::*;
use vstd::string::*;

verus! {

/// Validation failure for a product-owned rotation value.
#[derive(Clone, Copy, Debug, PartialEq, Eq)]
pub enum RotationModelError {
    /// An opaque reference was empty or contained only white space.
    EmptyReference { kind: &'static str },
    /// An opaque reference contained a control character.
    ControlCharacter { kind: &'static str },
    /// A generation must be greater than zero.
    ZeroGeneration,
    /// A fence epoch must be greater than zero.
    ZeroFenceEpoch,
    /// A device-local credential revision must be greater than zero.
    ZeroCredentialRevision,
    /// A policy duration or collection violates the closed product constraints.
    InvalidPolicy,
}

impl RotationModelError {
    /// The text that describes the failure.
    pub open spec fn message(self) -> Seq<char> {
        match self {
            RotationModelError::EmptyReference { kind } => kind@ + " must not be empty"@,
            RotationModelError::ControlCharacter { kind } => kind@
                + " must not contain control characters"@,
            RotationModelError::ZeroGeneration => "generation must be greater than zero"@,
            RotationModelError::ZeroFenceEpoch => "fence epoch must be greater than zero"@,
            RotationModelError::ZeroCredentialRevision =>
                "credential revision must be greater than zero"@,
            RotationModelError::InvalidPolicy => "rotation policy violates product constraints"@,
        }
    }
}

impl core::fmt::Display for RotationModelError {
    fn fmt(&self, formatter: &mut core::fmt::Formatter<'_>) -> (r: Result<(), core::fmt::Error>)
        ensures
            r is Ok ==> display::wrote(*old(formatter), *final(formatter), self.message()),
    {
        match self {
            RotationModelError::EmptyReference { kind } => {
                let message = String::from_str(kind).concat(" must not be empty");
                formatter.write_str(message.as_str())
            },
            RotationModelError::ControlCharacter { kind } => {
                let message = String::from_str(kind).concat(" must not contain control characters");
                formatter.write_str(message.as_str())
            },
            RotationModelError::ZeroGeneration => formatter.write_str(
                "generation must be greater than zero",
            ),
            RotationModelError::ZeroFenceEpoch => formatter.write_str(
                "fence epoch must be greater than zero",
            ),
            RotationModelError::ZeroCredentialRevision => formatter.write_str(
                "credential revision must be greater than zero",
            ),
            RotationModelError::InvalidPolicy => formatter.write_str(
                "rotation policy violates product constraints",
            ),
        }
    }
}

impl std::error::Error for RotationModelError {

}

/// What an opaque reference must be: visible text without control characters.
pub open spec fn is_reference(value: Seq<char>) -> bool {
    !text::is_blank(value) && !text::has_control(value)
}

/// Why a text is refused as a reference of the given kind: emptiness is
/// reported before a control character.
pub open spec fn reference_error(kind: &'static str, value: Seq<char>) -> Option<
    RotationModelError,
> {
    if text::is_blank(value) {
        Some(RotationModelError::EmptyReference { kind })
    } else if text::has_control(value) {
        Some(RotationModelError::ControlCharacter { kind })
    } else {
        None
    }
}

fn validate_reference(value: &str, kind: &'static str) -> (r: Result<(), RotationModelError>)
    ensures
        match reference_error(kind, value@) {
            Some(error) => r == Err::<(), RotationModelError>(error),
            None => r is Ok && is_reference(value@),
        },
{
    if text::blank(value) {
        return Err(RotationModelError::EmptyReference { kind });
    }
    if text::contains_control(value) {
        return Err(RotationModelError::ControlCharacter { kind });
    }
    Ok(())
}

/// Product-owned correlation ID for one rotation request.
#[derive(PartialEq, Eq, PartialOrd, Ord, Hash)]
pub struct RotationId(String);

impl View for RotationId {
    type V = Seq<char>;

    closed spec fn view(&self) -> Seq<char> {
        self.0@
    }
}

impl RotationId {
    #[verifier::type_invariant]
    spec fn inv(self) -> bool {
        is_reference(self.0@)
    }

    /// Explicitly exposes the value to a controlled mapping or serialization boundary.
    #[must_use]
    pub fn expose(&self) -> (r: &str)
        ensures
            r@ == self@,
            is_reference(r@),
    {
        proof {
            use_type_invariant(self);
        }
        self.0.as_str()
    }
}

impl Clone for RotationId {
    fn clone(&self) -> (r: Self)
        ensures
            r == *self,
    {
        proof {
            use_type_invariant(self);
        }
        RotationId(self.0.clone())
    }
}

impl TryFrom<&str> for RotationId {
    type Error = RotationModelError;

    fn try_from(value: &str) -> (r: Result<Self, RotationModelError>)
        ensures
            match reference_error("rotation_id", value@) {
                Some(error) => r == Err::<Self, RotationModelError>(error),
                None => r is Ok && r->Ok_0@ == value@,
            },
    {
        match validate_reference(value, "rotation_id") {
            Ok(()) => Ok(RotationId(value.to_owned())),
            Err(error) => Err(error),
        }
    }
}

impl vstd::std_specs::convert::TryFromSpecImpl<&str> for RotationId {
    open spec fn obeys_try_from_spec() -> bool {
        false
    }

    open spec fn try_from_spec(value: &str) -> Result<Self, RotationModelError> {
        arbitrary()
    }
}

impl TryFrom<String> for RotationId {
    type Error = RotationModelError;

    fn try_from(value: String) -> (r: Result<Self, RotationModelError>)
        ensures
            match reference_error("rotation_id", value@) {
                Some(error) => r == Err::<Self, RotationModelError>(error),
                None => r is Ok && r->Ok_0@ == value@,
            },
    {
        match validate_reference(value.as_str(), "rotation_id") {
            Ok(()) => Ok(RotationId(value)),
            Err(error) => Err(error),
        }
    }
}

impl vstd::std_specs::convert::TryFromSpecImpl<String> for RotationId {
    open spec fn obeys_try_from_spec() -> bool {
        false
    }

    open spec fn try_from_spec(value: String) -> Result<Self, RotationModelError> {
        arbitrary()
    }
}

impl core::fmt::Debug for RotationId {
    fn fmt(&self, formatter: &mut core::fmt::Formatter<'_>) -> (r: Result<(), core::fmt::Error>)
        ensures
            r is Ok ==> display::wrote(*old(formatter), *final(formatter), "RotationId([REDACTED])"@),
    {
        formatter.write_str("RotationId([REDACTED])")
    }
}

/// Opaque request correlation returned by the public API.
#[derive(PartialEq, Eq, PartialOrd, Ord, Hash)]
pub struct RequestId(String);

impl View for RequestId {
    type V = Seq<char>;

    closed spec fn view(&self) -> Seq<char> {
        self.0@
    }
}

impl RequestId {
    #[verifier::type_invariant]
    spec fn inv(self) -> bool {
        is_reference(self.0@)
    }

    /// Explicitly exposes the value to a controlled mapping or serialization boundary.
    #[must_use]
    pub fn expose(&self) -> (r: &str)
        ensures
            r@ == self@,
            is_reference(r@),
    {
        proof {
            use_type_invariant(self);
        }
        self.0.as_str()
    }
}

impl Clone for RequestId {
    fn clone(&self) -> (r: Self)
        ensures
            r == *self,
    {
        proof {
            use_type_invariant(self);
        }
        RequestId(self.0.clone())
    }
}

impl TryFrom<&str> for RequestId {
    type Error = RotationModelError;

    fn try_from(value: &str) -> (r: Result<Self, RotationModelError>)
        ensures
            match reference_error("request_id", value@) {
                Some(error) => r == Err::<Self, RotationModelError>(error),
                None => r is Ok && r->Ok_0@ == value@,
            },
    {
        match validate_reference(value, "request_id") {
            Ok(()) => Ok(RequestId(value.to_owned())),
            Err(error) => Err(error),
        }
    }
}

impl vstd::std_specs::convert::TryFromSpecImpl<&str> for RequestId {
    open spec fn obeys_try_from_spec() -> bool {
        false
    }

    open spec fn try_from_spec(value: &str) -> Result<Self, RotationModelError> {
        arbitrary()
    }
}

impl TryFrom<String> for RequestId {
    type Error = RotationModelError;

    fn try_from(value: String) -> (r: Result<Self, RotationModelError>)
        ensures
            match reference_error("request_id", value@) {
                Some(error) => r == Err::<Self, RotationModelError>(error),
                None => r is Ok && r->Ok_0@ == value@,
            },
    {
        match validate_reference(value.as_str(), "request_id") {
            Ok(()) => Ok(RequestId(value)),
            Err(error) => Err(error),
        }
    }
}

impl vstd::std_specs::convert::TryFromSpecImpl<String> for RequestId {
    open spec fn obeys_try_from_spec() -> bool {
        false
    }

    open spec fn try_from_spec(value: String) -> Result<Self, RotationModelError> {
        arbitrary()
    }
}

impl core::fmt::Debug for RequestId {
    fn fmt(&self, formatter: &mut core::fmt::Formatter<'_>) -> (r: Result<(), core::fmt::Error>)
        ensures
            r is Ok ==> display::wrote(*old(formatter), *final(formatter), "RequestId([REDACTED])"@),
    {
        formatter.write_str("RequestId([REDACTED])")
    }
}

/// Opaque correlation identifier for one CLI operation.
#[derive(PartialEq, Eq, PartialOrd, Ord, Hash)]
pub struct CorrelationId(String);

impl View for CorrelationId {
    type V = Seq<char>;

    closed spec fn view(&self) -> Seq<char> {
        self.0@
    }
}

impl CorrelationId {
    #[verifier::type_invariant]
    spec fn inv(self) -> bool {
        is_reference(self.0@)
    }

    /// Explicitly exposes the value to a controlled mapping or serialization boundary.
    #[must_use]
    pub fn expose(&self) -> (r: &str)
        ensures
            r@ == self@,
            is_reference(r@),
    {
        proof {
            use_type_invariant(self);
        }
        self.0.as_str()
    }
}

impl Clone for CorrelationId {
    fn clone(&self) -> (r: Self)
        ensures
            r == *self,
    {
        proof {
            use_type_invariant(self);
        }
        CorrelationId(self.0.clone())
    }
}

impl TryFrom<&str> for CorrelationId {
    type Error = RotationModelError;

    fn try_from(value: &str) -> (r: Result<Self, RotationModelError>)
        ensures
            match reference_error("correlation_id", value@) {
                Some(error) => r == Err::<Self, RotationModelError>(error),
                None => r is Ok && r->Ok_0@ == value@,
            },
    {
        match validate_reference(value, "correlation_id") {
            Ok(()) => Ok(CorrelationId(value.to_owned())),
            Err(error) => Err(error),
        }
    }
}

impl vstd::std_specs::convert::TryFromSpecImpl<&str> for CorrelationId {
    open spec fn obeys_try_from_spec() -> bool {
        false
    }

    open spec fn try_from_spec(value: &str) -> Result<Self, RotationModelError> {
        arbitrary()
    }
}

impl TryFrom<String> for CorrelationId {
    type Error = RotationModelError;

    fn try_from(value: String) -> (r: Result<Self, RotationModelError>)
        ensures
            match reference_error("correlation_id", value@) {
                Some(error) => r == Err::<Self, RotationModelError>(error),
                None => r is Ok && r->Ok_0@ == value@,
            },
    {
        match validate_reference(value.as_str(), "correlation_id") {
            Ok(()) => Ok(CorrelationId(value)),
            Err(error) => Err(error),
        }
    }
}

impl vstd::std_specs::convert::TryFromSpecImpl<String> for CorrelationId {
    open spec fn obeys_try_from_spec() -> bool {
        false
    }

    open spec fn try_from_spec(value: String) -> Result<Self, RotationModelError> {
        arbitrary()
    }
}

impl core::fmt::Debug for CorrelationId {
    fn fmt(&self, formatter: &mut core::fmt::Formatter<'_>) -> (r: Result<(), core::fmt::Error>)
        ensures
            r is Ok ==> display::wrote(*old(formatter), *final(formatter), "CorrelationId([REDACTED])"@),
    {
        formatter.write_str("CorrelationId([REDACTED])")
    }
}

/// Opaque tenant reference that does not establish a verified tenant.
#[derive(PartialEq, Eq, PartialOrd, Ord, Hash)]
pub struct TenantRef(String);

impl View for TenantRef {
    type V = Seq<char>;

    closed spec fn view(&self) -> Seq<char> {
        self.0@
    }
}

impl TenantRef {
    #[verifier::type_invariant]
    spec fn inv(self) -> bool {
        is_reference(self.0@)
    }

    /// Explicitly exposes the value to a controlled mapping or serialization boundary.
    #[must_use]
    pub fn expose(&self) -> (r: &str)
        ensures
            r@ == self@,
            is_reference(r@),
    {
        proof {
            use_type_invariant(self);
        }
        self.0.as_str()
    }
}

impl Clone for TenantRef {
    fn clone(&self) -> (r: Self)
        ensures
            r == *self,
    {
        proof {
            use_type_invariant(self);
        }
        TenantRef(self.0.clone())
    }
}

impl TryFrom<&str> for TenantRef {
    type Error = RotationModelError;

    fn try_from(value: &str) -> (r: Result<Self, RotationModelError>)
        ensures
            match reference_error("tenant_ref", value@) {
                Some(error) => r == Err::<Self, RotationModelError>(error),
                None => r is Ok && r->Ok_0@ == value@,
            },
    {
        match validate_reference(value, "tenant_ref") {
            Ok(()) => Ok(TenantRef(value.to_owned())),
            Err(error) => Err(error),
        }
    }
}

impl vstd::std_specs::convert::TryFromSpecImpl<&str> for TenantRef {
    open spec fn obeys_try_from_spec() -> bool {
        false
    }

    open spec fn try_from_spec(value: &str) -> Result<Self, RotationModelError> {
        arbitrary()
    }
}

impl TryFrom<String> for TenantRef {
    type Error = RotationModelError;

    fn try_from(value: String) -> (r: Result<Self, RotationModelError>)
        ensures
            match reference_error("tenant_ref", value@) {
                Some(error) => r == Err::<Self, RotationModelError>(error),
                None => r is Ok && r->Ok_0@ == value@,
            },
    {
        match validate_reference(value.as_str(), "tenant_ref") {
            Ok(()) => Ok(TenantRef(value)),
            Err(error) => Err(error),
        }
    }
}

impl vstd::std_specs::convert::TryFromSpecImpl<String> for TenantRef {
    open spec fn obeys_try_from_spec() -> bool {
        false
    }

    open spec fn try_from_spec(value: String) -> Result<Self, RotationModelError> {
        arbitrary()
    }
}

impl core::fmt::Debug for TenantRef {
    fn fmt(&self, formatter: &mut core::fmt::Formatter<'_>) -> (r: Result<(), core::fmt::Error>)
        ensures
            r is Ok ==> display::wrote(*old(formatter), *final(formatter), "TenantRef([REDACTED])"@),
    {
        formatter.write_str("TenantRef([REDACTED])")
    }
}

/// Opaque device reference that does not establish device identity.
#[derive(PartialEq, Eq, PartialOrd, Ord, Hash)]
pub struct DeviceRef(String);

impl View for DeviceRef {
    type V = Seq<char>;

    closed spec fn view(&self) -> Seq<char> {
        self.0@
    }
}

impl DeviceRef {
    #[verifier::type_invariant]
    spec fn inv(self) -> bool {
        is_reference(self.0@)
    }

    /// Explicitly exposes the value to a controlled mapping or serialization boundary.
    #[must_use]
    pub fn expose(&self) -> (r: &str)
        ensures
            r@ == self@,
            is_reference(r@),
    {
        proof {
            use_type_invariant(self);
        }
        self.0.as_str()
    }
}

impl Clone for DeviceRef {
    fn clone(&self) -> (r: Self)
        ensures
            r == *self,
    {
        proof {
            use_type_invariant(self);
        }
        DeviceRef(self.0.clone())
    }
}

impl TryFrom<&str> for DeviceRef {
    type Error = RotationModelError;

    fn try_from(value: &str) -> (r: Result<Self, RotationModelError>)
        ensures
            match reference_error("device_ref", value@) {
                Some(error) => r == Err::<Self, RotationModelError>(error),
                None => r is Ok && r->Ok_0@ == value@,
            },
    {
        match validate_reference(value, "device_ref") {
            Ok(()) => Ok(DeviceRef(value.to_owned())),
            Err(error) => Err(error),
        }
    }
}

impl vstd::std_specs::convert::TryFromSpecImpl<&str> for DeviceRef {
    open spec fn obeys_try_from_spec() -> bool {
        false
    }

    open spec fn try_from_spec(value: &str) -> Result<Self, RotationModelError> {
        arbitrary()
    }
}

impl TryFrom<String> for DeviceRef {
    type Error = RotationModelError;

    fn try_from(value: String) -> (r: Result<Self, RotationModelError>)
        ensures
            match reference_error("device_ref", value@) {
                Some(error) => r == Err::<Self, RotationModelError>(error),
                None => r is Ok && r->Ok_0@ == value@,
            },
    {
        match validate_reference(value.as_str(), "device_ref") {
            Ok(()) => Ok(DeviceRef(value)),
            Err(error) => Err(error),
        }
    }
}

impl vstd::std_specs::convert::TryFromSpecImpl<String> for DeviceRef {
    open spec fn obeys_try_from_spec() -> bool {
        false
    }

    open spec fn try_from_spec(value: String) -> Result<Self, RotationModelError> {
        arbitrary()
    }
}

impl core::fmt::Debug for DeviceRef {
    fn fmt(&self, formatter: &mut core::fmt::Formatter<'_>) -> (r: Result<(), core::fmt::Error>)
        ensures
            r is Ok ==> display::wrote(*old(formatter), *final(formatter), "DeviceRef([REDACTED])"@),
    {
        formatter.write_str("DeviceRef([REDACTED])")
    }
}

/// Opaque requester reference that does not establish authentication.
#[derive(PartialEq, Eq, PartialOrd, Ord, Hash)]
pub struct PrincipalRef(String);

impl View for PrincipalRef {
    type V = Seq<char>;

    closed spec fn view(&self) -> Seq<char> {
        self.0@
    }
}

impl PrincipalRef {
    #[verifier::type_invariant]
    spec fn inv(self) -> bool {
        is_reference(self.0@)
    }

    /// Explicitly exposes the value to a controlled mapping or serialization boundary.
    #[must_use]
    pub fn expose(&self) -> (r: &str)
        ensures
            r@ == self@,
            is_reference(r@),
    {
        proof {
            use_type_invariant(self);
        }
        self.0.as_str()
    }
}

impl Clone for PrincipalRef {
    fn clone(&self) -> (r: Self)
        ensures
            r == *self,
    {
        proof {
            use_type_invariant(self);
        }
        PrincipalRef(self.0.clone())
    }
}

impl TryFrom<&str> for PrincipalRef {
    type Error = RotationModelError;

    fn try_from(value: &str) -> (r: Result<Self, RotationModelError>)
        ensures
            match reference_error("principal_ref", value@) {
                Some(error) => r == Err::<Self, RotationModelError>(error),
                None => r is Ok && r->Ok_0@ == value@,
            },
    {
        match validate_reference(value, "principal_ref") {
            Ok(()) => Ok(PrincipalRef(value.to_owned())),
            Err(error) => Err(error),
        }
    }
}

impl vstd::std_specs::convert::TryFromSpecImpl<&str> for PrincipalRef {
    open spec fn obeys_try_from_spec() -> bool {
        false
    }

    open spec fn try_from_spec(value: &str) -> Result<Self, RotationModelError> {
        arbitrary()
    }
}

impl TryFrom<String> for PrincipalRef {
    type Error = RotationModelError;

    fn try_from(value: String) -> (r: Result<Self, RotationModelError>)
        ensures
            match reference_error("principal_ref", value@) {
                Some(error) => r == Err::<Self, RotationModelError>(error),
                None => r is Ok && r->Ok_0@ == value@,
            },
    {
        match validate_reference(value.as_str(), "principal_ref") {
            Ok(()) => Ok(PrincipalRef(value)),
            Err(error) => Err(error),
        }
    }
}

impl vstd::std_specs::convert::TryFromSpecImpl<String> for PrincipalRef {
    open spec fn obeys_try_from_spec() -> bool {
        false
    }

    open spec fn try_from_spec(value: String) -> Result<Self, RotationModelError> {
        arbitrary()
    }
}

impl core::fmt::Debug for PrincipalRef {
    fn fmt(&self, formatter: &mut core::fmt::Formatter<'_>) -> (r: Result<(), core::fmt::Error>)
        ensures
            r is Ok ==> display::wrote(*old(formatter), *final(formatter), "PrincipalRef([REDACTED])"@),
    {
        formatter.write_str("PrincipalRef([REDACTED])")
    }
}

/// Authority-free correlation reference for one durable authorization decision.
#[derive(PartialEq, Eq, PartialOrd, Ord, Hash)]
pub struct AuthorizationReceiptRef(String);

impl View for AuthorizationReceiptRef {
    type V = Seq<char>;

    closed spec fn view(&self) -> Seq<char> {
        self.0@
    }
}

impl AuthorizationReceiptRef {
    #[verifier::type_invariant]
    spec fn inv(self) -> bool {
        is_reference(self.0@)
    }

    /// Explicitly exposes the value to a controlled mapping or serialization boundary.
    #[must_use]
    pub fn expose(&self) -> (r: &str)
        ensures
            r@ == self@,
            is_reference(r@),
    {
        proof {
            use_type_invariant(self);
        }
        self.0.as_str()
    }
}

impl Clone for AuthorizationReceiptRef {
    fn clone(&self) -> (r: Self)
        ensures
            r == *self,
    {
        proof {
            use_type_invariant(self);
        }
        AuthorizationReceiptRef(self.0.clone())
    }
}

impl TryFrom<&str> for AuthorizationReceiptRef {
    type Error = RotationModelError;

    fn try_from(value: &str) -> (r: Result<Self, RotationModelError>)
        ensures
            match reference_error("authorization_receipt_ref", value@) {
                Some(error) => r == Err::<Self, RotationModelError>(error),
                None => r is Ok && r->Ok_0@ == value@,
            },
    {
        match validate_reference(value, "authorization_receipt_ref") {
            Ok(()) => Ok(AuthorizationReceiptRef(value.to_owned())),
            Err(error) => Err(error),
        }
    }
}

impl vstd::std_specs::convert::TryFromSpecImpl<&str> for AuthorizationReceiptRef {
    open spec fn obeys_try_from_spec() -> bool {
        false
    }

    open spec fn try_from_spec(value: &str) -> Result<Self, RotationModelError> {
        arbitrary()
    }
}

impl TryFrom<String> for AuthorizationReceiptRef {
    type Error = RotationModelError;

    fn try_from(value: String) -> (r: Result<Self, RotationModelError>)
        ensures
            match reference_error("authorization_receipt_ref", value@) {
                Some(error) => r == Err::<Self, RotationModelError>(error),
                None => r is Ok && r->Ok_0@ == value@,
            },
    {
        match validate_reference(value.as_str(), "authorization_receipt_ref") {
            Ok(()) => Ok(AuthorizationReceiptRef(value)),
            Err(error) => Err(error),
        }
    }
}

impl vstd::std_specs::convert::TryFromSpecImpl<String> for AuthorizationReceiptRef {
    open spec fn obeys_try_from_spec() -> bool {
        false
    }

    open spec fn try_from_spec(value: String) -> Result<Self, RotationModelError> {
        arbitrary()
    }
}

impl core::fmt::Debug for AuthorizationReceiptRef {
    fn fmt(&self, formatter: &mut core::fmt::Formatter<'_>) -> (r: Result<(), core::fmt::Error>)
        ensures
            r is Ok ==> display::wrote(*old(formatter), *final(formatter), "AuthorizationReceiptRef([REDACTED])"@),
    {
        formatter.write_str("AuthorizationReceiptRef([REDACTED])")
    }
}

/// Opaque reference to a device command issued outside this model.
#[derive(PartialEq, Eq, PartialOrd, Ord, Hash)]
pub struct CommandRef(String);

impl View for CommandRef {
    type V = Seq<char>;

    closed spec fn view(&self) -> Seq<char> {
        self.0@
    }
}

impl CommandRef {
    #[verifier::type_invariant]
    spec fn inv(self) -> bool {
        is_reference(self.0@)
    }

    /// Explicitly exposes the value to a controlled mapping or serialization boundary.
    #[must_use]
    pub fn expose(&self) -> (r: &str)
        ensures
            r@ == self@,
            is_reference(r@),
    {
        proof {
            use_type_invariant(self);
        }
        self.0.as_str()
    }
}

impl Clone for CommandRef {
    fn clone(&self) -> (r: Self)
        ensures
            r == *self,
    {
        proof {
            use_type_invariant(self);
        }
        CommandRef(self.0.clone())
    }
}

impl TryFrom<&str> for CommandRef {
    type Error = RotationModelError;

    fn try_from(value: &str) -> (r: Result<Self, RotationModelError>)
        ensures
            match reference_error("command_ref", value@) {
                Some(error) => r == Err::<Self, RotationModelError>(error),
                None => r is Ok && r->Ok_0@ == value@,
            },
    {
        match validate_reference(value, "command_ref") {
            Ok(()) => Ok(CommandRef(value.to_owned())),
            Err(error) => Err(error),
        }
    }
}

impl vstd::std_specs::convert::TryFromSpecImpl<&str> for CommandRef {
    open spec fn obeys_try_from_spec() -> bool {
        false
    }

    open spec fn try_from_spec(value: &str) -> Result<Self, RotationModelError> {
        arbitrary()
    }
}

impl TryFrom<String> for CommandRef {
    type Error = RotationModelError;

    fn try_from(value: String) -> (r: Result<Self, RotationModelError>)
        ensures
            match reference_error("command_ref", value@) {
                Some(error) => r == Err::<Self, RotationModelError>(error),
                None => r is Ok && r->Ok_0@ == value@,
            },
    {
        match validate_reference(value.as_str(), "command_ref") {
            Ok(()) => Ok(CommandRef(value)),
            Err(error) => Err(error),
        }
    }
}

impl vstd::std_specs::convert::TryFromSpecImpl<String> for CommandRef {
    open spec fn obeys_try_from_spec() -> bool {
        false
    }

    open spec fn try_from_spec(value: String) -> Result<Self, RotationModelError> {
        arbitrary()
    }
}

impl core::fmt::Debug for CommandRef {
    fn fmt(&self, formatter: &mut core::fmt::Formatter<'_>) -> (r: Result<(), core::fmt::Error>)
        ensures
            r is Ok ==> display::wrote(*old(formatter), *final(formatter), "CommandRef([REDACTED])"@),
    {
        formatter.write_str("CommandRef([REDACTED])")
    }
}

/// Opaque identity of an event envelope observed outside this model.
#[derive(PartialEq, Eq, PartialOrd, Ord, Hash)]
pub struct EventRef(String);

impl View for EventRef {
    type V = Seq<char>;

    closed spec fn view(&self) -> Seq<char> {
        self.0@
    }
}

impl EventRef {
    #[verifier::type_invariant]
    spec fn inv(self) -> bool {
        is_reference(self.0@)
    }

    /// Explicitly exposes the value to a controlled mapping or serialization boundary.
    #[must_use]
    pub fn expose(&self) -> (r: &str)
        ensures
            r@ == self@,
            is_reference(r@),
    {
        proof {
            use_type_invariant(self);
        }
        self.0.as_str()
    }
}

impl Clone for EventRef {
    fn clone(&self) -> (r: Self)
        ensures
            r == *self,
    {
        proof {
            use_type_invariant(self);
        }
        EventRef(self.0.clone())
    }
}

impl TryFrom<&str> for EventRef {
    type Error = RotationModelError;

    fn try_from(value: &str) -> (r: Result<Self, RotationModelError>)
        ensures
            match reference_error("event_ref", value@) {
                Some(error) => r == Err::<Self, RotationModelError>(error),
                None => r is Ok && r->Ok_0@ == value@,
            },
    {
        match validate_reference(value, "event_ref") {
            Ok(()) => Ok(EventRef(value.to_owned())),
            Err(error) => Err(error),
        }
    }
}

impl vstd::std_specs::convert::TryFromSpecImpl<&str> for EventRef {
    open spec fn obeys_try_from_spec() -> bool {
        false
    }

    open spec fn try_from_spec(value: &str) -> Result<Self, RotationModelError> {
        arbitrary()
    }
}

impl TryFrom<String> for EventRef {
    type Error = RotationModelError;

    fn try_from(value: String) -> (r: Result<Self, RotationModelError>)
        ensures
            match reference_error("event_ref", value@) {
                Some(error) => r == Err::<Self, RotationModelError>(error),
                None => r is Ok && r->Ok_0@ == value@,
            },
    {
        match validate_reference(value.as_str(), "event_ref") {
            Ok(()) => Ok(EventRef(value)),
            Err(error) => Err(error),
        }
    }
}

impl vstd::std_specs::convert::TryFromSpecImpl<String> for EventRef {
    open spec fn obeys_try_from_spec() -> bool {
        false
    }

    open spec fn try_from_spec(value: String) -> Result<Self, RotationModelError> {
        arbitrary()
    }
}

impl core::fmt::Debug for EventRef {
    fn fmt(&self, formatter: &mut core::fmt::Formatter<'_>) -> (r: Result<(), core::fmt::Error>)
        ensures
            r is Ok ==> display::wrote(*old(formatter), *final(formatter), "EventRef([REDACTED])"@),
    {
        formatter.write_str("EventRef([REDACTED])")
    }
}

/// Opaque correlation reference for a receipted inbound envelope.
#[derive(PartialEq, Eq, PartialOrd, Ord, Hash)]
pub struct IngressEnvelopeRef(String);

impl View for IngressEnvelopeRef {
    type V = Seq<char>;

    closed spec fn view(&self) -> Seq<char> {
        self.0@
    }
}

impl IngressEnvelopeRef {
    #[verifier::type_invariant]
    spec fn inv(self) -> bool {
        is_reference(self.0@)
    }

    /// Explicitly exposes the value to a controlled mapping or serialization boundary.
    #[must_use]
    pub fn expose(&self) -> (r: &str)
        ensures
            r@ == self@,
            is_reference(r@),
    {
        proof {
            use_type_invariant(self);
        }
        self.0.as_str()
    }
}

impl Clone for IngressEnvelopeRef {
    fn clone(&self) -> (r: Self)
        ensures
            r == *self,
    {
        proof {
            use_type_invariant(self);
        }
        IngressEnvelopeRef(self.0.clone())
    }
}

impl TryFrom<&str> for IngressEnvelopeRef {
    type Error = RotationModelError;

    fn try_from(value: &str) -> (r: Result<Self, RotationModelError>)
        ensures
            match reference_error("ingress_envelope_ref", value@) {
                Some(error) => r == Err::<Self, RotationModelError>(error),
                None => r is Ok && r->Ok_0@ == value@,
            },
    {
        match validate_reference(value, "ingress_envelope_ref") {
            Ok(()) => Ok(IngressEnvelopeRef(value.to_owned())),
            Err(error) => Err(error),
        }
    }
}

impl vstd::std_specs::convert::TryFromSpecImpl<&str> for IngressEnvelopeRef {
    open spec fn obeys_try_from_spec() -> bool {
        false
    }

    open spec fn try_from_spec(value: &str) -> Result<Self, RotationModelError> {
        arbitrary()
    }
}

impl TryFrom<String> for IngressEnvelopeRef {
    type Error = RotationModelError;

    fn try_from(value: String) -> (r: Result<Self, RotationModelError>)
        ensures
            match reference_error("ingress_envelope_ref", value@) {
                Some(error) => r == Err::<Self, RotationModelError>(error),
                None => r is Ok && r->Ok_0@ == value@,
            },
    {
        match validate_reference(value.as_str(), "ingress_envelope_ref") {
            Ok(()) => Ok(IngressEnvelopeRef(value)),
            Err(error) => Err(error),
        }
    }
}

impl vstd::std_specs::convert::TryFromSpecImpl<String> for IngressEnvelopeRef {
    open spec fn obeys_try_from_spec() -> bool {
        false
    }

    open spec fn try_from_spec(value: String) -> Result<Self, RotationModelError> {
        arbitrary()
    }
}

impl core::fmt::Debug for IngressEnvelopeRef {
    fn fmt(&self, formatter: &mut core::fmt::Formatter<'_>) -> (r: Result<(), core::fmt::Error>)
        ensures
            r is Ok ==> display::wrote(*old(formatter), *final(formatter), "IngressEnvelopeRef([REDACTED])"@),
    {
        formatter.write_str("IngressEnvelopeRef([REDACTED])")
    }
}

/// Opaque state hash observed through the public contract boundary.
#[derive(PartialEq, Eq, PartialOrd, Ord, Hash)]
pub struct StateHash(String);

impl View for StateHash {
    type V = Seq<char>;

    closed spec fn view(&self) -> Seq<char> {
        self.0@
    }
}

impl StateHash {
    #[verifier::type_invariant]
    spec fn inv(self) -> bool {
        is_reference(self.0@)
    }

    /// Explicitly exposes the value to a controlled mapping or serialization boundary.
    #[must_use]
    pub fn expose(&self) -> (r: &str)
        ensures
            r@ == self@,
            is_reference(r@),
    {
        proof {
            use_type_invariant(self);
        }
        self.0.as_str()
    }
}

impl Clone for StateHash {
    fn clone(&self) -> (r: Self)
        ensures
            r == *self,
    {
        proof {
            use_type_invariant(self);
        }
        StateHash(self.0.clone())
    }
}

impl TryFrom<&str> for StateHash {
    type Error = RotationModelError;

    fn try_from(value: &str) -> (r: Result<Self, RotationModelError>)
        ensures
            match reference_error("state_hash", value@) {
                Some(error) => r == Err::<Self, RotationModelError>(error),
                None => r is Ok && r->Ok_0@ == value@,
            },
    {
        match validate_reference(value, "state_hash") {
            Ok(()) => Ok(StateHash(value.to_owned())),
            Err(error) => Err(error),
        }
    }
}

impl vstd::std_specs::convert::TryFromSpecImpl<&str> for StateHash {
    open spec fn obeys_try_from_spec() -> bool {
        false
    }

    open spec fn try_from_spec(value: &str) -> Result<Self, RotationModelError> {
        arbitrary()
    }
}

impl TryFrom<String> for StateHash {
    type Error = RotationModelError;

    fn try_from(value: String) -> (r: Result<Self, RotationModelError>)
        ensures
            match reference_error("state_hash", value@) {
                Some(error) => r == Err::<Self, RotationModelError>(error),
                None => r is Ok && r->Ok_0@ == value@,
            },
    {
        match validate_reference(value.as_str(), "state_hash") {
            Ok(()) => Ok(StateHash(value)),
            Err(error) => Err(error),
        }
    }
}

impl vstd::std_specs::convert::TryFromSpecImpl<String> for StateHash {
    open spec fn obeys_try_from_spec() -> bool {
        false
    }

    open spec fn try_from_spec(value: String) -> Result<Self, RotationModelError> {
        arbitrary()
    }
}

impl core::fmt::Debug for StateHash {
    fn fmt(&self, formatter: &mut core::fmt::Formatter<'_>) -> (r: Result<(), core::fmt::Error>)
        ensures
            r is Ok ==> display::wrote(*old(formatter), *final(formatter), "StateHash([REDACTED])"@),
    {
        formatter.write_str("StateHash([REDACTED])")
    }
}

/// Opaque non-secret artifact digest observed through the public contract boundary.
#[derive(PartialEq, Eq, PartialOrd, Ord, Hash)]
pub struct ArtifactDigest(String);

impl View for ArtifactDigest {
    type V = Seq<char>;

    closed spec fn view(&self) -> Seq<char> {
        self.0@
    }
}

impl ArtifactDigest {
    #[verifier::type_invariant]
    spec fn inv(self) -> bool {
        is_reference(self.0@)
    }

    /// Explicitly exposes the value to a controlled mapping or serialization boundary.
    #[must_use]
    pub fn expose(&self) -> (r: &str)
        ensures
            r@ == self@,
            is_reference(r@),
    {
        proof {
            use_type_invariant(self);
        }
        self.0.as_str()
    }
}

impl Clone for ArtifactDigest {
    fn clone(&self) -> (r: Self)
        ensures
            r == *self,
    {
        proof {
            use_type_invariant(self);
        }
        ArtifactDigest(self.0.clone())
    }
}

impl TryFrom<&str> for ArtifactDigest {
    type Error = RotationModelError;

    fn try_from(value: &str) -> (r: Result<Self, RotationModelError>)
        ensures
            match reference_error("artifact_digest", value@) {
                Some(error) => r == Err::<Self, RotationModelError>(error),
                None => r is Ok && r->Ok_0@ == value@,
            },
    {
        match validate_reference(value, "artifact_digest") {
            Ok(()) => Ok(ArtifactDigest(value.to_owned())),
            Err(error) => Err(error),
        }
    }
}

impl vstd::std_specs::convert::TryFromSpecImpl<&str> for ArtifactDigest {
    open spec fn obeys_try_from_spec() -> bool {
        false
    }

    open spec fn try_from_spec(value: &str) -> Result<Self, RotationModelError> {
        arbitrary()
    }
}

impl TryFrom<String> for ArtifactDigest {
    type Error = RotationModelError;

    fn try_from(value: String) -> (r: Result<Self, RotationModelError>)
        ensures
            match reference_error("artifact_digest", value@) {
                Some(error) => r == Err::<Self, RotationModelError>(error),
                None => r is Ok && r->Ok_0@ == value@,
            },
    {
        match validate_reference(value.as_str(), "artifact_digest") {
            Ok(()) => Ok(ArtifactDigest(value)),
            Err(error) => Err(error),
        }
    }
}

impl vstd::std_specs::convert::TryFromSpecImpl<String> for ArtifactDigest {
    open spec fn obeys_try_from_spec() -> bool {
        false
    }

    open spec fn try_from_spec(value: String) -> Result<Self, RotationModelError> {
        arbitrary()
    }
}

impl core::fmt::Debug for ArtifactDigest {
    fn fmt(&self, formatter: &mut core::fmt::Formatter<'_>) -> (r: Result<(), core::fmt::Error>)
        ensures
            r is Ok ==> display::wrote(*old(formatter), *final(formatter), "ArtifactDigest([REDACTED])"@),
    {
        formatter.write_str("ArtifactDigest([REDACTED])")
    }
}

} // verus!
