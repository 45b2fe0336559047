//! Laws of opaque references: which texts are references, and why the others
//! are not.

use crate::reference::{
    ArtifactDigest, AuthorizationReceiptRef, CommandRef, CorrelationId, DeviceRef, EventRef,
    IngressEnvelopeRef, PrincipalRef, RequestId, RotationId, RotationModelError, StateHash,
    TenantRef,
};
use crate::text;
use crate::text_laws::controls;
use vstd::prelude::*;

verus! {

/// Something other than white space stands in the text.
pub open spec fn shows(value: Seq<char>) -> bool {
    exists|i: int| 0 <= i < value.len() && !text::is_white_space(#[trigger] value[i])
}

/// No control character stands in the text.
pub open spec fn plain(value: Seq<char>) -> bool {
    forall|i: int| 0 <= i < value.len() ==> !controls(#[trigger] value[i])
}

/// What comes of a text as a reference of a kind: a plain text that shows is
/// kept as it is; one that shows nothing is empty, whatever else is wrong;
/// any other holds a control character. The failure names the kind.
pub open spec fn referred<R>(
    value: Seq<char>,
    kind: Seq<char>,
    r: Result<R, RotationModelError>,
    kept: Seq<char>,
) -> bool {
    &&& r is Ok <==> shows(value) && plain(value)
    &&& r is Ok ==> kept == value
    &&& !shows(value) ==> r->Err_0 is EmptyReference && r->Err_0->EmptyReference_kind@ == kind
    &&& shows(value) && !plain(value) ==> r->Err_0 is ControlCharacter
        && r->Err_0->ControlCharacter_kind@ == kind
}

proof fn lemma_reference(value: Seq<char>)
    ensures
        shows(value) <==> !text::is_blank(value),
        plain(value) <==> !text::has_control(value),
{
    if plain(value) {
        assert forall|i: int| 0 <= i < value.len() implies !text::is_control(
            #[trigger] value[i],
        ) by {
            assert(!controls(value[i]));
        }
    } else {
        let i = choose|i: int| 0 <= i < value.len() && controls(#[trigger] value[i]);
        assert(text::is_control(value[i]));
    }
}

/// Rotation identities are plain texts, however they are given, and show the
/// text they were made of.
pub proof fn law_rotation_identities_are_plain_texts(
    value: &str,
    owned: String,
    reference: RotationId,
    r: Result<RotationId, RotationModelError>,
    s: Result<RotationId, RotationModelError>,
    shown: &str,
)
    requires
        call_ensures(<RotationId as TryFrom<&str>>::try_from, (value,), r),
        call_ensures(<RotationId as TryFrom<String>>::try_from, (owned,), s),
        call_ensures(RotationId::expose, (&reference,), shown),
    ensures
        referred(value@, "rotation_id"@, r, r->Ok_0@),
        referred(owned@, "rotation_id"@, s, s->Ok_0@),
        shown@ == reference@,
        shows(shown@) && plain(shown@),
{
    lemma_reference(value@);
    lemma_reference(owned@);
    lemma_reference(shown@);
}

/// Request identities are plain texts, however they are given, and show the
/// text they were made of.
pub proof fn law_request_identities_are_plain_texts(
    value: &str,
    owned: String,
    reference: RequestId,
    r: Result<RequestId, RotationModelError>,
    s: Result<RequestId, RotationModelError>,
    shown: &str,
)
    requires
        call_ensures(<RequestId as TryFrom<&str>>::try_from, (value,), r),
        call_ensures(<RequestId as TryFrom<String>>::try_from, (owned,), s),
        call_ensures(RequestId::expose, (&reference,), shown),
    ensures
        referred(value@, "request_id"@, r, r->Ok_0@),
        referred(owned@, "request_id"@, s, s->Ok_0@),
        shown@ == reference@,
        shows(shown@) && plain(shown@),
{
    lemma_reference(value@);
    lemma_reference(owned@);
    lemma_reference(shown@);
}

/// Correlation identities are plain texts, however they are given, and show the
/// text they were made of.
pub proof fn law_correlation_identities_are_plain_texts(
    value: &str,
    owned: String,
    reference: CorrelationId,
    r: Result<CorrelationId, RotationModelError>,
    s: Result<CorrelationId, RotationModelError>,
    shown: &str,
)
    requires
        call_ensures(<CorrelationId as TryFrom<&str>>::try_from, (value,), r),
        call_ensures(<CorrelationId as TryFrom<String>>::try_from, (owned,), s),
        call_ensures(CorrelationId::expose, (&reference,), shown),
    ensures
        referred(value@, "correlation_id"@, r, r->Ok_0@),
        referred(owned@, "correlation_id"@, s, s->Ok_0@),
        shown@ == reference@,
        shows(shown@) && plain(shown@),
{
    lemma_reference(value@);
    lemma_reference(owned@);
    lemma_reference(shown@);
}

/// Tenant references are plain texts, however they are given, and show the
/// text they were made of.
pub proof fn law_tenant_references_are_plain_texts(
    value: &str,
    owned: String,
    reference: TenantRef,
    r: Result<TenantRef, RotationModelError>,
    s: Result<TenantRef, RotationModelError>,
    shown: &str,
)
    requires
        call_ensures(<TenantRef as TryFrom<&str>>::try_from, (value,), r),
        call_ensures(<TenantRef as TryFrom<String>>::try_from, (owned,), s),
        call_ensures(TenantRef::expose, (&reference,), shown),
    ensures
        referred(value@, "tenant_ref"@, r, r->Ok_0@),
        referred(owned@, "tenant_ref"@, s, s->Ok_0@),
        shown@ == reference@,
        shows(shown@) && plain(shown@),
{
    lemma_reference(value@);
    lemma_reference(owned@);
    lemma_reference(shown@);
}

/// Device references are plain texts, however they are given, and show the
/// text they were made of.
pub proof fn law_device_references_are_plain_texts(
    value: &str,
    owned: String,
    reference: DeviceRef,
    r: Result<DeviceRef, RotationModelError>,
    s: Result<DeviceRef, RotationModelError>,
    shown: &str,
)
    requires
        call_ensures(<DeviceRef as TryFrom<&str>>::try_from, (value,), r),
        call_ensures(<DeviceRef as TryFrom<String>>::try_from, (owned,), s),
        call_ensures(DeviceRef::expose, (&reference,), shown),
    ensures
        referred(value@, "device_ref"@, r, r->Ok_0@),
        referred(owned@, "device_ref"@, s, s->Ok_0@),
        shown@ == reference@,
        shows(shown@) && plain(shown@),
{
    lemma_reference(value@);
    lemma_reference(owned@);
    lemma_reference(shown@);
}

/// Principal references are plain texts, however they are given, and show the
/// text they were made of.
pub proof fn law_principal_references_are_plain_texts(
    value: &str,
    owned: String,
    reference: PrincipalRef,
    r: Result<PrincipalRef, RotationModelError>,
    s: Result<PrincipalRef, RotationModelError>,
    shown: &str,
)
    requires
        call_ensures(<PrincipalRef as TryFrom<&str>>::try_from, (value,), r),
        call_ensures(<PrincipalRef as TryFrom<String>>::try_from, (owned,), s),
        call_ensures(PrincipalRef::expose, (&reference,), shown),
    ensures
        referred(value@, "principal_ref"@, r, r->Ok_0@),
        referred(owned@, "principal_ref"@, s, s->Ok_0@),
        shown@ == reference@,
        shows(shown@) && plain(shown@),
{
    lemma_reference(value@);
    lemma_reference(owned@);
    lemma_reference(shown@);
}

/// Authorization receipt references are plain texts, however they are given, and show the
/// text they were made of.
pub proof fn law_authorization_receipt_references_are_plain_texts(
    value: &str,
    owned: String,
    reference: AuthorizationReceiptRef,
    r: Result<AuthorizationReceiptRef, RotationModelError>,
    s: Result<AuthorizationReceiptRef, RotationModelError>,
    shown: &str,
)
    requires
        call_ensures(<AuthorizationReceiptRef as TryFrom<&str>>::try_from, (value,), r),
        call_ensures(<AuthorizationReceiptRef as TryFrom<String>>::try_from, (owned,), s),
        call_ensures(AuthorizationReceiptRef::expose, (&reference,), shown),
    ensures
        referred(value@, "authorization_receipt_ref"@, r, r->Ok_0@),
        referred(owned@, "authorization_receipt_ref"@, s, s->Ok_0@),
        shown@ == reference@,
        shows(shown@) && plain(shown@),
{
    lemma_reference(value@);
    lemma_reference(owned@);
    lemma_reference(shown@);
}

/// Command references are plain texts, however they are given, and show the
/// text they were made of.
pub proof fn law_command_references_are_plain_texts(
    value: &str,
    owned: String,
    reference: CommandRef,
    r: Result<CommandRef, RotationModelError>,
    s: Result<CommandRef, RotationModelError>,
    shown: &str,
)
    requires
        call_ensures(<CommandRef as TryFrom<&str>>::try_from, (value,), r),
        call_ensures(<CommandRef as TryFrom<String>>::try_from, (owned,), s),
        call_ensures(CommandRef::expose, (&reference,), shown),
    ensures
        referred(value@, "command_ref"@, r, r->Ok_0@),
        referred(owned@, "command_ref"@, s, s->Ok_0@),
        shown@ == reference@,
        shows(shown@) && plain(shown@),
{
    lemma_reference(value@);
    lemma_reference(owned@);
    lemma_reference(shown@);
}

/// Event references are plain texts, however they are given, and show the
/// text they were made of.
pub proof fn law_event_references_are_plain_texts(
    value: &str,
    owned: String,
    reference: EventRef,
    r: Result<EventRef, RotationModelError>,
    s: Result<EventRef, RotationModelError>,
    shown: &str,
)
    requires
        call_ensures(<EventRef as TryFrom<&str>>::try_from, (value,), r),
        call_ensures(<EventRef as TryFrom<String>>::try_from, (owned,), s),
        call_ensures(EventRef::expose, (&reference,), shown),
    ensures
        referred(value@, "event_ref"@, r, r->Ok_0@),
        referred(owned@, "event_ref"@, s, s->Ok_0@),
        shown@ == reference@,
        shows(shown@) && plain(shown@),
{
    lemma_reference(value@);
    lemma_reference(owned@);
    lemma_reference(shown@);
}

/// Ingress envelope references are plain texts, however they are given, and show the
/// text they were made of.
pub proof fn law_ingress_envelope_references_are_plain_texts(
    value: &str,
    owned: String,
    reference: IngressEnvelopeRef,
    r: Result<IngressEnvelopeRef, RotationModelError>,
    s: Result<IngressEnvelopeRef, RotationModelError>,
    shown: &str,
)
    requires
        call_ensures(<IngressEnvelopeRef as TryFrom<&str>>::try_from, (value,), r),
        call_ensures(<IngressEnvelopeRef as TryFrom<String>>::try_from, (owned,), s),
        call_ensures(IngressEnvelopeRef::expose, (&reference,), shown),
    ensures
        referred(value@, "ingress_envelope_ref"@, r, r->Ok_0@),
        referred(owned@, "ingress_envelope_ref"@, s, s->Ok_0@),
        shown@ == reference@,
        shows(shown@) && plain(shown@),
{
    lemma_reference(value@);
    lemma_reference(owned@);
    lemma_reference(shown@);
}

/// State hashes are plain texts, however they are given, and show the
/// text they were made of.
pub proof fn law_state_hashes_are_plain_texts(
    value: &str,
    owned: String,
    reference: StateHash,
    r: Result<StateHash, RotationModelError>,
    s: Result<StateHash, RotationModelError>,
    shown: &str,
)
    requires
        call_ensures(<StateHash as TryFrom<&str>>::try_from, (value,), r),
        call_ensures(<StateHash as TryFrom<String>>::try_from, (owned,), s),
        call_ensures(StateHash::expose, (&reference,), shown),
    ensures
        referred(value@, "state_hash"@, r, r->Ok_0@),
        referred(owned@, "state_hash"@, s, s->Ok_0@),
        shown@ == reference@,
        shows(shown@) && plain(shown@),
{
    lemma_reference(value@);
    lemma_reference(owned@);
    lemma_reference(shown@);
}

/// Artifact digests are plain texts, however they are given, and show the
/// text they were made of.
pub proof fn law_artifact_digests_are_plain_texts(
    value: &str,
    owned: String,
    reference: ArtifactDigest,
    r: Result<ArtifactDigest, RotationModelError>,
    s: Result<ArtifactDigest, RotationModelError>,
    shown: &str,
)
    requires
        call_ensures(<ArtifactDigest as TryFrom<&str>>::try_from, (value,), r),
        call_ensures(<ArtifactDigest as TryFrom<String>>::try_from, (owned,), s),
        call_ensures(ArtifactDigest::expose, (&reference,), shown),
    ensures
        referred(value@, "artifact_digest"@, r, r->Ok_0@),
        referred(owned@, "artifact_digest"@, s, s->Ok_0@),
        shown@ == reference@,
        shows(shown@) && plain(shown@),
{
    lemma_reference(value@);
    lemma_reference(owned@);
    lemma_reference(shown@);
}

} // verus!
