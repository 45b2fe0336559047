//! Laws of the product's edges: what is observed of a request, what a
//! product record accepts, and what a product operation answers.

use crate::observation;
use crate::observation::{Bindings, ObservationLayer, ObservationService, ObservedHeaders};
use crate::platform;
use crate::platform::{
    CreateWidget, CreateWidgetHandler, CreateWidgetRequest, CursorError, DataClass,
    FoundationInputError, FoundationRecord, SafeError, WidgetContext, WidgetStep,
};
use vstd::prelude::*;
use vstd::utf8::*;

verus! {

/// The header stands here and nowhere before.
pub open spec fn stands_first(
    headers: Seq<(String, Vec<u8>)>,
    name: Seq<char>,
    i: int,
) -> bool {
    &&& 0 <= i < headers.len()
    &&& headers[i].0@ == name
    &&& forall|j: int| 0 <= j < i ==> (#[trigger] headers[j]).0@ != name
}

/// Bytes that can be read as visible ASCII text with tabs.
pub open spec fn reads_as_text(value: Seq<u8>) -> bool {
    &&& valid_utf8(value)
    &&& forall|i: int|
        0 <= i < value.len() ==> (#[trigger] value[i] == 9 || (0x20 <= value[i] && value[i]
            <= 0x7e))
}

/// What is observed is the text of the first header of the name, and nothing
/// where there is none or it does not read as text.
pub open spec fn observed_of(
    headers: Seq<(String, Vec<u8>)>,
    name: Seq<char>,
    observed: Option<String>,
) -> bool {
    forall|i: int| #[trigger]
        stands_first(headers, name, i) ==> {
            &&& observed is Some <==> reads_as_text(headers[i].1@)
            &&& observed is Some ==> observed->0@ == decode_utf8(headers[i].1@)
        }
}

/// No header bears the name.
pub open spec fn lacks(headers: Seq<(String, Vec<u8>)>, name: Seq<char>) -> bool {
    forall|i: int| 0 <= i < headers.len() ==> (#[trigger] headers[i]).0@ != name
}

proof fn lemma_observed(
    headers: Seq<(String, Vec<u8>)>,
    name: Seq<char>,
    observed: Option<String>,
)
    requires
        observation::observes(headers, name, observed),
    ensures
        observed_of(headers, name, observed),
        lacks(headers, name) ==> observed is None,
{
    assert forall|i: int| #[trigger] stands_first(headers, name, i) implies {
        &&& observed is Some <==> reads_as_text(headers[i].1@)
        &&& observed is Some ==> observed->0@ == decode_utf8(headers[i].1@)
    } by {
        assert(observation::is_first(headers, name, i));
        let value = headers[i].1@;
        assert(reads_as_text(value) <==> observation::is_text(value)) by {
            if reads_as_text(value) {
                assert forall|k: int| 0 <= k < value.len() implies observation::is_visible(
                    #[trigger] value[k],
                ) by {}
            }
            if observation::is_text(value) {
                assert forall|k: int| 0 <= k < value.len() implies (#[trigger] value[k] == 9 || (
                0x20 <= value[k] && value[k] <= 0x7e)) by {
                    assert(observation::is_visible(value[k]));
                }
            }
        }
        if observed is Some {
            let k = choose|k: int| #[trigger]
                observation::is_first(headers, name, k) && observation::is_text(headers[k].1@)
                    && observed->0@ == decode_utf8(headers[k].1@);
            if k < i {
                assert(headers[k].0@ != name);
            } else if i < k {
                assert(headers[i].0@ != name);
            }
        }
    }
}

/// Correlation, parent and state of a trace are observed each under its own
/// header.
pub proof fn law_headers_are_observed_by_name(
    headers: &[(String, Vec<u8>)],
    r: ObservedHeaders,
)
    requires
        call_ensures(observation::observe, (headers,), r),
    ensures
        observed_of(headers@, "x-correlation-id"@, r.correlation_id),
        observed_of(headers@, "traceparent"@, r.traceparent),
        observed_of(headers@, "tracestate"@, r.tracestate),
        lacks(headers@, "x-correlation-id"@) ==> r.correlation_id is None,
        lacks(headers@, "traceparent"@) ==> r.traceparent is None,
        lacks(headers@, "tracestate"@) ==> r.tracestate is None,
{
    lemma_observed(headers@, "x-correlation-id"@, r.correlation_id);
    lemma_observed(headers@, "traceparent"@, r.traceparent);
    lemma_observed(headers@, "tracestate"@, r.tracestate);
}

/// What was parsed is bound as it is; a trace state is bound only with its parent.
pub proof fn law_only_what_was_parsed_is_bound<C, P>(
    diagnostic: Option<C>,
    traceparent: Option<P>,
    tracestate: Option<String>,
    r: Bindings<C, P>,
)
    requires
        call_ensures(observation::bindings::<C, P>, (diagnostic, traceparent, tracestate), r),
    ensures
        r.diagnostic == diagnostic,
        traceparent is Some ==> r.parent == Some((traceparent->0, tracestate)),
        traceparent is None ==> r.parent is None,
{
}

/// A layer wraps a service that can be taken out again.
pub proof fn law_layers_keep_their_service<S>(
    layer: &ObservationLayer,
    inner: S,
    wrapped: ObservationService<S>,
    out: S,
)
    requires
        call_ensures(ObservationLayer::layer::<S>, (layer, inner), wrapped),
        call_ensures(ObservationService::<S>::into_inner, (wrapped,), out),
    ensures
        out == inner,
{
}

/// A record is accepted exactly of a time and a current cursor over public
/// data, and keeps them; the first thing wrong is told, in the order time,
/// cursor, its age, the data.
pub proof fn law_records_are_public_and_current(
    recorded_at: Option<i64>,
    cursor: Option<String>,
    data_class: DataClass,
    current: bool,
    r: Result<FoundationRecord, FoundationInputError>,
)
    requires
        call_ensures(
            platform::accept_foundation_record,
            (recorded_at, cursor, data_class, current),
            r,
        ),
    ensures
        r is Ok <==> recorded_at is Some && cursor is Some && current && data_class is Public,
        r is Ok ==> {
            &&& r->Ok_0@.recorded_at == recorded_at->0
            &&& r->Ok_0@.next_cursor == cursor->0@
            &&& r->Ok_0@.data_class is Public
        },
        recorded_at is None ==> r->Err_0 == FoundationInputError::Timepoint,
        recorded_at is Some && cursor is None ==> r->Err_0 == FoundationInputError::Cursor(
            CursorError::Invalid,
        ),
        recorded_at is Some && cursor is Some && !current ==> r->Err_0
            == FoundationInputError::Cursor(CursorError::Stale),
        recorded_at is Some && cursor is Some && current && data_class is Restricted ==> r->Err_0
            == FoundationInputError::UnsafeData(SafeError::Forbidden),
{
}

/// A record tells its time and cursor, and is public.
pub proof fn law_records_tell_what_they_keep(
    record: &FoundationRecord,
    recorded_at: i64,
    cursor: &str,
    data_class: DataClass,
)
    requires
        call_ensures(FoundationRecord::recorded_at, (record,), recorded_at),
        call_ensures(FoundationRecord::next_cursor, (record,), cursor),
        call_ensures(FoundationRecord::data_class, (record,), data_class),
    ensures
        recorded_at == record@.recorded_at,
        cursor@ == record@.next_cursor,
        data_class is Public,
        record@.data_class is Public,
{
}

/// Whatever a provider failed of, the public hears of an internal error.
pub proof fn law_provider_failures_stay_inside<E>(error: &E, r: SafeError)
    requires
        call_ensures(platform::project_provider_failure::<E>, (error,), r),
    ensures
        r is Internal,
{
}

/// A request to create is answered with the name and what the context shows;
/// one to fail is rejected, one to wait waits.
pub proof fn law_operations_answer_with_their_context<K, S>(
    handler: &CreateWidgetHandler,
    request: CreateWidgetRequest,
    context: WidgetContext<K, S>,
    r: WidgetStep<K, S>,
)
    requires
        call_ensures(CreateWidgetHandler::handle::<K, S>, (handler, request, context), r),
    ensures
        r is Respond <==> request is Create,
        r is Reject <==> request is Fail,
        r is Wait <==> request is Wait,
        request is Create ==> {
            &&& r->Respond_0.name == request->name
            &&& r->Respond_0.tenant == context.tenant
            &&& r->Respond_0.request_id == context.request_id
            &&& r->Respond_0.principal_kind == context.principal_kind
            &&& r->Respond_0.row_scope == context.row_scope
            &&& r->Respond_0.name_visible == context.name_visible
            &&& r->Respond_0.deadline_active == context.deadline_active
            &&& r->Respond_0.cancellation_observed == context.cancellation_observed
        },
{
}

/// The operation goes by its name, its first version, and a digest.
pub proof fn law_operations_describe_themselves(r: (&'static str, u32, &'static str))
    requires
        call_ensures(CreateWidget::descriptor, (), r),
    ensures
        r.0@ == "widget.create"@,
        r.1 == 1,
        crate::value_laws::names_digest(r.2@),
{
    reveal_strlit("sha256:1c4b4d83a61c8bd2ca64ef5dba2bd38a8f2532056987877ea332d17c0b0d8c7b");
    reveal_strlit("sha256:");
    assert(r.2@.take(7) =~= "sha256:"@);
}

} // verus!
