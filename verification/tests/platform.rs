use secure_device_rotation::observation::{bindings, observe, ObservationLayer};
use secure_device_rotation::platform::{
    accept_foundation_record, project_provider_failure, CreateWidget, CreateWidgetHandler,
    CreateWidgetRequest, CreateWidgetResponse, CursorError, DataClass, FoundationInputError,
    SafeError, WidgetContext, WidgetStep,
};

const TRACEPARENT: &str = "00-4bf92f3577b34da6a3ce929d0e0e4736-00f067aa0ba902b7-01";

fn headers(list: &[(&str, &[u8])]) -> Vec<(String, Vec<u8>)> {
    list.iter()
        .map(|(name, value)| ((*name).to_owned(), value.to_vec()))
        .collect()
}

#[test]
fn observed_headers_are_the_first_textual_values() {
    let observed = observe(&headers(&[
        ("host", b"localhost"),
        ("x-correlation-id", b"request-42"),
        ("x-correlation-id", b"request-43"),
        ("traceparent", TRACEPARENT.as_bytes()),
    ]));
    assert_eq!(observed.correlation_id.as_deref(), Some("request-42"));
    assert_eq!(observed.traceparent.as_deref(), Some(TRACEPARENT));
    assert_eq!(observed.tracestate, None);

    for value in [[0x7f_u8], [0x1f], [0x80], [0xff]] {
        let observed = observe(&headers(&[
            ("x-correlation-id", &value),
            ("x-correlation-id", b"later"),
        ]));
        assert_eq!(observed.correlation_id, None);
        let standard = http::HeaderValue::from_bytes(&value)
            .ok()
            .and_then(|value| value.to_str().ok().map(str::to_owned));
        assert_eq!(standard, None);
    }
    for value in [b"\t".as_slice(), b" ", b"~", b""] {
        let observed = observe(&headers(&[("tracestate", value)]));
        let standard = http::HeaderValue::from_bytes(value).expect("header");
        assert_eq!(
            observed.tracestate.as_deref(),
            Some(standard.to_str().expect("text"))
        );
    }
}

#[test]
fn a_trace_state_is_bound_only_with_its_parent() {
    let bound = bindings(Some(1), Some(2), Some("vendor=value".to_owned()));
    assert_eq!(bound.diagnostic, Some(1));
    assert_eq!(bound.parent, Some((2, Some("vendor=value".to_owned()))));
    let bound = bindings::<u8, u8>(None, None, Some("vendor=value".to_owned()));
    assert_eq!(bound.diagnostic, None);
    assert_eq!(bound.parent, None);
}

#[test]
fn the_observation_layer_wraps_the_service_it_is_given() {
    assert_eq!(ObservationLayer.layer("service").into_inner(), "service");
}

#[test]
fn foundation_records_are_public_current_and_well_formed() {
    let accept = |seconds, cursor: Option<&str>, class, current| {
        accept_foundation_record(seconds, cursor.map(str::to_owned), class, current)
    };
    let record = accept(Some(7), Some("cursor"), DataClass::Public, true).expect("record");
    assert_eq!(record.recorded_at(), 7);
    assert_eq!(record.next_cursor(), "cursor");
    assert_eq!(record.data_class(), DataClass::Public);
    for (seconds, cursor, class, current, expected) in [
        (
            None,
            None,
            DataClass::Restricted,
            false,
            FoundationInputError::Timepoint,
        ),
        (
            Some(7),
            None,
            DataClass::Restricted,
            false,
            FoundationInputError::Cursor(CursorError::Invalid),
        ),
        (
            Some(7),
            Some("cursor"),
            DataClass::Restricted,
            false,
            FoundationInputError::Cursor(CursorError::Stale),
        ),
        (
            Some(7),
            Some("cursor"),
            DataClass::Restricted,
            true,
            FoundationInputError::UnsafeData(SafeError::Forbidden),
        ),
    ] {
        assert_eq!(accept(seconds, cursor, class, current), Err(expected));
    }
}

#[test]
fn provider_failures_project_to_one_closed_error() {
    assert_eq!(
        project_provider_failure(&"provider password"),
        SafeError::Internal
    );
}

fn context() -> WidgetContext<&'static str, &'static str> {
    WidgetContext {
        tenant: Some("11111111-1111-4111-8111-111111111111".to_owned()),
        request_id: "request-2108".to_owned(),
        principal_kind: "service",
        row_scope: Some("tenant"),
        name_visible: true,
        deadline_active: true,
        cancellation_observed: false,
    }
}

#[test]
fn authored_contract_reads_the_context_view() {
    let step = CreateWidgetHandler.handle(
        CreateWidgetRequest::Create {
            name: "external-widget".to_owned(),
        },
        context(),
    );
    assert_eq!(
        step,
        WidgetStep::Respond(CreateWidgetResponse {
            name: "external-widget".to_owned(),
            tenant: Some("11111111-1111-4111-8111-111111111111".to_owned()),
            request_id: "request-2108".to_owned(),
            principal_kind: "service",
            row_scope: Some("tenant"),
            name_visible: true,
            deadline_active: true,
            cancellation_observed: false,
        })
    );
    assert_eq!(
        CreateWidgetHandler.handle(CreateWidgetRequest::Fail, context()),
        WidgetStep::Reject
    );
    assert_eq!(
        CreateWidgetHandler.handle(CreateWidgetRequest::Wait, context()),
        WidgetStep::Wait
    );
}

#[test]
fn the_contract_descriptor_is_fixed() {
    assert_eq!(
        CreateWidget::descriptor(),
        (
            "widget.create",
            1,
            "sha256:1c4b4d83a61c8bd2ca64ef5dba2bd38a8f2532056987877ea332d17c0b0d8c7b"
        )
    );
}
