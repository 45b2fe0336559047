//! A product record and a product operation authored over values that the
//! platform has already parsed.

use vstd::prelude::*;
use vstd::string::*;

verus! {

/// How widely a value may be shown.
#[derive(Clone, Copy, Debug, PartialEq, Eq, Structural)]
pub enum DataClass {
    Public,
    Restricted,
}

/// Why an opaque cursor was refused.
#[derive(Clone, Copy, Debug, PartialEq, Eq, Structural)]
pub enum CursorError {
    /// It is malformed or too long.
    Invalid,
    /// It does not belong to this product scope any more.
    Stale,
}

/// The closed public error vocabulary, as far as this product uses it.
#[derive(Clone, Copy, Debug, PartialEq, Eq, Structural)]
pub enum SafeError {
    Forbidden,
    Internal,
}

/// Closed product-boundary rejection for foundation inputs.
#[derive(Clone, Copy, Debug, PartialEq, Eq, Structural)]
pub enum FoundationInputError {
    /// The absolute timestamp is outside the public wire range.
    Timepoint,
    /// The opaque cursor is malformed, oversized, or stale for this product scope.
    Cursor(CursorError),
    /// The data classification is not safe for this public projection.
    UnsafeData(SafeError),
}

pub struct RecordView {
    pub recorded_at: i64,
    pub next_cursor: Seq<char>,
    pub data_class: DataClass,
}

/// Product-owned record assembled exclusively from public foundation values.
#[derive(Debug, PartialEq, Eq)]
pub struct FoundationRecord {
    recorded_at: i64,
    next_cursor: String,
    data_class: DataClass,
}

impl View for FoundationRecord {
    type V = RecordView;

    closed spec fn view(&self) -> RecordView {
        RecordView {
            recorded_at: self.recorded_at,
            next_cursor: self.next_cursor@,
            data_class: self.data_class,
        }
    }
}

impl FoundationRecord {
    #[verifier::type_invariant]
    spec fn inv(self) -> bool {
        self.data_class == DataClass::Public
    }

    /// Returns the authority-free absolute timestamp supplied by the caller.
    #[must_use]
    pub fn recorded_at(&self) -> (r: i64)
        ensures
            r == self@.recorded_at,
    {
        self.recorded_at
    }

    /// Returns the opaque cursor without interpreting its contents.
    #[must_use]
    pub fn next_cursor(&self) -> (r: &str)
        ensures
            r@ == self@.next_cursor,
    {
        self.next_cursor.as_str()
    }

    /// Returns the closed data classification, which is always public.
    #[must_use]
    pub fn data_class(&self) -> (r: DataClass)
        ensures
            r == self@.data_class,
            r == DataClass::Public,
    {
        proof {
            use_type_invariant(self);
        }
        self.data_class
    }
}

/// The first thing wrong with the inputs of a record.
pub open spec fn record_error(
    recorded_at: Option<i64>,
    cursor: Option<Seq<char>>,
    data_class: DataClass,
    cursor_is_current: bool,
) -> Option<FoundationInputError> {
    if recorded_at is None {
        Some(FoundationInputError::Timepoint)
    } else if cursor is None {
        Some(FoundationInputError::Cursor(CursorError::Invalid))
    } else if !cursor_is_current {
        Some(FoundationInputError::Cursor(CursorError::Stale))
    } else if data_class != DataClass::Public {
        Some(FoundationInputError::UnsafeData(SafeError::Forbidden))
    } else {
        None
    }
}

/// Accepts public foundation values without acquiring clock, cursor, or
/// redaction authority. A timestamp or cursor that did not parse is absent.
pub fn accept_foundation_record(
    recorded_at: Option<i64>,
    cursor: Option<String>,
    data_class: DataClass,
    cursor_is_current: bool,
) -> (r: Result<FoundationRecord, FoundationInputError>)
    ensures
        match record_error(
            recorded_at,
            match cursor {
                Some(cursor) => Some(cursor@),
                None => None,
            },
            data_class,
            cursor_is_current,
        ) {
            Some(error) => r == Err::<FoundationRecord, FoundationInputError>(error),
            None => r is Ok && r->Ok_0@ == (RecordView {
                recorded_at: recorded_at->0,
                next_cursor: cursor->0@,
                data_class,
            }),
        },
{
    let recorded_at: i64 = match recorded_at {
        Some(seconds) => seconds,
        None => {
            return Err(FoundationInputError::Timepoint);
        },
    };
    let next_cursor = match cursor {
        Some(cursor) => cursor,
        None => {
            return Err(FoundationInputError::Cursor(CursorError::Invalid));
        },
    };
    if !cursor_is_current {
        return Err(FoundationInputError::Cursor(CursorError::Stale));
    }
    if data_class != DataClass::Public {
        return Err(FoundationInputError::UnsafeData(SafeError::Forbidden));
    }
    Ok(FoundationRecord { recorded_at, next_cursor, data_class })
}

/// Projects an opaque provider failure to the closed public error vocabulary.
/// The provider's value is ignored and cannot become a source or a message.
#[must_use]
pub fn project_provider_failure<E>(_error: &E) -> (r: SafeError)
    ensures
        r == SafeError::Internal,
{
    SafeError::Internal
}

/// A product-owned request.
#[derive(Debug, PartialEq, Eq)]
pub enum CreateWidgetRequest {
    Create { name: String },
    Fail,
    Wait,
}

/// What the platform's request context shows the handler. The kinds of
/// principals and of row scopes are the platform's own.
#[derive(Debug, PartialEq, Eq)]
pub struct WidgetContext<K, S> {
    pub tenant: Option<String>,
    pub request_id: String,
    pub principal_kind: K,
    pub row_scope: Option<S>,
    pub name_visible: bool,
    pub deadline_active: bool,
    pub cancellation_observed: bool,
}

/// Observable values read by the product handler.
#[derive(Debug, PartialEq, Eq)]
pub struct CreateWidgetResponse<K, S> {
    pub name: String,
    pub tenant: Option<String>,
    pub request_id: String,
    pub principal_kind: K,
    pub row_scope: Option<S>,
    pub name_visible: bool,
    pub deadline_active: bool,
    pub cancellation_observed: bool,
}

/// What the handler does with a request.
#[derive(Debug, PartialEq, Eq)]
pub enum WidgetStep<K, S> {
    Respond(CreateWidgetResponse<K, S>),
    /// Ends as a rejected request.
    Reject,
    /// Never answers of its own accord.
    Wait,
}

/// Product-owned implementation of [`CreateWidget`].
#[derive(Clone, Copy, Debug)]
pub struct CreateWidgetHandler;

impl CreateWidgetHandler {
    /// Decides on a request in its context; a response repeats the name and
    /// what the context shows.
    #[must_use]
    pub fn handle<K, S>(&self, request: CreateWidgetRequest, context: WidgetContext<K, S>) -> (r:
        WidgetStep<K, S>)
        ensures
            r == (match request {
                CreateWidgetRequest::Create { name } => WidgetStep::Respond(
                    CreateWidgetResponse {
                        name,
                        tenant: context.tenant,
                        request_id: context.request_id,
                        principal_kind: context.principal_kind,
                        row_scope: context.row_scope,
                        name_visible: context.name_visible,
                        deadline_active: context.deadline_active,
                        cancellation_observed: context.cancellation_observed,
                    },
                ),
                CreateWidgetRequest::Fail => WidgetStep::Reject,
                CreateWidgetRequest::Wait => WidgetStep::Wait,
            }),
    {
        match request {
            CreateWidgetRequest::Create { name } => WidgetStep::Respond(
                CreateWidgetResponse {
                    name,
                    tenant: context.tenant,
                    request_id: context.request_id,
                    principal_kind: context.principal_kind,
                    row_scope: context.row_scope,
                    name_visible: context.name_visible,
                    deadline_active: context.deadline_active,
                    cancellation_observed: context.cancellation_observed,
                },
            ),
            CreateWidgetRequest::Fail => WidgetStep::Reject,
            CreateWidgetRequest::Wait => WidgetStep::Wait,
        }
    }
}

/// Product-owned typed contract marker.
#[derive(Clone, Copy, Debug)]
pub struct CreateWidget;

impl CreateWidget {
    /// The contract's name, version and schema digest.
    #[must_use]
    pub fn descriptor() -> (r: (&'static str, u32, &'static str))
        ensures
            r.0@ == "widget.create"@,
            r.1 == 1,
            r.2@
                == "sha256:1c4b4d83a61c8bd2ca64ef5dba2bd38a8f2532056987877ea332d17c0b0d8c7b"@,
    {
        (
            "widget.create",
            1,
            "sha256:1c4b4d83a61c8bd2ca64ef5dba2bd38a8f2532056987877ea332d17c0b0d8c7b",
        )
    }
}

} // verus!
