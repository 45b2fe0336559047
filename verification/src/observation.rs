//! Which of a request's headers are observed, and what is bound around the
//! request because of them.

use crate::text;
use vstd::prelude::*;
use vstd::string::*;
use vstd::utf8::*;

verus! {

/// A byte of visible ASCII text, or a tab.
pub open spec fn is_visible(byte: u8) -> bool {
    32 <= byte < 127 || byte == 9
}

/// The value reads as visible ASCII text.
pub open spec fn is_text(value: Seq<u8>) -> bool {
    &&& forall|i: int| 0 <= i < value.len() ==> is_visible(#[trigger] value[i])
    &&& valid_utf8(value)
}

/// Header `i` is the first one of its name.
pub open spec fn is_first(headers: Seq<(String, Vec<u8>)>, name: Seq<char>, i: int) -> bool {
    &&& 0 <= i < headers.len()
    &&& headers[i].0@ == name
    &&& forall|j: int| 0 <= j < i ==> (#[trigger] headers[j]).0@ != name
}

/// What is observed of a header: the text of its first value, if that is text.
pub open spec fn observes(
    headers: Seq<(String, Vec<u8>)>,
    name: Seq<char>,
    observed: Option<String>,
) -> bool {
    match observed {
        Some(value) => exists|i: int| #[trigger]
            is_first(headers, name, i) && is_text(headers[i].1@) && value@ == decode_utf8(
                headers[i].1@,
            ),
        None => forall|i: int| #[trigger] is_first(headers, name, i) ==> !is_text(headers[i].1@),
    }
}

fn visible(value: &[u8]) -> (r: bool)
    ensures
        r == (forall|i: int| 0 <= i < value@.len() ==> is_visible(#[trigger] value@[i])),
{
    let mut i: usize = 0;
    while i < value.len()
        invariant
            i <= value@.len(),
            forall|j: int| 0 <= j < i ==> is_visible(#[trigger] value@[j]),
        decreases value@.len() - i,
    {
        let byte: u8 = value[i];
        if !((32 <= byte && byte < 127) || byte == 9) {
            assert(!is_visible(value@[i as int]));
            return false;
        }
        i = i + 1;
    }
    true
}

fn header_text(headers: &[(String, Vec<u8>)], name: &str) -> (r: Option<String>)
    ensures
        observes(headers@, name@, r),
{
    let mut i: usize = 0;
    while i < headers.len()
        invariant
            i <= headers@.len(),
            forall|j: int| 0 <= j < i ==> (#[trigger] headers@[j]).0@ != name@,
        decreases headers@.len() - i,
    {
        if text::same(headers[i].0.as_str(), name) {
            let value = headers[i].1.as_slice();
            assert(is_first(headers@, name@, i as int));
            assert(forall|k: int| #[trigger] is_first(headers@, name@, k) ==> k == i);
            if visible(value) {
                return text::utf8_text(value);
            }
            return None;
        }
        i = i + 1;
    }
    None
}

/// The observed headers of a request.
#[derive(Debug)]
pub struct ObservedHeaders {
    pub correlation_id: Option<String>,
    pub traceparent: Option<String>,
    pub tracestate: Option<String>,
}

/// Reads the observed headers of a request. Header names are in lower case.
#[must_use]
pub fn observe(headers: &[(String, Vec<u8>)]) -> (r: ObservedHeaders)
    ensures
        observes(headers@, "x-correlation-id"@, r.correlation_id),
        observes(headers@, "traceparent"@, r.traceparent),
        observes(headers@, "tracestate"@, r.tracestate),
{
    ObservedHeaders {
        correlation_id: header_text(headers, "x-correlation-id"),
        traceparent: header_text(headers, "traceparent"),
        tracestate: header_text(headers, "tracestate"),
    }
}

/// What is bound around a request: a diagnostic context, and the remote
/// parent of its span with the state that came along.
#[derive(Debug)]
pub struct Bindings<C, P> {
    pub diagnostic: Option<C>,
    pub parent: Option<(P, Option<String>)>,
}

/// Observation binds only what was parsed; a trace state without a parent is dropped.
#[must_use]
pub fn bindings<C, P>(
    diagnostic: Option<C>,
    traceparent: Option<P>,
    tracestate: Option<String>,
) -> (r: Bindings<C, P>)
    ensures
        r.diagnostic == diagnostic,
        match traceparent {
            Some(parent) => r.parent == Some((parent, tracestate)),
            None => r.parent is None,
        },
{
    Bindings {
        diagnostic,
        parent: match traceparent {
            Some(parent) => Some((parent, tracestate)),
            None => None,
        },
    }
}

/// Binds diagnostic and trace context around one request.
#[derive(Clone, Copy, Debug)]
pub struct ObservationLayer;

impl Default for ObservationLayer {
    fn default() -> (r: Self)
        ensures
            r == ObservationLayer,
    {
        ObservationLayer
    }
}

impl ObservationLayer {
    /// Wraps a service.
    #[must_use]
    pub fn layer<S>(&self, inner: S) -> (r: ObservationService<S>)
        ensures
            r@ == inner,
    {
        ObservationService { inner }
    }
}

/// A service wrapped by [`ObservationLayer`].
#[derive(Debug)]
pub struct ObservationService<S> {
    inner: S,
}

impl<S> View for ObservationService<S> {
    type V = S;

    closed spec fn view(&self) -> S {
        self.inner
    }
}

impl<S> ObservationService<S> {
    /// The wrapped service.
    #[must_use]
    pub fn into_inner(self) -> (r: S)
        ensures
            r == self@,
    {
        self.inner
    }
}

} // verus!
