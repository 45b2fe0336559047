//! The loopback callback of a login: how a browser's request is gathered,
//! what it says, and what the browser is told.

use crate::failure;
use crate::failure::{AppError, ErrorStage};
use crate::locator;
use crate::locator::{Locator, LocatorView};
use crate::text;
use vstd::prelude::*;
use vstd::string::*;
use vstd::utf8::*;

verus! {

/// No callback request is longer than this.
pub const MAX_CALLBACK_BYTES: usize = 8192;

/// No single read asks for more than this.
pub const CALLBACK_CHUNK_BYTES: usize = 1024;

/// An empty line closes the headers somewhere in the bytes.
pub open spec fn headers_closed(bytes: Seq<u8>) -> bool {
    exists|i: int| 0 <= i && i + 4 <= bytes.len() && #[trigger] closes_headers(bytes, i)
}

/// The four bytes at a place are two line breaks.
pub open spec fn closes_headers(bytes: Seq<u8>, i: int) -> bool {
    bytes[i] == 13 && bytes[i + 1] == 10 && bytes[i + 2] == 13 && bytes[i + 3] == 10
}

fn has_closed_headers(bytes: &Vec<u8>) -> (r: bool)
    ensures
        r == headers_closed(bytes@),
{
    let count: usize = bytes.len();
    if count < 4 {
        return false;
    }
    let mut i: usize = 0;
    while i <= count - 4
        invariant
            count == bytes@.len(),
            4 <= count,
            i <= count - 3,
            forall|j: int| 0 <= j < i ==> !#[trigger] closes_headers(bytes@, j),
        decreases count - i,
    {
        if bytes[i] == 13 && bytes[i + 1] == 10 && bytes[i + 2] == 13 && bytes[i + 3] == 10 {
            assert(closes_headers(bytes@, i as int));
            return true;
        }
        assert(!closes_headers(bytes@, i as int));
        i = i + 1;
    }
    false
}

/// What to do after a read.
#[derive(Clone, Copy, Debug, PartialEq, Eq, Structural)]
pub enum ReadStep {
    /// The request's headers are complete.
    Complete,
    /// Read again.
    More,
    /// The connection ended, or filled its budget, without complete headers.
    Invalid,
}

/// The bytes of one callback connection so far.
#[derive(Debug)]
pub struct CallbackReader {
    request: Vec<u8>,
}

impl View for CallbackReader {
    type V = Seq<u8>;

    closed spec fn view(&self) -> Seq<u8> {
        self.request@
    }
}

/// How many bytes may be read next.
pub open spec fn room_after(read: nat) -> nat {
    if read >= MAX_CALLBACK_BYTES {
        0
    } else if MAX_CALLBACK_BYTES - read < CALLBACK_CHUNK_BYTES {
        (MAX_CALLBACK_BYTES - read) as nat
    } else {
        CALLBACK_CHUNK_BYTES as nat
    }
}

/// What follows a read of a chunk that left these bytes.
pub open spec fn step_after(request: Seq<u8>, chunk: Seq<u8>) -> ReadStep {
    if chunk.len() == 0 {
        ReadStep::Invalid
    } else if headers_closed(request) {
        ReadStep::Complete
    } else if request.len() >= MAX_CALLBACK_BYTES {
        ReadStep::Invalid
    } else {
        ReadStep::More
    }
}

impl CallbackReader {
    #[verifier::type_invariant]
    spec fn inv(self) -> bool {
        self.request@.len() <= MAX_CALLBACK_BYTES
    }

    #[must_use]
    pub fn new() -> (r: Self)
        ensures
            r@ == Seq::<u8>::empty(),
    {
        CallbackReader { request: Vec::new() }
    }

    /// How many bytes to read next.
    #[must_use]
    pub fn room(&self) -> (r: usize)
        ensures
            r == room_after(self@.len()),
            self@.len() + r <= MAX_CALLBACK_BYTES,
    {
        proof {
            use_type_invariant(self);
        }
        let remaining: usize = MAX_CALLBACK_BYTES - self.request.len();
        if remaining < CALLBACK_CHUNK_BYTES {
            remaining
        } else {
            CALLBACK_CHUNK_BYTES
        }
    }

    /// Takes what one read returned.
    pub fn take(&mut self, chunk: &[u8]) -> (r: ReadStep)
        requires
            chunk@.len() <= room_after(old(self)@.len()),
        ensures
            final(self)@ == old(self)@ + chunk@,
            r == step_after(final(self)@, chunk@),
    {
        proof {
            use_type_invariant(&*self);
        }
        let mut request: Vec<u8> = Vec::new();
        std::mem::swap(&mut request, &mut self.request);
        text::push_bytes(&mut request, chunk);
        let closed = has_closed_headers(&request);
        let full = request.len() >= MAX_CALLBACK_BYTES;
        self.request = request;
        if chunk.len() == 0 {
            ReadStep::Invalid
        } else if closed {
            ReadStep::Complete
        } else if full {
            ReadStep::Invalid
        } else {
            ReadStep::More
        }
    }

    #[must_use]
    pub fn request(&self) -> (r: &[u8])
        ensures
            r@ == self@,
    {
        self.request.as_slice()
    }
}

/// Why a callback connection was given up.
#[must_use]
pub fn invalid_callback() -> (r: AppError)
    ensures
        r@ == failure::auth_failure("callback_invalid"@).at(ErrorStage::Callback),
{
    AppError::auth("callback_invalid").at(ErrorStage::Callback)
}

/// What the authorization server had the browser say.
#[derive(Debug)]
pub enum CallbackOutcome {
    Code(String),
    Rejected,
}

pub enum CallbackOutcomeView {
    Code(Seq<char>),
    Rejected,
}

impl View for CallbackOutcome {
    type V = CallbackOutcomeView;

    open spec fn view(&self) -> CallbackOutcomeView {
        match self {
            CallbackOutcome::Code(code) => CallbackOutcomeView::Code(code@),
            CallbackOutcome::Rejected => CallbackOutcomeView::Rejected,
        }
    }
}

/// The view of an outcome that was or was not understood.
pub open spec fn optional_outcome(outcome: Option<CallbackOutcome>) -> Option<
    CallbackOutcomeView,
> {
    match outcome {
        Some(outcome) => Some(outcome@),
        None => None,
    }
}

/// The values that a query gives to a key, in order.
pub open spec fn values(pairs: Seq<(Seq<char>, Seq<char>)>, key: Seq<char>) -> Seq<Seq<char>>
    decreases pairs.len(),
{
    if pairs.len() == 0 {
        Seq::empty()
    } else {
        let before = values(pairs.drop_last(), key);
        if pairs.last().0 == key {
            before.push(pairs.last().1)
        } else {
            before
        }
    }
}

fn values_of(pairs: &Vec<(String, String)>, key: &str) -> (r: Vec<String>)
    ensures
        text::texts(r@) == values(locator::pair_texts(pairs@), key@),
{
    let mut out: Vec<String> = Vec::new();
    let ghost all = locator::pair_texts(pairs@);
    let mut i: usize = 0;
    assert(text::texts(out@) =~= values(all.take(0), key@));
    while i < pairs.len()
        invariant
            i <= pairs@.len(),
            all == locator::pair_texts(pairs@),
            text::texts(out@) == values(all.take(i as int), key@),
        decreases pairs@.len() - i,
    {
        let ghost before = out@;
        assert(all.take(i + 1).drop_last() =~= all.take(i as int));
        assert(all.take(i + 1).last() == (pairs@[i as int].0@, pairs@[i as int].1@));
        if text::same(pairs[i].0.as_str(), key) {
            out.push(pairs[i].1.clone());
            assert(text::texts(out@) =~= text::texts(before).push(pairs@[i as int].1@));
        }
        i = i + 1;
    }
    assert(all.take(all.len() as int) =~= all);
    out
}

/// The callback stands where the browser was told to return to.
pub open spec fn returns_to(callback: LocatorView, redirect: LocatorView) -> bool {
    &&& callback.scheme == redirect.scheme
    &&& callback.host == redirect.host
    &&& callback.port == redirect.port
    &&& callback.path == redirect.path
    &&& callback.fragment is None
}

/// What a callback with these query pairs comes to. Only the one request
/// that carries the expected state, once, is an answer at all.
pub open spec fn outcome_of(
    callback: LocatorView,
    pairs: Seq<(Seq<char>, Seq<char>)>,
    redirect: LocatorView,
    expected_state: Seq<char>,
) -> Option<CallbackOutcomeView> {
    if !returns_to(callback, redirect) {
        None
    } else if values(pairs, "state"@) != seq![expected_state] {
        None
    } else if values(pairs, "error"@).len() > 0 {
        Some(CallbackOutcomeView::Rejected)
    } else {
        let codes = values(pairs, "code"@);
        if codes.len() == 1 && codes[0].len() > 0 {
            Some(CallbackOutcomeView::Code(codes[0]))
        } else {
            None
        }
    }
}

fn same_optional(a: &Option<String>, b: &Option<String>) -> (r: bool)
    ensures
        r == (locator::optional_text(*a) == locator::optional_text(*b)),
{
    match (a, b) {
        (Some(a), Some(b)) => text::same(a.as_str(), b.as_str()),
        (None, None) => true,
        _ => false,
    }
}

fn same_port(a: Option<u16>, b: Option<u16>) -> (r: bool)
    ensures
        r == (a == b),
{
    match (a, b) {
        (Some(a), Some(b)) => a == b,
        (None, None) => true,
        _ => false,
    }
}

/// Judges a callback by where it stands and the pairs of its query.
pub fn judge_callback(
    callback: &Locator,
    pairs: &Vec<(String, String)>,
    redirect: &Locator,
    expected_state: &str,
) -> (r: Option<CallbackOutcome>)
    ensures
        optional_outcome(r) == outcome_of(
            callback@,
            locator::pair_texts(pairs@),
            redirect@,
            expected_state@,
        ),
{
    if !text::same(callback.scheme.as_str(), redirect.scheme.as_str()) || !same_optional(
        &callback.host,
        &redirect.host,
    ) || !same_port(callback.port, redirect.port) || !text::same(
        callback.path.as_str(),
        redirect.path.as_str(),
    ) || callback.fragment.is_some() {
        return None;
    }
    let states = values_of(pairs, "state");
    let ghost named = values(locator::pair_texts(pairs@), "state"@);
    assert(named.len() == states@.len());
    if states.len() != 1 {
        return None;
    }
    assert(named[0] == states@[0]@);
    if !text::same(states[0].as_str(), expected_state) {
        assert(named[0] != expected_state@);
        return None;
    }
    assert(named =~= seq![expected_state@]);
    let errors = values_of(pairs, "error");
    assert(values(locator::pair_texts(pairs@), "error"@).len() == errors@.len());
    if errors.len() > 0 {
        return Some(CallbackOutcome::Rejected);
    }
    let codes = values_of(pairs, "code");
    assert(values(locator::pair_texts(pairs@), "code"@).len() == codes@.len());
    if codes.len() != 1 {
        return None;
    }
    assert(values(locator::pair_texts(pairs@), "code"@)[0] == codes@[0]@);
    if codes[0].as_str().is_empty() {
        return None;
    }
    Some(CallbackOutcome::Code(codes[0].clone()))
}

/// The target of a request line: three words, for a `GET` of an absolute
/// path over HTTP/1.1.
pub open spec fn request_target(line: Seq<char>) -> Option<Seq<char>> {
    let words = text::words(line);
    if words.len() == 3 && words[0] == "GET"@ && words[2] == "HTTP/1.1"@ && text::starts_with(
        words[1],
        "/"@,
    ) && !text::starts_with(words[1], "//"@) {
        Some(words[1])
    } else {
        None
    }
}

fn read_target(line: &str) -> (r: Option<String>)
    ensures
        locator::optional_text(r) == request_target(line@),
{
    let words = text::split_words(line);
    let ghost listed = text::words(line@);
    assert(listed.len() == words@.len());
    if words.len() != 3 {
        return None;
    }
    assert(listed[0] == words@[0]@ && listed[1] == words@[1]@ && listed[2] == words@[2]@);
    let target = text::chars_of(words[1].as_str());
    if text::same(words[0].as_str(), "GET") && text::same(words[2].as_str(), "HTTP/1.1")
        && text::has_prefix(target.as_slice(), text::chars_of("/").as_slice())
        && !text::has_prefix(target.as_slice(), text::chars_of("//").as_slice()) {
        Some(words[1].clone())
    } else {
        None
    }
}

/// The target that a request asks for, if its first line is a request line.
pub open spec fn target_of(request: Seq<u8>) -> Option<Seq<char>> {
    if valid_utf8(request) {
        request_target(text::first_line(decode_utf8(request)))
    } else {
        None
    }
}

/// Reads the target of a request.
pub fn callback_target(request: &[u8]) -> (r: Option<String>)
    ensures
        locator::optional_text(r) == target_of(request@),
{
    match text::utf8_text(request) {
        Some(content) => read_target(text::take_first_line(content.as_str()).as_str()),
        None => None,
    }
}

/// The pairs of a locator's query.
pub open spec fn pairs_of(locator: LocatorView) -> Seq<(Seq<char>, Seq<char>)> {
    locator::form_pairs(
        match locator.query {
            Some(query) => query,
            None => ""@,
        },
    )
}

/// What a request to the callback comes to, if it is an answer at all.
pub fn parse_callback_request(request: &[u8], redirect: &Locator, expected_state: &str) -> (r:
    Option<CallbackOutcome>)
    ensures
        optional_outcome(r) == match target_of(request@) {
            Some(target) => match locator::locator_joined(redirect@.text, target) {
                Some(callback) => outcome_of(
                    callback,
                    pairs_of(callback),
                    redirect@,
                    expected_state@,
                ),
                None => None,
            },
            None => None,
        },
{
    let target = match callback_target(request) {
        Some(target) => target,
        None => {
            return None;
        },
    };
    let callback = match locator::join(redirect.text.as_str(), target.as_str()) {
        Some(callback) => callback,
        None => {
            return None;
        },
    };
    let pairs = match &callback.query {
        Some(query) => locator::query_pairs(query.as_str()),
        None => locator::query_pairs(""),
    };
    judge_callback(&callback, &pairs, redirect, expected_state)
}

/// A plain-text answer that closes the connection.
pub open spec fn page(status: Seq<char>, body: Seq<char>) -> Seq<char> {
    "HTTP/1.1 "@ + status + "\r\nContent-Type: text/plain\r\nContent-Length: "@ + text::decimal(
        encode_utf8(body).len(),
    ) + "\r\nConnection: close\r\n\r\n"@ + body
}

fn write_page(status: &str, body: &str) -> (r: String)
    ensures
        r@ == page(status@, body@),
{
    let length: usize = body.as_bytes().len();
    "HTTP/1.1 ".to_owned().concat(status).concat(
        "\r\nContent-Type: text/plain\r\nContent-Length: ",
    ).concat(text::decimal_text(length as u64).as_str()).concat(
        "\r\nConnection: close\r\n\r\n",
    ).concat(body)
}

/// What the browser is told, and whether the login goes on waiting.
#[derive(Debug)]
pub struct CallbackReply {
    pub page: String,
    /// The code, or why there is none; nothing while the login still waits.
    pub result: Option<Result<String, AppError>>,
}

/// Answers one callback connection.
pub fn reply(outcome: Option<CallbackOutcome>) -> (r: CallbackReply)
    ensures
        match optional_outcome(outcome) {
            Some(CallbackOutcomeView::Code(code)) => {
                &&& r.page@ == page("200 OK"@, "Authentication complete."@)
                &&& r.result matches Some(Ok(taken)) && taken@ == code
            },
            Some(CallbackOutcomeView::Rejected) => {
                &&& r.page@ == page("400 Bad Request"@, "Authentication rejected."@)
                &&& r.result matches Some(Err(error)) && error@ == failure::auth_failure(
                    "authorization_rejected"@,
                ).at(ErrorStage::Callback)
            },
            None => {
                &&& r.page@ == page("400 Bad Request"@, "Authentication ignored."@)
                &&& r.result is None
            },
        },
{
    match outcome {
        Some(CallbackOutcome::Code(code)) => CallbackReply {
            page: write_page("200 OK", "Authentication complete."),
            result: Some(Ok(code)),
        },
        Some(CallbackOutcome::Rejected) => CallbackReply {
            page: write_page("400 Bad Request", "Authentication rejected."),
            result: Some(
                Err(AppError::auth("authorization_rejected").at(ErrorStage::Callback)),
            ),
        },
        None => CallbackReply {
            page: write_page("400 Bad Request", "Authentication ignored."),
            result: None,
        },
    }
}

/// A request that does not carry the expected state exactly once changes
/// nothing: no code is taken from it, and no rejection either.
pub proof fn law_only_the_expected_state_is_answered(
    callback: LocatorView,
    pairs: Seq<(Seq<char>, Seq<char>)>,
    redirect: LocatorView,
    expected_state: Seq<char>,
)
    requires
        values(pairs, "state"@) != seq![expected_state] || !returns_to(callback, redirect),
    ensures
        outcome_of(callback, pairs, redirect, expected_state) is None,
{
}

/// A connection is read within its budget, and reading ends: a read that
/// asks for more has left room for it.
pub proof fn law_callback_reading_ends(before: Seq<u8>, chunk: Seq<u8>)
    requires
        before.len() <= MAX_CALLBACK_BYTES,
        chunk.len() <= room_after(before.len()),
        step_after(before + chunk, chunk) is More,
    ensures
        before.len() < (before + chunk).len() < MAX_CALLBACK_BYTES,
        room_after((before + chunk).len()) > 0,
{
}

} // verus!
