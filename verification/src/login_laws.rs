//! Laws of a login: which locators are talked to, which callback is an
//! answer, what each step asks for, and which token ends it.

use crate::callback;
use crate::callback::{CallbackOutcome, CallbackReader, CallbackReply, ReadStep};
use crate::control_laws::{fails, input_fails};
use crate::failure::{AppError, ErrorClass, ErrorStage};
use crate::locator;
use crate::locator::{Locator, LocatorView};
use crate::text;
use vstd::prelude::*;
use vstd::utf8::*;

verus! {

/// A host in the loopback block.
pub open spec fn loops_back(host: Seq<char>) -> bool {
    exists|b: u8, c: u8, d: u8|
        host == #[trigger] locator::loopback_text(b, c, d) && host == "127."@ + text::decimal(
            b as nat,
        ) + "."@ + text::decimal(c as nat) + "."@ + text::decimal(d as nat)
}

pub(crate) proof fn lemma_loops_back(host: Seq<char>)
    ensures
        loops_back(host) <==> locator::is_loopback(host),
{
    reveal_strlit("127.");
    reveal_strlit(".");
    assert("127."@ =~= seq!['1', '2', '7', '.']);
    assert("."@ =~= seq!['.']);
    if locator::is_loopback(host) {
        let (b, c, d) = choose|b: u8, c: u8, d: u8|
            host == #[trigger] locator::loopback_text(b, c, d);
        assert(host == locator::loopback_text(b, c, d));
    }
}

/// A host loops back exactly if it is `127.` and three octets in decimal.
pub proof fn law_loopback_hosts_are_in_the_block(host: &str, r: bool)
    requires
        call_ensures(locator::loopback_host, (host,), r),
    ensures
        r <==> loops_back(host@),
{
    lemma_loops_back(host@);
}

/// A locator that may be talked to: over TLS, or where it is allowed in
/// plain text to this machine.
pub open spec fn guarded(url: LocatorView, allow_loopback_http: bool) -> bool {
    ||| url.scheme == "https"@
    ||| {
        &&& allow_loopback_http
        &&& url.scheme == "http"@
        &&& url.host is Some
        &&& loops_back(url.host->0)
    }
}

pub(crate) proof fn lemma_guarded(url: LocatorView, allow: bool)
    ensures
        guarded(url, allow) <==> locator::is_secure(url, allow),
{
    if url.host is Some {
        lemma_loops_back(url.host->0);
    }
}

/// Nothing is reached in plain text but this machine, and that only where it
/// is allowed.
pub proof fn law_plain_text_stays_on_the_machine(
    url: &Locator,
    allow_loopback_http: bool,
    r: Result<(), AppError>,
)
    requires
        call_ensures(locator::secure_remote_url, (url, allow_loopback_http), r),
    ensures
        r is Ok <==> guarded(url@, allow_loopback_http),
        r is Err ==> input_fails(r->Err_0, "plaintext_remote_forbidden"@),
{
    lemma_guarded(url@, allow_loopback_http);
}

/// The service's locator passes exactly if it is a TLS origin; plain text is
/// told before anything else.
pub proof fn law_services_are_origins(url: &Locator, r: Result<(), AppError>)
    requires
        call_ensures(locator::validate_rss_base_url, (url,), r),
    ensures
        r is Ok <==> crate::control_laws::serves(*url),
        url.scheme@ != "https"@ ==> input_fails(r->Err_0, "plaintext_remote_forbidden"@),
        url.scheme@ == "https"@ && r is Err ==> input_fails(
            r->Err_0,
            "rss_base_url_must_be_origin"@,
        ),
{
}

/// The path with its closing slashes taken off and one put back.
pub open spec fn closed_once(path: Seq<char>, closed: Seq<char>) -> bool {
    &&& 1 <= closed.len() <= path.len() + 1
    &&& closed.last() == '/'
    &&& closed.drop_last() == path.take(closed.len() - 1)
    &&& closed.len() > 1 ==> closed[closed.len() - 2] != '/'
    &&& forall|i: int| closed.len() - 1 <= i < path.len() ==> #[trigger] path[i] == '/'
}

proof fn lemma_trimmed(path: Seq<char>)
    ensures
        ({
            let kept = text::trimmed_end(path, '/');
            &&& kept.len() <= path.len()
            &&& kept == path.take(kept.len() as int)
            &&& kept.len() > 0 ==> kept.last() != '/'
            &&& forall|i: int| kept.len() <= i < path.len() ==> #[trigger] path[i] == '/'
        }),
    decreases path.len(),
{
    let kept = text::trimmed_end(path, '/');
    if path.len() > 0 && path.last() == '/' {
        lemma_trimmed(path.drop_last());
        assert(kept =~= path.take(kept.len() as int));
        assert forall|i: int| kept.len() <= i < path.len() implies #[trigger] path[i] == '/' by {
            if i < path.len() - 1 {
                assert(path.drop_last()[i] == path[i]);
            }
        }
    } else {
        assert(path.take(path.len() as int) =~= path);
    }
}

pub(crate) proof fn lemma_closed_once(path: Seq<char>)
    ensures
        closed_once(path, locator::issuer_path(path)),
{
    lemma_trimmed(path);
    let kept = text::trimmed_end(path, '/');
    assert(locator::issuer_path(path) =~= kept.push('/'));
    assert(kept.push('/').drop_last() =~= kept);
    if kept.len() > 0 {
        assert(kept.push('/')[kept.len() - 1] == kept.last());
    }
}

pub(crate) proof fn lemma_one_closing(path: Seq<char>, a: Seq<char>, b: Seq<char>)
    requires
        closed_once(path, a),
        closed_once(path, b),
    ensures
        a == b,
{
    if a.len() < b.len() {
        assert(b.drop_last()[b.len() - 2] == path.take(b.len() - 1)[b.len() - 2]);
        assert(path[b.len() - 2] == '/');
    } else if b.len() < a.len() {
        assert(a.drop_last()[a.len() - 2] == path.take(a.len() - 1)[a.len() - 2]);
        assert(path[a.len() - 2] == '/');
    }
    assert(a =~= a.drop_last().push('/'));
    assert(b =~= b.drop_last().push('/'));
}

/// Where an issuer's configuration stands: under the issuer's own path, at
/// the well-known name.
pub open spec fn configured_at(issuer: LocatorView, path: Seq<char>) -> Option<LocatorView> {
    match locator::locator_with_path(issuer.text, path) {
        Some(base) => locator::locator_joined(base, ".well-known/openid-configuration"@),
        None => None,
    }
}

/// The configuration is looked for under the issuer's path, whatever realm
/// that names and however many slashes close it.
pub proof fn law_configurations_stand_under_the_issuer(
    issuer: &Locator,
    path: Seq<char>,
    r: Result<Locator, AppError>,
)
    requires
        locator::discoverable(issuer@),
        call_ensures(locator::discovery_url, (issuer,), r),
        closed_once(issuer.path@, path),
    ensures
        r is Ok <==> configured_at(issuer@, path) is Some,
        r is Ok ==> Some(r->Ok_0@) == configured_at(issuer@, path),
        r is Err ==> input_fails(r->Err_0, "invalid_issuer"@),
{
    lemma_closed_once(issuer.path@);
    lemma_one_closing(issuer.path@, path, locator::issuer_path(issuer.path@));
}

/// Any issuer is looked up like this, unless it is too long to be an argument.
pub proof fn law_overlong_issuers_are_no_arguments(
    issuer: &Locator,
    path: Seq<char>,
    r: Result<Locator, AppError>,
)
    requires
        call_ensures(locator::checked_discovery_url, (issuer,), r),
        closed_once(issuer.path@, path),
    ensures
        issuer.text@.len() > 0x100_0000 || issuer.path@.len() >= 0x100_0000 ==> r is Err
            && input_fails(r->Err_0, "invalid_cli"@),
        issuer.text@.len() <= 0x100_0000 && issuer.path@.len() < 0x100_0000 ==> {
            &&& r is Ok <==> configured_at(issuer@, path) is Some
            &&& r is Ok ==> Some(r->Ok_0@) == configured_at(issuer@, path)
            &&& r is Err ==> input_fails(r->Err_0, "invalid_issuer"@)
        },
{
    lemma_closed_once(issuer.path@);
    lemma_one_closing(issuer.path@, path, locator::issuer_path(issuer.path@));
}

/// The query gives the key once, with this value.
pub open spec fn given_once(
    pairs: Seq<(Seq<char>, Seq<char>)>,
    key: Seq<char>,
    value: Seq<char>,
) -> bool {
    exists|i: int| #[trigger] given_at(pairs, key, value, i)
}

/// The query gives the key here, with this value, and nowhere else.
pub open spec fn given_at(
    pairs: Seq<(Seq<char>, Seq<char>)>,
    key: Seq<char>,
    value: Seq<char>,
    i: int,
) -> bool {
    &&& 0 <= i < pairs.len()
    &&& pairs[i] == (key, value)
    &&& forall|j: int| 0 <= j < pairs.len() && j != i ==> (#[trigger] pairs[j]).0 != key
}

/// The query does not give the key.
pub open spec fn not_given(pairs: Seq<(Seq<char>, Seq<char>)>, key: Seq<char>) -> bool {
    forall|i: int| 0 <= i < pairs.len() ==> (#[trigger] pairs[i]).0 != key
}

proof fn lemma_not_given(pairs: Seq<(Seq<char>, Seq<char>)>, key: Seq<char>)
    ensures
        not_given(pairs, key) <==> callback::values(pairs, key).len() == 0,
    decreases pairs.len(),
{
    if pairs.len() > 0 {
        let before = pairs.drop_last();
        lemma_not_given(before, key);
        if not_given(pairs, key) {
            assert(pairs[pairs.len() - 1].0 != key);
            assert forall|i: int| 0 <= i < before.len() implies (#[trigger] before[i]).0 != key by {
                assert(before[i] == pairs[i]);
            }
        }
        if callback::values(pairs, key).len() == 0 {
            assert forall|i: int| 0 <= i < pairs.len() implies (#[trigger] pairs[i]).0 != key by {
                if i < before.len() {
                    assert(before[i] == pairs[i]);
                }
            }
        }
    }
}

proof fn lemma_given_once(pairs: Seq<(Seq<char>, Seq<char>)>, key: Seq<char>, value: Seq<char>)
    ensures
        given_once(pairs, key, value) <==> callback::values(pairs, key) == seq![value],
    decreases pairs.len(),
{
    if pairs.len() > 0 {
        let before = pairs.drop_last();
        let last = pairs.len() - 1;
        lemma_given_once(before, key, value);
        lemma_not_given(before, key);
        if given_once(pairs, key, value) {
            let i = choose|i: int| #[trigger] given_at(pairs, key, value, i);
            if i == last {
                assert forall|j: int| 0 <= j < before.len() implies (#[trigger] before[j]).0
                    != key by {
                    assert(before[j] == pairs[j]);
                }
                assert(not_given(before, key));
                assert(callback::values(pairs, key) =~= seq![value]);
            } else {
                assert(pairs[last].0 != key);
                assert(before[i] == pairs[i]);
                assert forall|j: int| 0 <= j < before.len() && j != i implies (
                #[trigger] before[j]).0 != key by {
                    assert(before[j] == pairs[j]);
                }
                assert(given_at(before, key, value, i));
            }
        }
        if callback::values(pairs, key) == seq![value] {
            if pairs.last().0 == key {
                let earlier = callback::values(before, key);
                assert(earlier.push(pairs.last().1).len() == 1);
                assert(not_given(before, key));
                assert(seq![value][0] == value);
                assert(earlier.push(pairs.last().1)[0] == pairs.last().1);
                assert(pairs[last] == (key, value));
                assert forall|j: int| 0 <= j < pairs.len() && j != last implies (
                #[trigger] pairs[j]).0 != key by {
                    assert(before[j] == pairs[j]);
                }
                assert(given_at(pairs, key, value, last));
            } else {
                let i = choose|i: int| #[trigger] given_at(before, key, value, i);
                assert(given_at(before, key, value, i));
                assert(before[i] == pairs[i]);
                assert forall|j: int| 0 <= j < pairs.len() && j != i implies (
                #[trigger] pairs[j]).0 != key by {
                    if j < before.len() {
                        assert(before[j] == pairs[j]);
                    }
                }
                assert(given_at(pairs, key, value, i));
            }
        }
    } else {
        assert(callback::values(pairs, key).len() == 0);
        assert(seq![value].len() == 1);
    }
}

/// The request came back to where the browser was sent from.
pub open spec fn came_back(callback: LocatorView, redirect: LocatorView) -> bool {
    &&& callback.scheme == redirect.scheme
    &&& callback.host == redirect.host
    &&& callback.port == redirect.port
    &&& callback.path == redirect.path
    &&& callback.fragment is None
}

/// What a request that came back says: the code, if it bears the state once,
/// no error and one code that is not empty.
pub open spec fn brings(
    pairs: Seq<(Seq<char>, Seq<char>)>,
    state: Seq<char>,
    code: Seq<char>,
) -> bool {
    &&& given_once(pairs, "state"@, state)
    &&& not_given(pairs, "error"@)
    &&& given_once(pairs, "code"@, code)
    &&& code.len() > 0
}

proof fn lemma_outcome(
    callback: LocatorView,
    pairs: Seq<(Seq<char>, Seq<char>)>,
    redirect: LocatorView,
    state: Seq<char>,
)
    ensures
        ({
            let outcome = callback::outcome_of(callback, pairs, redirect, state);
            &&& outcome is Some && outcome->0 is Code <==> came_back(callback, redirect) && exists|
                code: Seq<char>,
            | #[trigger]
                brings(pairs, state, code)
            &&& outcome is Some && outcome->0 is Code ==> brings(pairs, state, outcome->0->Code_0)
            &&& outcome is Some && outcome->0 is Rejected <==> came_back(callback, redirect)
                && given_once(pairs, "state"@, state) && !not_given(pairs, "error"@)
        }),
{
    lemma_given_once(pairs, "state"@, state);
    lemma_not_given(pairs, "error"@);
    let codes = callback::values(pairs, "code"@);
    let outcome = callback::outcome_of(callback, pairs, redirect, state);
    if outcome is Some && outcome->0 is Code {
        assert(codes =~= seq![codes[0]]);
        lemma_given_once(pairs, "code"@, codes[0]);
        assert(brings(pairs, state, codes[0]));
    }
    if came_back(callback, redirect) && exists|code: Seq<char>| #[trigger]
        brings(pairs, state, code) {
        let code = choose|code: Seq<char>| #[trigger] brings(pairs, state, code);
        lemma_given_once(pairs, "code"@, code);
        assert(codes == seq![code]);
    }
}

/// A code is taken only from the one request that came back, bears the
/// expected state once, no error, and one code that is not empty; a login is
/// rejected only by a request that came back with the state and an error;
/// everything else is no answer.
pub proof fn law_callbacks_answer_with_the_state(
    callback: &Locator,
    pairs: &Vec<(String, String)>,
    redirect: &Locator,
    expected_state: &str,
    r: Option<CallbackOutcome>,
)
    requires
        call_ensures(callback::judge_callback, (callback, pairs, redirect, expected_state), r),
    ensures
        ({
            let told = locator::pair_texts(pairs@);
            &&& r is Some && r->0 is Code <==> came_back(callback@, redirect@) && exists|
                code: Seq<char>,
            | #[trigger]
                brings(told, expected_state@, code)
            &&& r is Some && r->0 is Code ==> brings(told, expected_state@, r->0->Code_0@)
            &&& r is Some && r->0 is Rejected <==> came_back(callback@, redirect@) && given_once(
                told,
                "state"@,
                expected_state@,
            ) && !not_given(told, "error"@)
        }),
{
    lemma_outcome(callback@, locator::pair_texts(pairs@), redirect@, expected_state@);
}

/// The target of a request that is a `GET` over HTTP/1.1 of an absolute path
/// that names no other host.
pub open spec fn asks_for(request: Seq<u8>, target: Seq<char>) -> bool {
    &&& valid_utf8(request)
    &&& ({
        let words = text::words(text::first_line(decode_utf8(request)));
        &&& words.len() == 3
        &&& words[0] == "GET"@
        &&& words[1] == target
        &&& words[2] == "HTTP/1.1"@
    })
    &&& target.len() > 0 && target[0] == '/'
    &&& target.len() > 1 ==> target[1] != '/'
}

proof fn lemma_asks_for(request: Seq<u8>, target: Seq<char>)
    ensures
        asks_for(request, target) <==> callback::target_of(request) == Some(target),
{
    reveal_strlit("/");
    reveal_strlit("//");
    if valid_utf8(request) {
        let words = text::words(text::first_line(decode_utf8(request)));
        if words.len() == 3 {
            let t = words[1];
            assert(text::starts_with(t, "/"@) <==> t.len() > 0 && t[0] == '/') by {
                if t.len() > 0 {
                    assert(t.take(1)[0] == t[0]);
                    if t[0] == '/' {
                        assert(t.take(1) =~= "/"@);
                    }
                }
            }
            assert(text::starts_with(t, "//"@) <==> t.len() > 1 && t[0] == '/' && t[1] == '/') by {
                if t.len() > 1 {
                    assert(t.take(2)[0] == t[0]);
                    assert(t.take(2)[1] == t[1]);
                    if t[0] == '/' && t[1] == '/' {
                        assert(t.take(2) =~= "//"@);
                    }
                }
            }
        }
    }
}

/// A request has a target exactly if it asks for one.
pub proof fn law_requests_are_read_by_their_first_line(request: &[u8], r: Option<String>)
    requires
        call_ensures(callback::callback_target, (request,), r),
    ensures
        r is Some <==> exists|target: Seq<char>| #[trigger] asks_for(request@, target),
        r is Some ==> asks_for(request@, r->0@),
{
    if r is Some {
        lemma_asks_for(request@, r->0@);
    }
    assert forall|target: Seq<char>| #[trigger] asks_for(request@, target) implies r is Some by {
        lemma_asks_for(request@, target);
    }
}

/// A raw request is an answer only if it asks for a target that resolves to
/// where the browser was sent from, with the state; it then brings the code
/// or the rejection that its query gives.
pub proof fn law_raw_callbacks_answer_with_the_state(
    request: &[u8],
    redirect: &Locator,
    expected_state: &str,
    target: Seq<char>,
    r: Option<CallbackOutcome>,
)
    requires
        call_ensures(callback::parse_callback_request, (request, redirect, expected_state), r),
    ensures
        r is Some ==> exists|asked: Seq<char>| #[trigger] asks_for(request@, asked),
        asks_for(request@, target) ==> ({
            let place = locator::locator_joined(redirect.text@, target);
            let pairs = locator::form_pairs(
                match place->0.query {
                    Some(query) => query,
                    None => ""@,
                },
            );
            &&& r is Some ==> place is Some && came_back(place->0, redirect@) && given_once(
                pairs,
                "state"@,
                expected_state@,
            )
            &&& r is Some && r->0 is Code ==> brings(pairs, expected_state@, r->0->Code_0@)
            &&& r is Some && r->0 is Rejected <==> place is Some && came_back(
                place->0,
                redirect@,
            ) && given_once(pairs, "state"@, expected_state@) && !not_given(pairs, "error"@)
            &&& place is Some && came_back(place->0, redirect@) && (exists|code: Seq<char>|
             #[trigger]
                brings(pairs, expected_state@, code)) ==> r is Some && r->0 is Code
        }),
{
    lemma_asks_for(request@, target);
    if callback::target_of(request@) is Some {
        lemma_asks_for(request@, callback::target_of(request@)->0);
    }
    let place = locator::locator_joined(redirect.text@, target);
    if place is Some {
        lemma_outcome(
            place->0,
            callback::pairs_of(place->0),
            redirect@,
            expected_state@,
        );
        lemma_given_once(callback::pairs_of(place->0), "state"@, expected_state@);
    }
}

/// The page that a browser is told, with the length of its text.
pub open spec fn told(page: Seq<char>, status: Seq<char>, body: Seq<char>) -> bool {
    page == "HTTP/1.1 "@ + status + "\r\nContent-Type: text/plain\r\nContent-Length: "@
        + text::decimal(encode_utf8(body).len()) + "\r\nConnection: close\r\n\r\n"@ + body
}

/// A code ends the wait with the code, a rejection ends it with a failure,
/// and anything else is turned away while the login waits on.
pub proof fn law_browsers_are_told_the_outcome(outcome: Option<CallbackOutcome>, r: CallbackReply)
    requires
        call_ensures(callback::reply, (outcome,), r),
    ensures
        outcome is Some && outcome->0 is Code ==> {
            &&& told(r.page@, "200 OK"@, "Authentication complete."@)
            &&& r.result is Some && r.result->0 is Ok
            &&& r.result->0->Ok_0@ == outcome->0->Code_0@
        },
        outcome is Some && outcome->0 is Rejected ==> {
            &&& told(r.page@, "400 Bad Request"@, "Authentication rejected."@)
            &&& r.result is Some && r.result->0 is Err
            &&& fails(
                r.result->0->Err_0,
                "authorization_rejected"@,
                ErrorClass::Auth,
                ErrorStage::Callback,
                false,
            )
        },
        outcome is None ==> {
            &&& told(r.page@, "400 Bad Request"@, "Authentication ignored."@)
            &&& r.result is None
        },
{
}

/// A connection that was given up is a failure of the callback.
pub proof fn law_broken_callbacks_fail_at_the_callback(r: AppError)
    requires
        call_ensures(callback::invalid_callback, (), r),
    ensures
        fails(r, "callback_invalid"@, ErrorClass::Auth, ErrorStage::Callback, false),
{
}

/// The bytes hold an empty line that closes the headers.
pub open spec fn closed(bytes: Seq<u8>) -> bool {
    exists|i: int|
        0 <= i <= bytes.len() - 4 && #[trigger] bytes.subrange(i, i + 4) == seq![
            13u8,
            10u8,
            13u8,
            10u8,
        ]
}

proof fn lemma_closed(bytes: Seq<u8>)
    ensures
        closed(bytes) <==> callback::headers_closed(bytes),
{
    if closed(bytes) {
        let i = choose|i: int|
            0 <= i <= bytes.len() - 4 && #[trigger] bytes.subrange(i, i + 4) == seq![
                13u8,
                10u8,
                13u8,
                10u8,
            ];
        let four = bytes.subrange(i, i + 4);
        assert(four[0] == bytes[i] && four[1] == bytes[i + 1] && four[2] == bytes[i + 2]
            && four[3] == bytes[i + 3]);
        assert(callback::closes_headers(bytes, i));
    }
    if callback::headers_closed(bytes) {
        let i = choose|i: int|
            0 <= i && i + 4 <= bytes.len() && #[trigger] callback::closes_headers(bytes, i);
        assert(bytes.subrange(i, i + 4) =~= seq![13u8, 10u8, 13u8, 10u8]);
    }
}

/// A request is read from its first byte on, at most a kibibyte at a time
/// and never past eight.
pub proof fn law_callbacks_are_read_within_their_budget(
    fresh: CallbackReader,
    reader: &CallbackReader,
    room: usize,
    request: &[u8],
)
    requires
        call_ensures(CallbackReader::new, (), fresh),
        call_ensures(CallbackReader::room, (reader,), room),
        call_ensures(CallbackReader::request, (reader,), request),
    ensures
        fresh@.len() == 0,
        request@ == reader@,
        room <= 1024,
        reader@.len() + room <= 8192,
        room == 1024 || reader@.len() + room == 8192,
{
}

/// A read is kept whole. The request is complete once an empty line closed
/// its headers; it is invalid once the connection ended or the budget is
/// used up before that; otherwise there is more to read.
pub proof fn law_callbacks_are_complete_with_their_headers(
    reader: &mut CallbackReader,
    chunk: &[u8],
    r: ReadStep,
)
    requires
        chunk@.len() <= 1024,
        old(reader)@.len() + chunk@.len() <= 8192,
        call_ensures(CallbackReader::take, (reader, chunk), r),
    ensures
        final(reader)@ == old(reader)@ + chunk@,
        r is Complete <==> chunk@.len() > 0 && closed(final(reader)@),
        r is Invalid <==> chunk@.len() == 0 || (!closed(final(reader)@) && final(reader)@.len()
            >= 8192),
{
    lemma_closed(final(reader)@);
}

} // verus!
