//! Locators as plain parts, and which of them may be talked to.

use crate::failure;
use crate::failure::{AppError, FailureView};
use crate::text;
use vstd::prelude::*;
use vstd::string::*;

verus! {

/// The parts of a locator.
pub struct LocatorView {
    pub text: Seq<char>,
    pub scheme: Seq<char>,
    pub username: Seq<char>,
    pub password: Option<Seq<char>>,
    pub host: Option<Seq<char>>,
    pub port: Option<u16>,
    pub path: Seq<char>,
    pub query: Option<Seq<char>>,
    pub fragment: Option<Seq<char>>,
}

/// A parsed absolute locator: its own text and the parts that decisions read.
/// The port is the explicit one or the default of a known scheme.
#[derive(Debug)]
pub struct Locator {
    pub text: String,
    pub scheme: String,
    pub username: String,
    pub password: Option<String>,
    pub host: Option<String>,
    pub port: Option<u16>,
    pub path: String,
    pub query: Option<String>,
    pub fragment: Option<String>,
}

/// The view of an optional text.
pub open spec fn optional_text(value: Option<String>) -> Option<Seq<char>> {
    match value {
        Some(text) => Some(text@),
        None => None,
    }
}

impl View for Locator {
    type V = LocatorView;

    open spec fn view(&self) -> LocatorView {
        LocatorView {
            text: self.text@,
            scheme: self.scheme@,
            username: self.username@,
            password: optional_text(self.password),
            host: optional_text(self.host),
            port: self.port,
            path: self.path@,
            query: optional_text(self.query),
            fragment: optional_text(self.fragment),
        }
    }
}

/// The view of a locator that was or was not found.
pub open spec fn optional_locator(value: Option<Locator>) -> Option<LocatorView> {
    match value {
        Some(locator) => Some(locator@),
        None => None,
    }
}

/// What a text means as an absolute locator.
pub uninterp spec fn locator_parsed(input: Seq<char>) -> Option<LocatorView>;

/// `url::Url::parse` reads an absolute locator or refuses the text; the
/// parts are the parsed locator's own accessors.
#[verifier::external_body]
fn parse(input: &str) -> (r: Option<Locator>)
    ensures
        optional_locator(r) == locator_parsed(input@),
{
    let url = url::Url::parse(input).ok()?;
    Some(Locator {
        text: url.to_string(),
        scheme: url.scheme().to_owned(),
        username: url.username().to_owned(),
        password: url.password().map(str::to_owned),
        host: url.host_str().map(str::to_owned),
        port: url.port_or_known_default(),
        path: url.path().to_owned(),
        query: url.query().map(str::to_owned),
        fragment: url.fragment().map(str::to_owned),
    })
}

/// What a reference means against a base locator.
pub uninterp spec fn locator_joined(base: Seq<char>, reference: Seq<char>) -> Option<LocatorView>;

/// `url::Url::join` resolves a reference against a base, or refuses it; a
/// base that is no locator has nothing to resolve against.
#[verifier::external_body]
pub(crate) fn join(base: &str, reference: &str) -> (r: Option<Locator>)
    ensures
        optional_locator(r) == locator_joined(base@, reference@),
{
    let url = url::Url::parse(base).ok()?.join(reference).ok()?;
    Some(Locator {
        text: url.to_string(),
        scheme: url.scheme().to_owned(),
        username: url.username().to_owned(),
        password: url.password().map(str::to_owned),
        host: url.host_str().map(str::to_owned),
        port: url.port_or_known_default(),
        path: url.path().to_owned(),
        query: url.query().map(str::to_owned),
        fragment: url.fragment().map(str::to_owned),
    })
}

/// A text short enough that no locator built from a handful of them comes
/// near the length a locator can have.
pub open spec fn short(text: Seq<char>) -> bool {
    text.len() <= 0x100_0000
}

pub(crate) fn is_short(text: &str) -> (r: bool)
    ensures
        r == short(text@),
{
    text.unicode_len() <= 0x100_0000
}

/// The text of a locator whose path was replaced.
pub uninterp spec fn locator_with_path(base: Seq<char>, path: Seq<char>) -> Option<Seq<char>>;

/// `url::Url::set_path` replaces the path of a locator and leaves the rest;
/// a base that is no locator has no path. The call aborts where the result
/// would pass four gibibytes.
#[verifier::external_body]
fn with_path(base: &str, path: &str) -> (r: Option<String>)
    requires
        short(base@),
        short(path@),
    ensures
        optional_text(r) == locator_with_path(base@, path@),
{
    let mut url = url::Url::parse(base).ok()?;
    url.set_path(path);
    Some(url.to_string())
}

/// The views of a list of pairs.
pub open spec fn pair_texts(pairs: Seq<(String, String)>) -> Seq<(Seq<char>, Seq<char>)> {
    pairs.map_values(|pair: (String, String)| (pair.0@, pair.1@))
}

/// The text of a locator to whose query some pairs were added.
pub uninterp spec fn locator_with_pairs(
    base: Seq<char>,
    pairs: Seq<(Seq<char>, Seq<char>)>,
) -> Option<Seq<char>>;

/// `url::Url::query_pairs_mut` with `extend_pairs` appends the pairs, in
/// order, to the query of a locator; a base that is no locator has no query.
/// The call aborts where the result would pass four gibibytes.
#[verifier::external_body]
pub(crate) fn with_pairs(base: &str, pairs: &[(String, String)]) -> (r: Option<String>)
    requires
        short(base@),
        pairs@.len() <= 8,
        forall|i: int|
            0 <= i < pairs@.len() ==> short(#[trigger] pairs@[i].0@) && short(pairs@[i].1@),
    ensures
        optional_text(r) == locator_with_pairs(base@, pair_texts(pairs@)),
        r is Some <==> locator_parsed(base@) is Some,
{
    let mut url = url::Url::parse(base).ok()?;
    url.query_pairs_mut().extend_pairs(pairs);
    Some(url.to_string())
}

/// The pairs that a query carries.
pub uninterp spec fn form_pairs(query: Seq<char>) -> Seq<(Seq<char>, Seq<char>)>;

/// `form_urlencoded::parse` reads the pairs of a query in order, decoding
/// both halves.
#[verifier::external_body]
pub(crate) fn query_pairs(query: &str) -> (r: Vec<(String, String)>)
    ensures
        pair_texts(r@) == form_pairs(query@),
{
    url::form_urlencoded::parse(query.as_bytes()).into_owned().collect()
}

impl Locator {
    /// Reads an absolute locator.
    pub fn read(input: &str) -> (r: Option<Self>)
        ensures
            optional_locator(r) == locator_parsed(input@),
    {
        parse(input)
    }
}

impl Clone for Locator {
    fn clone(&self) -> (r: Self)
        ensures
            r@ == self@,
    {
        Locator {
            text: self.text.clone(),
            scheme: self.scheme.clone(),
            username: self.username.clone(),
            password: self.password.clone(),
            host: self.host.clone(),
            port: self.port,
            path: self.path.clone(),
            query: self.query.clone(),
            fragment: self.fragment.clone(),
        }
    }
}

/// A host that is an IPv4 address of the loopback block. A locator writes an
/// IPv6 host in brackets, so no other text of a host is an address.
pub open spec fn is_loopback(host: Seq<char>) -> bool {
    exists|b: u8, c: u8, d: u8| host == #[trigger] loopback_text(b, c, d)
}

/// The address `127.b.c.d` in its one text.
pub open spec fn loopback_text(b: u8, c: u8, d: u8) -> Seq<char> {
    seq!['1', '2', '7', '.'] + text::decimal(b as nat) + seq!['.'] + text::decimal(c as nat)
        + seq!['.'] + text::decimal(d as nat)
}

fn digit_at(chars: &Vec<char>, i: usize) -> (r: Option<u32>)
    ensures
        match r {
            Some(d) => i < chars@.len() && d < 10 && chars@[i as int] == text::decimal_digit(
                d as nat,
            ),
            None => i < chars@.len() ==> forall|d: nat|
                d < 10 ==> chars@[i as int] != #[trigger] text::decimal_digit(d),
        },
{
    if i >= chars.len() {
        return None;
    }
    let c = chars[i];
    if '0' <= c && c <= '9' {
        let d: u32 = c as u32 - '0' as u32;
        assert(c == text::decimal_digit(d as nat));
        Some(d)
    } else {
        None
    }
}

proof fn lemma_octet(n: u8)
    ensures
        n < 10 ==> text::decimal(n as nat) == seq![text::decimal_digit(n as nat)],
        10 <= n < 100 ==> text::decimal(n as nat) == seq![
            text::decimal_digit((n / 10) as nat),
            text::decimal_digit((n % 10) as nat),
        ],
        100 <= n ==> text::decimal(n as nat) == seq![
            text::decimal_digit((n / 100) as nat),
            text::decimal_digit((n / 10 % 10) as nat),
            text::decimal_digit((n % 10) as nat),
        ],
{
    reveal_with_fuel(text::decimal, 4);
    assert(n / 100 == n / 10 / 10);
    if n < 10 {
    } else if n < 100 {
        assert(text::decimal(n as nat) =~= seq![
            text::decimal_digit((n / 10) as nat),
            text::decimal_digit((n % 10) as nat),
        ]);
    } else {
        assert(text::decimal(n as nat) =~= seq![
            text::decimal_digit((n / 100) as nat),
            text::decimal_digit((n / 10 % 10) as nat),
            text::decimal_digit((n % 10) as nat),
        ]);
    }
}

/// The octet written at a place of a text ends where no further digit stands.
spec fn octet_at(chars: Seq<char>, start: int, n: u8) -> bool {
    let end = start + text::decimal(n as nat).len();
    &&& end <= chars.len()
    &&& chars.subrange(start, end) == text::decimal(n as nat)
    &&& end < chars.len() ==> forall|d: nat| d < 10 ==> chars[end] != #[trigger]
        text::decimal_digit(d)
}

proof fn lemma_one_octet(chars: Seq<char>, start: int, a: u8, b: u8)
    requires
        0 <= start,
        octet_at(chars, start, a),
        octet_at(chars, start, b),
    ensures
        a == b,
{
    lemma_octet(a);
    lemma_octet(b);
    let x = text::decimal(a as nat);
    let y = text::decimal(b as nat);
    assert forall|i: int| 0 <= i < x.len() implies #[trigger] x[i] == chars[start + i] by {
        assert(chars.subrange(start, start + x.len())[i] == chars[start + i]);
    }
    assert forall|i: int| 0 <= i < y.len() implies #[trigger] y[i] == chars[start + i] by {
        assert(chars.subrange(start, start + y.len())[i] == chars[start + i]);
    }
    if x.len() < y.len() {
        assert(y[x.len() as int] == chars[start + x.len()]);
    } else if y.len() < x.len() {
        assert(x[y.len() as int] == chars[start + y.len()]);
    } else {
        assert(x =~= y);
        assert(x[0] == y[0]);
        if x.len() > 1 {
            assert(x[1] == y[1]);
        }
        if x.len() > 2 {
            assert(x[2] == y[2]);
        }
    }
}

/// What the digits at a place of a text say of the octet that could stand there.
proof fn lemma_octet_digits(chars: Seq<char>, start: int, n: u8)
    requires
        0 <= start,
        octet_at(chars, start, n),
    ensures
        start < chars.len(),
        n < 10 ==> chars[start] == text::decimal_digit(n as nat) && (start + 1 < chars.len()
            ==> forall|d: nat| d < 10 ==> chars[start + 1] != #[trigger] text::decimal_digit(d)),
        10 <= n < 100 ==> start + 1 < chars.len() && chars[start] == text::decimal_digit(
            (n / 10) as nat,
        ) && chars[start + 1] == text::decimal_digit((n % 10) as nat) && (start + 2 < chars.len()
            ==> forall|d: nat| d < 10 ==> chars[start + 2] != #[trigger] text::decimal_digit(d)),
        100 <= n ==> start + 2 < chars.len() && chars[start] == text::decimal_digit(
            (n / 100) as nat,
        ) && chars[start + 1] == text::decimal_digit((n / 10 % 10) as nat) && chars[start + 2]
            == text::decimal_digit((n % 10) as nat) && (start + 3 < chars.len() ==> forall|d: nat|
            d < 10 ==> chars[start + 3] != #[trigger] text::decimal_digit(d)),
{
    lemma_octet(n);
    let x = text::decimal(n as nat);
    assert forall|i: int| 0 <= i < x.len() implies #[trigger] x[i] == chars[start + i] by {
        assert(chars.subrange(start, start + x.len())[i] == chars[start + i]);
    }
    assert(x[0] == chars[start]);
    if n >= 10 {
        assert(x[1] == chars[start + 1]);
    }
    if n >= 100 {
        assert(x[2] == chars[start + 2]);
    }
}

fn read_octet(chars: &Vec<char>, start: usize) -> (r: Option<(u8, usize)>)
    requires
        start <= chars@.len(),
        chars@.len() < usize::MAX - 4,
    ensures
        match r {
            Some((n, end)) => octet_at(chars@, start as int, n) && end == start + text::decimal(
                n as nat,
            ).len(),
            None => forall|n: u8| !#[trigger] octet_at(chars@, start as int, n),
        },
{
    proof {
        assert forall|n: u8| #[trigger] octet_at(chars@, start as int, n) implies start
            < chars@.len() by {
            lemma_octet_digits(chars@, start as int, n);
        }
    }
    let first: u32 = match digit_at(chars, start) {
        Some(d) => d,
        None => {
            proof {
                assert forall|n: u8| !#[trigger] octet_at(chars@, start as int, n) by {
                    if octet_at(chars@, start as int, n) {
                        lemma_octet_digits(chars@, start as int, n);
                    }
                }
            }
            return None;
        },
    };
    let second: u32 = match digit_at(chars, start + 1) {
        Some(d) => d,
        None => {
            proof {
                lemma_octet(first as u8);
                assert(chars@.subrange(start as int, start + 1) =~= text::decimal(first as nat));
            }
            return Some((first as u8, start + 1));
        },
    };
    let third: u32 = match digit_at(chars, start + 2) {
        Some(d) => d,
        None => {
            if first == 0 {
                proof {
                    assert forall|n: u8| !#[trigger] octet_at(chars@, start as int, n) by {
                        if octet_at(chars@, start as int, n) {
                            lemma_octet_digits(chars@, start as int, n);
                        }
                    }
                }
                return None;
            }
            let value: u32 = first * 10 + second;
            proof {
                lemma_octet(value as u8);
                assert(chars@.subrange(start as int, start + 2) =~= text::decimal(value as nat));
            }
            return Some((value as u8, start + 2));
        },
    };
    let value: u32 = first * 100 + second * 10 + third;
    if first == 0 || value > 255 || digit_at(chars, start + 3).is_some() {
        proof {
            assert forall|n: u8| !#[trigger] octet_at(chars@, start as int, n) by {
                if octet_at(chars@, start as int, n) {
                    lemma_octet_digits(chars@, start as int, n);
                }
            }
        }
        return None;
    }
    proof {
        lemma_octet(value as u8);
        assert(chars@.subrange(start as int, start + 3) =~= text::decimal(value as nat));
    }
    Some((value as u8, start + 3))
}

/// Where the octets of a loopback address stand in its text.
spec fn octets_in(host: Seq<char>, b: u8, c: u8, d: u8) -> bool {
    let first: int = 4 + text::decimal(b as nat).len() as int;
    let second: int = first + 1 + text::decimal(c as nat).len() as int;
    &&& host.len() > 4
    &&& host[0] == '1' && host[1] == '2' && host[2] == '7' && host[3] == '.'
    &&& octet_at(host, 4, b)
    &&& first < host.len() && host[first] == '.'
    &&& octet_at(host, first + 1, c)
    &&& second < host.len() && host[second] == '.'
    &&& octet_at(host, second + 1, d)
    &&& host.len() == second + 1 + text::decimal(d as nat).len()
}

proof fn lemma_loopback_octets(b: u8, c: u8, d: u8)
    ensures
        octets_in(loopback_text(b, c, d), b, c, d),
{
    lemma_octet(b);
    lemma_octet(c);
    lemma_octet(d);
    let host = loopback_text(b, c, d);
    let first: int = 4 + text::decimal(b as nat).len() as int;
    let second: int = first + 1 + text::decimal(c as nat).len() as int;
    assert(host.subrange(4, first) =~= text::decimal(b as nat));
    assert(host.subrange(first + 1, second) =~= text::decimal(c as nat));
    assert(host.subrange(second + 1, host.len() as int) =~= text::decimal(d as nat));
    assert forall|k: nat| k < 10 implies '.' != #[trigger] text::decimal_digit(k) by {}
}

pub fn loopback_host(host: &str) -> (r: bool)
    ensures
        r == is_loopback(host@),
{
    let chars = text::chars_of(host);
    proof {
        assert forall|b: u8, c: u8, d: u8| host@ == #[trigger] loopback_text(b, c, d) implies octets_in(
            host@,
            b,
            c,
            d,
        ) by {
            lemma_loopback_octets(b, c, d);
        }
    }
    if chars.len() < 5 || chars.len() > 15 || chars[0] != '1' || chars[1] != '2' || chars[2] != '7'
        || chars[3] != '.' {
        proof {
            assert forall|b: u8, c: u8, d: u8| host@ != #[trigger] loopback_text(b, c, d) by {
                lemma_octet(b);
                lemma_octet(c);
                lemma_octet(d);
            }
        }
        return false;
    }
    let (b, first) = match read_octet(&chars, 4) {
        Some((b, end)) => (b, end),
        None => {
            return false;
        },
    };
    if first >= chars.len() || chars[first] != '.' {
        proof {
            assert forall|x: u8, c: u8, d: u8| host@ != #[trigger] loopback_text(x, c, d) by {
                if host@ == loopback_text(x, c, d) {
                    lemma_one_octet(host@, 4, x, b);
                }
            }
        }
        return false;
    }
    let (c, second) = match read_octet(&chars, first + 1) {
        Some((c, end)) => (c, end),
        None => {
            proof {
                assert forall|x: u8, y: u8, d: u8| host@ != #[trigger] loopback_text(x, y, d) by {
                    if host@ == loopback_text(x, y, d) {
                        lemma_one_octet(host@, 4, x, b);
                    }
                }
            }
            return false;
        },
    };
    if second >= chars.len() || chars[second] != '.' {
        proof {
            assert forall|x: u8, y: u8, d: u8| host@ != #[trigger] loopback_text(x, y, d) by {
                if host@ == loopback_text(x, y, d) {
                    lemma_one_octet(host@, 4, x, b);
                    lemma_one_octet(host@, first + 1, y, c);
                }
            }
        }
        return false;
    }
    match read_octet(&chars, second + 1) {
        Some((d, end)) => {
            proof {
                if end == host@.len() {
                    assert(host@ =~= loopback_text(b, c, d)) by {
                        let whole = host@;
                        let x = text::decimal(b as nat);
                        let y = text::decimal(c as nat);
                        let z = text::decimal(d as nat);
                        assert(whole.subrange(4, first as int) == x);
                        assert(whole.subrange(first + 1, second as int) == y);
                        assert(whole.subrange(second + 1, end as int) == z);
                        assert(whole =~= whole.subrange(0, 4) + whole.subrange(4, first as int)
                            + whole.subrange(first as int, first + 1) + whole.subrange(
                            first + 1,
                            second as int,
                        ) + whole.subrange(second as int, second + 1) + whole.subrange(
                            second + 1,
                            end as int,
                        ));
                        assert(whole.subrange(0, 4) =~= seq!['1', '2', '7', '.']);
                        assert(whole.subrange(first as int, first + 1) =~= seq!['.']);
                        assert(whole.subrange(second as int, second + 1) =~= seq!['.']);
                    }
                } else {
                    assert forall|x: u8, y: u8, w: u8| host@ != #[trigger] loopback_text(
                        x,
                        y,
                        w,
                    ) by {
                        if host@ == loopback_text(x, y, w) {
                            lemma_one_octet(host@, 4, x, b);
                            lemma_one_octet(host@, first + 1, y, c);
                            lemma_one_octet(host@, second + 1, w, d);
                        }
                    }
                }
            }
            end == chars.len()
        },
        None => {
            proof {
                assert forall|x: u8, y: u8, d: u8| host@ != #[trigger] loopback_text(x, y, d) by {
                    if host@ == loopback_text(x, y, d) {
                        lemma_one_octet(host@, 4, x, b);
                        lemma_one_octet(host@, first + 1, y, c);
                    }
                }
            }
            false
        },
    }
}

/// Whether the host of a locator is a loopback address.
pub open spec fn on_loopback(locator: LocatorView) -> bool {
    locator.host matches Some(host) && is_loopback(host)
}

/// Whether a locator may be talked to: over TLS, or in plain HTTP to a
/// loopback address where that is allowed.
pub open spec fn is_secure(locator: LocatorView, allow_loopback_http: bool) -> bool {
    ||| locator.scheme == "https"@
    ||| locator.scheme == "http"@ && allow_loopback_http && on_loopback(locator)
}

pub fn secure_remote_url(url: &Locator, allow_loopback_http: bool) -> (r: Result<(), AppError>)
    ensures
        r is Ok <==> is_secure(url@, allow_loopback_http),
        r is Err ==> r->Err_0@ == failure::input_failure("plaintext_remote_forbidden"@),
{
    if text::same(url.scheme.as_str(), "https") {
        return Ok(());
    }
    let loopback = match &url.host {
        Some(host) => loopback_host(host.as_str()),
        None => false,
    };
    if text::same(url.scheme.as_str(), "http") && allow_loopback_http && loopback {
        Ok(())
    } else {
        Err(AppError::input("plaintext_remote_forbidden"))
    }
}

/// A locator that is no more than a scheme, a host and a port.
pub open spec fn is_origin(locator: LocatorView) -> bool {
    &&& locator.path == "/"@
    &&& locator.query is None
    &&& locator.fragment is None
    &&& locator.username.len() == 0
    &&& locator.password is None
}

/// The first thing wrong with a locator that should be a TLS origin.
pub open spec fn origin_failure(locator: LocatorView) -> Option<FailureView> {
    if !is_secure(locator, false) {
        Some(failure::input_failure("plaintext_remote_forbidden"@))
    } else if !is_origin(locator) {
        Some(failure::input_failure("rss_base_url_must_be_origin"@))
    } else {
        None
    }
}

/// The service is only reached at a TLS origin.
pub fn validate_rss_base_url(url: &Locator) -> (r: Result<(), AppError>)
    ensures
        match origin_failure(url@) {
            Some(failure) => r is Err && r->Err_0@ == failure,
            None => r is Ok,
        },
{
    match secure_remote_url(url, false) {
        Ok(()) => {},
        Err(error) => {
            return Err(error);
        },
    }
    if !text::same(url.path.as_str(), "/") || url.query.is_some() || url.fragment.is_some()
        || !url.username.as_str().is_empty() || url.password.is_some() {
        return Err(AppError::input("rss_base_url_must_be_origin"));
    }
    Ok(())
}

/// The path of an issuer, closed by exactly one slash.
pub open spec fn issuer_path(path: Seq<char>) -> Seq<char> {
    text::trimmed_end(path, '/').push('/')
}

/// Where an issuer publishes its configuration.
pub open spec fn discovery_of(issuer: LocatorView) -> Option<LocatorView> {
    match locator_with_path(issuer.text, issuer_path(issuer.path)) {
        Some(base) => locator_joined(base, ".well-known/openid-configuration"@),
        None => None,
    }
}

/// Whether a configuration locator can be built from an issuer without
/// coming near the length a locator can have.
pub open spec fn discoverable(issuer: LocatorView) -> bool {
    short(issuer.text) && issuer.path.len() < 0x100_0000
}

pub(crate) fn is_discoverable(issuer: &Locator) -> (r: bool)
    ensures
        r == discoverable(issuer@),
{
    is_short(issuer.text.as_str()) && issuer.path.as_str().unicode_len() < 0x100_0000
}

/// The configuration locator of any issuer; an overlong one is no argument
/// of this program.
pub fn checked_discovery_url(issuer: &Locator) -> (r: Result<Locator, AppError>)
    ensures
        if !discoverable(issuer@) {
            r is Err && r->Err_0@ == failure::input_failure("invalid_cli"@)
        } else {
            match discovery_of(issuer@) {
                Some(locator) => r is Ok && r->Ok_0@ == locator,
                None => r is Err && r->Err_0@ == failure::input_failure("invalid_issuer"@),
            }
        },
{
    if is_discoverable(issuer) {
        discovery_url(issuer)
    } else {
        Err(AppError::input("invalid_cli"))
    }
}

/// The issuer's path is kept, whatever realm it names.
pub fn discovery_url(issuer: &Locator) -> (r: Result<Locator, AppError>)
    requires
        discoverable(issuer@),
    ensures
        match discovery_of(issuer@) {
            Some(locator) => r is Ok && r->Ok_0@ == locator,
            None => r is Err && r->Err_0@ == failure::input_failure("invalid_issuer"@),
        },
{
    let mut path = text::trim_end(issuer.path.as_str(), '/');
    path.push('/');
    proof {
        lemma_trimmed_shorter(issuer@.path, '/');
    }
    let base = match with_path(issuer.text.as_str(), path.as_str()) {
        Some(base) => base,
        None => {
            return Err(AppError::input("invalid_issuer"));
        },
    };
    match join(base.as_str(), ".well-known/openid-configuration") {
        Some(locator) => Ok(locator),
        None => Err(AppError::input("invalid_issuer")),
    }
}

proof fn lemma_trimmed_shorter(path: Seq<char>, c: char)
    ensures
        text::trimmed_end(path, c).len() <= path.len(),
    decreases path.len(),
{
    if path.len() > 0 && path.last() == c {
        lemma_trimmed_shorter(path.drop_last(), c);
    }
}

/// A plain-text locator that passes is on the loopback: nothing remote is
/// ever reached without TLS.
pub proof fn law_plaintext_never_leaves_the_machine(locator: LocatorView, allow: bool)
    requires
        is_secure(locator, allow),
        locator.scheme != "https"@,
    ensures
        allow,
        on_loopback(locator),
{
}

} // verus!
