//! Broker-minted command assertions: a command counts as authenticated only
//! with the broker's signature over every coordinate of its frame.

use crate::digest;
use crate::display;
use crate::identity::{DeviceIdentity, IdentityView};
use crate::text;
use base64::Engine;
use vstd::prelude::*;
use vstd::string::*;
use vstd::utf8::*;

verus! {

/// Closed broker-assertion verification failure.
#[derive(Clone, Copy, PartialEq, Eq, Structural)]
pub struct BrokerAssertionError;

impl core::fmt::Debug for BrokerAssertionError {
    fn fmt(&self, formatter: &mut core::fmt::Formatter<'_>) -> (r: Result<(), core::fmt::Error>)
        ensures
            r is Ok ==> display::wrote(
                *old(formatter),
                *final(formatter),
                "BrokerAssertionError(\"MQTT broker assertion rejected\")"@,
            ),
    {
        formatter.write_str("BrokerAssertionError(\"MQTT broker assertion rejected\")")
    }
}

impl core::fmt::Display for BrokerAssertionError {
    fn fmt(&self, formatter: &mut core::fmt::Formatter<'_>) -> (r: Result<(), core::fmt::Error>)
        ensures
            r is Ok ==> display::wrote(
                *old(formatter),
                *final(formatter),
                "MQTT broker assertion rejected"@,
            ),
    {
        formatter.write_str("MQTT broker assertion rejected")
    }
}

impl std::error::Error for BrokerAssertionError {

}

/// What a text means in unpadded URL-safe base64.
pub uninterp spec fn base64url_decoded(value: Seq<char>) -> Option<Seq<u8>>;

/// `decode` of `base64::engine::general_purpose::URL_SAFE_NO_PAD` returns the
/// bytes that the text encodes, or an error.
#[verifier::external_body]
pub(crate) fn base64url_decode(value: &str) -> (r: Option<Vec<u8>>)
    ensures
        match base64url_decoded(value@) {
            Some(bytes) => r is Some && r->0@ == bytes,
            None => r is None,
        },
{
    base64::engine::general_purpose::URL_SAFE_NO_PAD.decode(value).ok()
}

/// The unpadded URL-safe base64 text of some bytes.
pub uninterp spec fn base64url_encoded(bytes: Seq<u8>) -> Seq<char>;

/// `encode` of `base64::engine::general_purpose::URL_SAFE_NO_PAD` renders
/// bytes as a text that decodes to them.
#[verifier::external_body]
pub(crate) fn base64url_encode(bytes: &[u8]) -> (r: String)
    ensures
        r@ == base64url_encoded(bytes@),
        base64url_decoded(r@) == Some(bytes@),
{
    base64::engine::general_purpose::URL_SAFE_NO_PAD.encode(bytes)
}

/// The signature is the key's Ed25519 signature of the message.
pub uninterp spec fn ed25519_valid(key: Seq<u8>, message: Seq<u8>, signature: Seq<u8>) -> bool;

/// `ring::signature::UnparsedPublicKey::verify` with `ED25519` accepts the
/// signature of the message under the key, or returns an error.
#[verifier::external_body]
fn ed25519_verify(key: &[u8], message: &[u8], signature: &[u8]) -> (r: bool)
    ensures
        r == ed25519_valid(key@, message@, signature@),
{
    ring::signature::UnparsedPublicKey::new(&ring::signature::ED25519, key).verify(
        message,
        signature,
    ).is_ok()
}

/// The properties of a frame, as texts.
pub open spec fn property_texts(properties: Seq<(String, String)>) -> Seq<(Seq<char>, Seq<char>)> {
    properties.map_values(|property: (String, String)| (property.0@, property.1@))
}

/// One publish frame as the broker delivered it.
#[derive(Clone, Copy)]
pub struct BrokerPublishFrame<'a> {
    pub topic: &'a str,
    pub payload: &'a [u8],
    pub correlation: &'a [u8],
    pub qos: u8,
    pub retain: bool,
    pub properties: &'a [(String, String)],
}

/// What a publish frame carries.
pub struct FrameView {
    pub topic: Seq<char>,
    pub payload: Seq<u8>,
    pub correlation: Seq<u8>,
    pub qos: u8,
    pub retain: bool,
    pub properties: Seq<(Seq<char>, Seq<char>)>,
}

impl View for BrokerPublishFrame<'_> {
    type V = FrameView;

    open spec fn view(&self) -> FrameView {
        FrameView {
            topic: self.topic@,
            payload: self.payload@,
            correlation: self.correlation@,
            qos: self.qos,
            retain: self.retain,
            properties: property_texts(self.properties@),
        }
    }
}

pub open spec fn is_reserved(key: Seq<char>) -> bool {
    text::starts_with(key, "rss.authn.v1."@)
}

pub open spec fn is_assertion_key(key: Seq<char>) -> bool {
    ||| key == "rss.authn.v1.version"@
    ||| key == "rss.authn.v1.principal"@
    ||| key == "rss.authn.v1.signature"@
}

/// The key occurs exactly once, with the value.
pub open spec fn sole_value(
    properties: Seq<(Seq<char>, Seq<char>)>,
    key: Seq<char>,
    value: Seq<char>,
) -> bool {
    &&& exists|i: int|
        0 <= i < properties.len() && (#[trigger] properties[i]).0 == key && properties[i].1 == value
    &&& forall|i: int, j: int|
        0 <= i < j < properties.len() ==> !((#[trigger] properties[i]).0 == key && (
        #[trigger] properties[j]).0 == key)
}

/// The reserved properties of a frame are one complete assertion: its three
/// keys once each, version one, and no other reserved key.
pub open spec fn asserts(
    properties: Seq<(Seq<char>, Seq<char>)>,
    principal: Seq<char>,
    signature: Seq<char>,
) -> bool {
    &&& forall|i: int|
        0 <= i < properties.len() ==> (is_reserved((#[trigger] properties[i]).0)
            ==> is_assertion_key(properties[i].0))
    &&& sole_value(properties, "rss.authn.v1.version"@, "1"@)
    &&& sole_value(properties, "rss.authn.v1.principal"@, principal)
    &&& sole_value(properties, "rss.authn.v1.signature"@, signature)
}

/// The place of a key among the first `n` properties.
enum Found {
    No,
    At(usize),
    Repeated,
}

spec fn found_within(
    properties: Seq<(Seq<char>, Seq<char>)>,
    n: int,
    key: Seq<char>,
    found: Found,
) -> bool {
    match found {
        Found::No => forall|i: int| 0 <= i < n ==> (#[trigger] properties[i]).0 != key,
        Found::At(at) => {
            &&& 0 <= at < n
            &&& properties[at as int].0 == key
            &&& forall|i: int| 0 <= i < n && i != at ==> (#[trigger] properties[i]).0 != key
        },
        Found::Repeated => exists|i: int, j: int|
            0 <= i < j < n && (#[trigger] properties[i]).0 == key && (#[trigger] properties[j]).0
                == key,
    }
}

fn find_key(properties: &[(String, String)], key: &str) -> (r: Found)
    ensures
        found_within(property_texts(properties@), properties@.len() as int, key@, r),
{
    let ghost all = property_texts(properties@);
    let mut found = Found::No;
    let mut i: usize = 0;
    while i < properties.len()
        invariant
            all == property_texts(properties@),
            i <= properties@.len() == all.len(),
            found_within(all, i as int, key@, found),
            !(found is Repeated),
        decreases properties@.len() - i,
    {
        assert(all[i as int].0 == properties@[i as int].0@);
        if text::same(properties[i].0.as_str(), key) {
            match found {
                Found::No => {
                    found = Found::At(i);
                },
                Found::At(at) => {
                    assert(all[at as int].0 == key@ && all[i as int].0 == key@);
                    return Found::Repeated;
                },
                Found::Repeated => {},
            }
        }
        i = i + 1;
    }
    found
}

fn reserved_keys_known(properties: &[(String, String)]) -> (r: bool)
    ensures
        r == (forall|i: int|
            0 <= i < properties@.len() ==> (is_reserved(
                (#[trigger] property_texts(properties@)[i]).0,
            ) ==> is_assertion_key(property_texts(properties@)[i].0))),
{
    let ghost all = property_texts(properties@);
    let prefix = text::chars_of("rss.authn.v1.");
    let mut i: usize = 0;
    while i < properties.len()
        invariant
            all == property_texts(properties@),
            prefix@ == "rss.authn.v1."@,
            i <= properties@.len() == all.len(),
            forall|a: int|
                0 <= a < i ==> (is_reserved((#[trigger] all[a]).0) ==> is_assertion_key(all[a].0)),
        decreases properties@.len() - i,
    {
        assert(all[i as int].0 == properties@[i as int].0@);
        let key = properties[i].0.as_str();
        let chars = text::chars_of(key);
        if text::has_prefix(chars.as_slice(), prefix.as_slice()) && !text::same(
            key,
            "rss.authn.v1.version",
        ) && !text::same(key, "rss.authn.v1.principal") && !text::same(
            key,
            "rss.authn.v1.signature",
        ) {
            assert(is_reserved(all[i as int].0) && !is_assertion_key(all[i as int].0));
            return false;
        }
        i = i + 1;
    }
    true
}

fn sole_property<'a>(properties: &'a [(String, String)], key: &str) -> (r: Option<&'a str>)
    ensures
        match r {
            Some(value) => sole_value(property_texts(properties@), key@, value@),
            None => forall|value: Seq<char>|
                !#[trigger] sole_value(property_texts(properties@), key@, value),
        },
{
    let ghost all = property_texts(properties@);
    match find_key(properties, key) {
        Found::At(at) => {
            assert(all[at as int].1 == properties@[at as int].1@);
            Some(properties[at].1.as_str())
        },
        Found::No => None,
        Found::Repeated => None,
    }
}

/// What an assertion claims.
pub struct AssertionProperties<'a> {
    pub principal: &'a str,
    pub signature: &'a str,
}

/// Reads the one assertion of a frame's properties.
pub fn assertion_properties(properties: &[(String, String)]) -> (r: Result<
    AssertionProperties<'_>,
    BrokerAssertionError,
>)
    ensures
        match r {
            Ok(assertion) => asserts(
                property_texts(properties@),
                assertion.principal@,
                assertion.signature@,
            ),
            Err(_) => forall|principal: Seq<char>, signature: Seq<char>|
                !#[trigger] asserts(property_texts(properties@), principal, signature),
        },
{
    if !reserved_keys_known(properties) {
        return Err(BrokerAssertionError);
    }
    match sole_property(properties, "rss.authn.v1.version") {
        Some(version) => {
            if !text::same(version, "1") {
                proof {
                    lemma_sole_value_unique(
                        property_texts(properties@),
                        "rss.authn.v1.version"@,
                        version@,
                        "1"@,
                    );
                }
                return Err(BrokerAssertionError);
            }
        },
        None => {
            return Err(BrokerAssertionError);
        },
    }
    let principal = match sole_property(properties, "rss.authn.v1.principal") {
        Some(principal) => principal,
        None => {
            return Err(BrokerAssertionError);
        },
    };
    let signature = match sole_property(properties, "rss.authn.v1.signature") {
        Some(signature) => signature,
        None => {
            return Err(BrokerAssertionError);
        },
    };
    Ok(AssertionProperties { principal, signature })
}

proof fn lemma_sole_value_unique(
    properties: Seq<(Seq<char>, Seq<char>)>,
    key: Seq<char>,
    a: Seq<char>,
    b: Seq<char>,
)
    requires
        sole_value(properties, key, a),
    ensures
        sole_value(properties, key, b) ==> a == b,
{
    if sole_value(properties, key, b) {
        let i = choose|i: int|
            0 <= i < properties.len() && (#[trigger] properties[i]).0 == key && properties[i].1 == a;
        let j = choose|j: int|
            0 <= j < properties.len() && (#[trigger] properties[j]).0 == key && properties[j].1 == b;
        if i < j {
            assert(!(properties[i].0 == key && properties[j].0 == key));
        } else if j < i {
            assert(!(properties[j].0 == key && properties[i].0 == key));
        }
    }
}

/// A field in front of which its length stands in four bytes.
pub open spec fn field(value: Seq<u8>) -> Seq<u8> {
    text::be_bytes(value.len(), 4) + value
}

pub open spec fn flag(value: bool) -> u8 {
    if value {
        1
    } else {
        0
    }
}

/// The bytes that the broker signs for a frame.
pub open spec fn signed_bytes(principal: Seq<char>, frame: FrameView) -> Seq<u8> {
    encode_utf8("rss.mqtt.authn.v1\0"@) + field(encode_utf8("1"@)) + field(encode_utf8(principal))
        + field(encode_utf8(frame.topic)) + field(frame.correlation) + field(
        digest::sha256_of(frame.payload),
    ) + field(seq![frame.qos]) + field(seq![flag(frame.retain)])
}

/// Every field is short enough for its length to be written.
pub open spec fn fits(principal: Seq<char>, frame: FrameView) -> bool {
    &&& encode_utf8(principal).len() <= u32::MAX
    &&& encode_utf8(frame.topic).len() <= u32::MAX
    &&& frame.correlation.len() <= u32::MAX
    &&& digest::sha256_of(frame.payload).len() <= u32::MAX
}

fn append_field(target: &mut Vec<u8>, value: &[u8]) -> (r: bool)
    ensures
        r == (value@.len() <= u32::MAX),
        r ==> final(target)@ == old(target)@ + field(value@),
{
    if value.len() > 0xffff_ffff {
        return false;
    }
    let ghost before = target@;
    text::push_be(target, value.len() as u128, 4);
    text::push_bytes(target, value);
    assert(target@ =~= before + field(value@));
    true
}

pub fn canonical_bytes(principal: &str, frame: &BrokerPublishFrame<'_>) -> (r: Result<
    Vec<u8>,
    BrokerAssertionError,
>)
    ensures
        fits(principal@, frame@) ==> r is Ok && r->Ok_0@ == signed_bytes(principal@, frame@),
        !fits(principal@, frame@) ==> r is Err,
{
    let payload_digest = digest::sha256(frame.payload);
    let mut bytes: Vec<u8> = Vec::new();
    text::push_text(&mut bytes, "rss.mqtt.authn.v1\0");
    proof {
        lemma_version_is_short();
    }
    if !append_field(&mut bytes, "1".as_bytes()) || !append_field(&mut bytes, principal.as_bytes())
        || !append_field(&mut bytes, frame.topic.as_bytes()) || !append_field(
        &mut bytes,
        frame.correlation,
    ) {
        return Err(BrokerAssertionError);
    }
    let mut qos: Vec<u8> = Vec::new();
    qos.push(frame.qos);
    let mut retain: Vec<u8> = Vec::new();
    retain.push(
        if frame.retain {
            1
        } else {
            0
        },
    );
    if !append_field(&mut bytes, payload_digest.as_slice()) || !append_field(
        &mut bytes,
        qos.as_slice(),
    ) || !append_field(&mut bytes, retain.as_slice()) {
        return Err(BrokerAssertionError);
    }
    assert(qos@ =~= seq![frame@.qos]);
    assert(retain@ =~= seq![flag(frame@.retain)]);
    assert(bytes@ =~= signed_bytes(principal@, frame@));
    Ok(bytes)
}

proof fn lemma_version_is_short()
    ensures
        encode_utf8("1"@).len() == 1,
{
    reveal_strlit("1");
    assert(is_ascii_chars("1"@));
    is_ascii_chars_encode_utf8("1"@);
}

/// A field is read back exactly, whatever follows it.
pub proof fn lemma_field_prefix(a: Seq<u8>, rest_a: Seq<u8>, b: Seq<u8>, rest_b: Seq<u8>)
    requires
        a.len() <= u32::MAX,
        b.len() <= u32::MAX,
        field(a) + rest_a == field(b) + rest_b,
    ensures
        a == b,
        rest_a == rest_b,
{
    let x = field(a) + rest_a;
    let y = field(b) + rest_b;
    text::lemma_be_bytes_len(a.len(), 4);
    text::lemma_be_bytes_len(b.len(), 4);
    assert(x.take(4) =~= text::be_bytes(a.len(), 4));
    assert(y.take(4) =~= text::be_bytes(b.len(), 4));
    text::lemma_pow_256();
    text::lemma_be_bytes_injective(a.len(), b.len(), 4);
    assert(x.subrange(4, 4 + a.len() as int) =~= a);
    assert(y.subrange(4, 4 + b.len() as int) =~= b);
    assert(x.skip(4 + a.len() as int) =~= rest_a);
    assert(y.skip(4 + b.len() as int) =~= rest_b);
}

proof fn lemma_sole_field(value: Seq<u8>)
    ensures
        field(value) + Seq::<u8>::empty() == field(value),
{
    assert(field(value) + Seq::<u8>::empty() =~= field(value));
}

proof fn lemma_associative(a: Seq<u8>, b: Seq<u8>, c: Seq<u8>)
    ensures
        a + b + c == a + (b + c),
{
    assert(a + b + c =~= a + (b + c));
}

/// Six runs behind a common front: what follows the front is the same
/// however the runs are grouped.
proof fn lemma_nested(
    front: Seq<u8>,
    a: Seq<u8>,
    b: Seq<u8>,
    c: Seq<u8>,
    d: Seq<u8>,
    e: Seq<u8>,
    f: Seq<u8>,
)
    ensures
        (front + a + b + c + d + e + f).skip(front.len() as int) == a + (b + (c + (d + (e + f)))),
{
    lemma_associative(front + a + b + c + d, e, f);
    lemma_associative(front + a + b + c, d, e + f);
    lemma_associative(front + a + b, c, d + (e + f));
    lemma_associative(front + a, b, c + (d + (e + f)));
    lemma_associative(front, a, b + (c + (d + (e + f))));
    let rest = a + (b + (c + (d + (e + f))));
    assert((front + rest).skip(front.len() as int) =~= rest);
}

/// A signature covers exact coordinates: frames with the same signed bytes
/// have the same principal, topic, correlation, payload digest, quality of
/// service and retain flag.
pub proof fn law_signed_coordinates_are_exact(
    principal: Seq<char>,
    frame: FrameView,
    other_principal: Seq<char>,
    other: FrameView,
)
    requires
        fits(principal, frame),
        fits(other_principal, other),
        signed_bytes(principal, frame) == signed_bytes(other_principal, other),
    ensures
        principal == other_principal,
        frame.topic == other.topic,
        frame.correlation == other.correlation,
        digest::sha256_of(frame.payload) == digest::sha256_of(other.payload),
        frame.qos == other.qos,
        frame.retain == other.retain,
{
    let domain = encode_utf8("rss.mqtt.authn.v1\0"@) + field(encode_utf8("1"@));
    let f1 = encode_utf8(principal);
    let f2 = encode_utf8(frame.topic);
    let f3 = frame.correlation;
    let f4 = digest::sha256_of(frame.payload);
    let f5 = seq![frame.qos];
    let f6 = seq![flag(frame.retain)];
    let g1 = encode_utf8(other_principal);
    let g2 = encode_utf8(other.topic);
    let g3 = other.correlation;
    let g4 = digest::sha256_of(other.payload);
    let g5 = seq![other.qos];
    let g6 = seq![flag(other.retain)];
    lemma_nested(domain, field(f1), field(f2), field(f3), field(f4), field(f5), field(f6));
    lemma_nested(domain, field(g1), field(g2), field(g3), field(g4), field(g5), field(g6));
    lemma_sole_field(f6);
    lemma_sole_field(g6);
    lemma_field_prefix(
        f1,
        field(f2) + (field(f3) + (field(f4) + (field(f5) + field(f6)))),
        g1,
        field(g2) + (field(g3) + (field(g4) + (field(g5) + field(g6)))),
    );
    lemma_field_prefix(
        f2,
        field(f3) + (field(f4) + (field(f5) + field(f6))),
        g2,
        field(g3) + (field(g4) + (field(g5) + field(g6))),
    );
    lemma_field_prefix(
        f3,
        field(f4) + (field(f5) + field(f6)),
        g3,
        field(g4) + (field(g5) + field(g6)),
    );
    lemma_field_prefix(f4, field(f5) + field(f6), g4, field(g5) + field(g6));
    lemma_field_prefix(f5, field(f6), g5, field(g6));
    lemma_field_prefix(f6, Seq::empty(), g6, Seq::empty());
    text::lemma_utf8_injective(principal, other_principal);
    text::lemma_utf8_injective(frame.topic, other.topic);
    assert(f5[0] == g5[0]);
    assert(f6[0] == g6[0]);
}

pub open spec fn all_zero(bytes: Seq<u8>) -> bool {
    forall|i: int| 0 <= i < bytes.len() ==> #[trigger] bytes[i] == 0
}

/// The key that a text stands for: 32 bytes, not all zero, in the one text
/// that encodes them.
pub open spec fn key_of(
    value: Seq<char>,
    decoded: Option<Seq<u8>>,
    canonical: Seq<char>,
) -> Option<Seq<u8>> {
    match decoded {
        Some(key) => if key.len() == 32 && canonical == value && !all_zero(key) {
            Some(key)
        } else {
            None
        },
        None => None,
    }
}

/// The key that a canonical unpadded base64url text stands for.
pub open spec fn broker_key(value: Seq<char>) -> Option<Seq<u8>> {
    match base64url_decoded(value) {
        Some(key) => key_of(value, Some(key), base64url_encoded(key)),
        None => None,
    }
}

fn zero_bytes(bytes: &[u8]) -> (r: bool)
    ensures
        r == all_zero(bytes@),
{
    let mut i: usize = 0;
    while i < bytes.len()
        invariant
            i <= bytes@.len(),
            forall|j: int| 0 <= j < i ==> #[trigger] bytes@[j] == 0,
        decreases bytes@.len() - i,
    {
        if bytes[i] != 0 {
            return false;
        }
        i = i + 1;
    }
    true
}

/// Takes what a signature text was decoded to.
pub fn require_signature(decoded: Option<Vec<u8>>) -> (r: Result<Vec<u8>, BrokerAssertionError>)
    ensures
        match decoded {
            Some(bytes) => if bytes@.len() == 64 {
                r == Ok::<Vec<u8>, BrokerAssertionError>(bytes)
            } else {
                r is Err
            },
            None => r is Err,
        },
{
    match decoded {
        Some(bytes) => if bytes.len() == 64 {
            Ok(bytes)
        } else {
            Err(BrokerAssertionError)
        },
        None => Err(BrokerAssertionError),
    }
}

/// Ed25519 verification material for broker-minted command assertions.
#[derive(PartialEq, Eq)]
pub struct BrokerAssertionVerifier {
    public_key: Vec<u8>,
}

impl View for BrokerAssertionVerifier {
    type V = Seq<u8>;

    closed spec fn view(&self) -> Seq<u8> {
        self.public_key@
    }
}

impl core::fmt::Debug for BrokerAssertionVerifier {
    fn fmt(&self, formatter: &mut core::fmt::Formatter<'_>) -> (r: Result<(), core::fmt::Error>)
        ensures
            r is Ok ==> display::wrote(
                *old(formatter),
                *final(formatter),
                "BrokerAssertionVerifier(<public-key>)"@,
            ),
    {
        formatter.write_str("BrokerAssertionVerifier(<public-key>)")
    }
}

/// The frame carries a complete assertion for the identity, signed under the key.
pub open spec fn frame_authentic(key: Seq<u8>, identity: IdentityView, frame: FrameView) -> bool {
    &&& frame.qos == 1
    &&& !frame.retain
    &&& fits(identity.principal_urn(), frame)
    &&& exists|signature: Seq<char>|
        #[trigger] asserts(frame.properties, identity.principal_urn(), signature)
            && (base64url_decoded(signature) matches Some(bytes) && bytes.len() == 64
            && ed25519_valid(key, signed_bytes(identity.principal_urn(), frame), bytes))
}

impl BrokerAssertionVerifier {
    #[verifier::type_invariant]
    spec fn inv(self) -> bool {
        self.public_key@.len() == 32 && !all_zero(self.public_key@)
    }

    /// Takes a key text with what it decodes to and what that encodes to.
    pub fn from_decoded(value: &str, decoded: Option<Vec<u8>>, canonical: &str) -> (r: Result<
        Self,
        BrokerAssertionError,
    >)
        ensures
            match key_of(
                value@,
                match decoded {
                    Some(bytes) => Some(bytes@),
                    None => None,
                },
                canonical@,
            ) {
                Some(key) => r is Ok && r->Ok_0@ == key,
                None => r is Err,
            },
    {
        match decoded {
            Some(public_key) => if public_key.len() == 32 && text::same(canonical, value)
                && !zero_bytes(public_key.as_slice()) {
                Ok(BrokerAssertionVerifier { public_key })
            } else {
                Err(BrokerAssertionError)
            },
            None => Err(BrokerAssertionError),
        }
    }

    /// Parses one canonical unpadded base64url Ed25519 public key.
    pub fn from_base64(value: &str) -> (r: Result<Self, BrokerAssertionError>)
        ensures
            match broker_key(value@) {
                Some(key) => r is Ok && r->Ok_0@ == key,
                None => r is Err,
            },
    {
        match base64url_decode(value) {
            Some(decoded) => {
                let canonical = base64url_encode(decoded.as_slice());
                Self::from_decoded(value, Some(decoded), canonical.as_str())
            },
            None => Err(BrokerAssertionError),
        }
    }

    /// Verifies the broker-minted assertion on one exact command transport frame.
    pub fn verify_command(
        &self,
        identity: &DeviceIdentity,
        topic: &str,
        payload: &[u8],
        correlation: &[u8],
        qos: u8,
        retain: bool,
        properties: &[(String, String)],
    ) -> (r: Result<(), BrokerAssertionError>)
        ensures
            r is Ok == frame_authentic(
                self@,
                identity@,
                FrameView {
                    topic: topic@,
                    payload: payload@,
                    correlation: correlation@,
                    qos,
                    retain,
                    properties: property_texts(properties@),
                },
            ),
    {
        self.verify(
            identity,
            &BrokerPublishFrame { topic, payload, correlation, qos, retain, properties },
        )
    }

    pub fn verify(&self, identity: &DeviceIdentity, frame: &BrokerPublishFrame<'_>) -> (r: Result<
        (),
        BrokerAssertionError,
    >)
        ensures
            r is Ok == frame_authentic(self@, identity@, frame@),
    {
        if frame.qos != 1 || frame.retain {
            return Err(BrokerAssertionError);
        }
        let ghost properties = frame@.properties;
        let ghost urn = identity@.principal_urn();
        let assertion = match assertion_properties(frame.properties) {
            Ok(assertion) => assertion,
            Err(error) => {
                return Err(error);
            },
        };
        proof {
            assert forall|signature: Seq<char>| #[trigger]
                asserts(properties, urn, signature) implies urn == assertion.principal@
                && signature == assertion.signature@ by {
                lemma_sole_value_unique(
                    properties,
                    "rss.authn.v1.principal"@,
                    urn,
                    assertion.principal@,
                );
                lemma_sole_value_unique(
                    properties,
                    "rss.authn.v1.signature"@,
                    signature,
                    assertion.signature@,
                );
            }
        }
        let expected = identity.principal_urn();
        if !text::same(assertion.principal, expected.as_str()) {
            return Err(BrokerAssertionError);
        }
        let signature = match require_signature(base64url_decode(assertion.signature)) {
            Ok(signature) => signature,
            Err(error) => {
                return Err(error);
            },
        };
        let signed = match canonical_bytes(assertion.principal, frame) {
            Ok(signed) => signed,
            Err(error) => {
                return Err(error);
            },
        };
        if ed25519_verify(self.public_key.as_slice(), signed.as_slice(), signature.as_slice()) {
            assert(asserts(properties, urn, assertion.signature@));
            Ok(())
        } else {
            Err(BrokerAssertionError)
        }
    }
}

impl Clone for BrokerAssertionVerifier {
    fn clone(&self) -> (r: Self)
        ensures
            r@ == self@,
    {
        proof {
            use_type_invariant(self);
        }
        let public_key = self.public_key.clone();
        assert(public_key@ =~= self.public_key@);
        BrokerAssertionVerifier { public_key }
    }
}

/// A retained command, and one of another quality of service, is never authentic.
pub proof fn law_retained_and_unacknowledged_frames_are_rejected(
    key: Seq<u8>,
    identity: IdentityView,
    frame: FrameView,
)
    requires
        frame.retain || frame.qos != 1,
    ensures
        !frame_authentic(key, identity, frame),
{
}

/// A frame with an unknown reserved property, or with a reserved property
/// that stands twice, is never authentic.
pub proof fn law_foreign_assertion_properties_are_rejected(
    key: Seq<u8>,
    identity: IdentityView,
    frame: FrameView,
    i: int,
    j: int,
)
    requires
        0 <= j < frame.properties.len(),
        is_reserved(frame.properties[j].0),
        !is_assertion_key(frame.properties[j].0) || (0 <= i < frame.properties.len() && i != j
            && frame.properties[i].0 == frame.properties[j].0),
    ensures
        !frame_authentic(key, identity, frame),
{
    let repeated = frame.properties[j].0;
    if is_assertion_key(repeated) {
        assert forall|value: Seq<char>| !#[trigger] sole_value(
            frame.properties,
            repeated,
            value,
        ) by {
            let (first, second) = if i < j {
                (i, j)
            } else {
                (j, i)
            };
            assert(frame.properties[first].0 == repeated && frame.properties[second].0 == repeated);
        }
    }
}

} // verus!
