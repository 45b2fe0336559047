//! SHA-256 and its textual form.

use crate::text;
use sha2::Digest;
use vstd::prelude::*;
use vstd::string::*;

verus! {

/// The SHA-256 digest of a run of bytes.
pub uninterp spec fn sha256_of(data: Seq<u8>) -> Seq<u8>;

/// `sha2::Sha256::digest` hashes the whole of `data` and returns its 32 digest bytes.
#[verifier::external_body]
pub(crate) fn sha256(data: &[u8]) -> (r: Vec<u8>)
    ensures
        r@ == sha256_of(data@),
        r@.len() == 32,
{
    sha2::Sha256::digest(data).to_vec()
}

pub open spec fn is_hex_lower(c: char) -> bool {
    '0' <= c <= '9' || 'a' <= c <= 'f'
}

/// `sha256:` followed by 64 lower-case hexadecimal digits.
pub open spec fn is_digest_text(value: Seq<char>) -> bool {
    &&& value.len() == 71
    &&& text::starts_with(value, "sha256:"@)
    &&& forall|i: int| 7 <= i < 71 ==> is_hex_lower(#[trigger] value[i])
}

/// The textual form of the digest of `data`.
pub open spec fn digest_text_of(data: Seq<u8>) -> Seq<char> {
    "sha256:"@ + text::hex(sha256_of(data))
}

pub fn digest_text(data: &[u8]) -> (r: String)
    ensures
        r@ == digest_text_of(data@),
        is_digest_text(r@),
{
    let digest = sha256(data);
    let mut out = String::from_str("sha256:");
    out.append(text::hex_text(digest.as_slice()).as_str());
    proof {
        lemma_digest_text_shape(digest@);
    }
    out
}

/// The textual form of any 32 bytes is a well-formed digest text.
pub proof fn lemma_digest_text_shape(digest: Seq<u8>)
    requires
        digest.len() == 32,
    ensures
        is_digest_text("sha256:"@ + text::hex(digest)),
{
    reveal_strlit("sha256:");
    let value = "sha256:"@ + text::hex(digest);
    assert(value.take(7) =~= "sha256:"@);
    assert forall|i: int| 7 <= i < 71 implies is_hex_lower(#[trigger] value[i]) by {
        assert(value[i] == text::hex(digest)[i - 7]);
    }
}

pub fn digest_shaped(value: &str) -> (r: bool)
    ensures
        r == is_digest_text(value@),
{
    let chars = text::chars_of(value);
    let prefix = text::chars_of("sha256:");
    if chars.len() != 71 || !text::has_prefix(chars.as_slice(), prefix.as_slice()) {
        return false;
    }
    let mut i: usize = 7;
    while i < 71
        invariant
            7 <= i <= 71,
            chars@ == value@,
            chars@.len() == 71,
            forall|j: int| 7 <= j < i ==> is_hex_lower(#[trigger] chars@[j]),
        decreases 71 - i,
    {
        let c = chars[i];
        if !(('0' <= c && c <= '9') || ('a' <= c && c <= 'f')) {
            assert(!is_hex_lower(value@[i as int]));
            return false;
        }
        i = i + 1;
    }
    true
}

} // verus!
