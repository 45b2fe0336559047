//! Text and byte vocabulary shared by every module: character classes,
//! decimal and hexadecimal rendering, and big-endian framing.

use vstd::prelude::*;
use vstd::string::*;
use vstd::utf8::*;

verus! {

/// `String::push` appends one character to the end of the string.
pub assume_specification[ String::push ](string: &mut String, c: char)
    ensures
        final(string)@ == old(string)@.push(c),
;

/// The control category: the C0 range, DEL and the C1 range.
pub open spec fn is_control(c: char) -> bool {
    c <= '\u{1f}' || '\u{7f}' <= c <= '\u{9f}'
}

/// The characters that carry the Unicode `White_Space` property.
pub open spec fn is_white_space(c: char) -> bool {
    ||| '\u{9}' <= c <= '\u{d}'
    ||| c == '\u{20}'
    ||| c == '\u{85}'
    ||| c == '\u{a0}'
    ||| c == '\u{1680}'
    ||| '\u{2000}' <= c <= '\u{200a}'
    ||| c == '\u{2028}'
    ||| c == '\u{2029}'
    ||| c == '\u{202f}'
    ||| c == '\u{205f}'
    ||| c == '\u{3000}'
}

pub open spec fn has_control(text: Seq<char>) -> bool {
    exists|i: int| 0 <= i < text.len() && is_control(#[trigger] text[i])
}

/// Nothing is left of the text once white space is trimmed from both ends.
pub open spec fn is_blank(text: Seq<char>) -> bool {
    forall|i: int| 0 <= i < text.len() ==> is_white_space(#[trigger] text[i])
}

pub fn control_char(c: char) -> (r: bool)
    ensures
        r == is_control(c),
{
    c <= '\u{1f}' || ('\u{7f}' <= c && c <= '\u{9f}')
}

pub fn white_space_char(c: char) -> (r: bool)
    ensures
        r == is_white_space(c),
{
    ('\u{9}' <= c && c <= '\u{d}') || c == '\u{20}' || c == '\u{85}' || c == '\u{a0}' || c
        == '\u{1680}' || ('\u{2000}' <= c && c <= '\u{200a}') || c == '\u{2028}' || c == '\u{2029}'
        || c == '\u{202f}' || c == '\u{205f}' || c == '\u{3000}'
}

pub fn contains_control(text: &str) -> (r: bool)
    ensures
        r == has_control(text@),
{
    for c in it: text.chars()
        invariant
            it.seq() == text@,
            forall|i: int| 0 <= i < it.index() ==> !is_control(#[trigger] text@[i]),
    {
        if control_char(c) {
            assert(is_control(text@[it.index() as int]));
            return true;
        }
    }
    false
}

pub fn blank(text: &str) -> (r: bool)
    ensures
        r == is_blank(text@),
{
    for c in it: text.chars()
        invariant
            it.seq() == text@,
            forall|i: int| 0 <= i < it.index() ==> is_white_space(#[trigger] text@[i]),
    {
        if !white_space_char(c) {
            assert(!is_white_space(text@[it.index() as int]));
            return false;
        }
    }
    true
}

/// The characters of a text, one element each.
pub fn chars_of(text: &str) -> (r: Vec<char>)
    ensures
        r@ == text@,
{
    let mut out: Vec<char> = Vec::new();
    for c in it: text.chars()
        invariant
            it.seq() == text@,
            out@ == text@.take(it.index() as int),
    {
        out.push(c);
        assert(out@ == text@.take(it.index() + 1));
    }
    assert(text@.take(text@.len() as int) == text@);
    out
}

/// Two texts that encode to the same bytes are the same text.
pub proof fn lemma_utf8_injective(a: Seq<char>, b: Seq<char>)
    requires
        encode_utf8(a) == encode_utf8(b),
    ensures
        a == b,
{
    encode_utf8_decode_utf8(a);
    encode_utf8_decode_utf8(b);
}

/// Byte-wise equality of two runs.
pub fn same_bytes(a: &[u8], b: &[u8]) -> (r: bool)
    ensures
        r == (a@ == b@),
{
    if a.len() != b.len() {
        return false;
    }
    let mut i: usize = 0;
    while i < a.len()
        invariant
            a@.len() == b@.len(),
            i <= a@.len(),
            forall|j: int| 0 <= j < i ==> a@[j] == b@[j],
        decreases a@.len() - i,
    {
        if a[i] != b[i] {
            return false;
        }
        i = i + 1;
    }
    assert(a@ =~= b@);
    true
}

pub fn same(a: &str, b: &str) -> (r: bool)
    ensures
        r == (a@ == b@),
{
    let r = same_bytes(a.as_bytes(), b.as_bytes());
    proof {
        if r {
            lemma_utf8_injective(a@, b@);
        }
    }
    r
}

/// The text starts with the characters of `prefix`.
pub open spec fn starts_with(text: Seq<char>, prefix: Seq<char>) -> bool {
    prefix.len() <= text.len() && text.take(prefix.len() as int) == prefix
}

pub fn has_prefix(text: &[char], prefix: &[char]) -> (r: bool)
    ensures
        r == starts_with(text@, prefix@),
{
    if prefix.len() > text.len() {
        return false;
    }
    let mut i: usize = 0;
    while i < prefix.len()
        invariant
            prefix@.len() <= text@.len(),
            i <= prefix@.len(),
            forall|j: int| 0 <= j < i ==> text@[j] == prefix@[j],
        decreases prefix@.len() - i,
    {
        if text[i] != prefix[i] {
            assert(text@.take(prefix@.len() as int)[i as int] != prefix@[i as int]);
            return false;
        }
        i = i + 1;
    }
    assert(text@.take(prefix@.len() as int) =~= prefix@);
    true
}

/// The character of a decimal digit.
pub open spec fn decimal_digit(d: nat) -> char
    recommends
        d < 10,
{
    ('0' as u32 + d) as char
}

/// Decimal rendering without leading zeros.
pub open spec fn decimal(n: nat) -> Seq<char>
    decreases n,
{
    if n < 10 {
        seq![decimal_digit(n)]
    } else {
        decimal(n / 10).push(decimal_digit(n % 10))
    }
}

fn decimal_char(d: u64) -> (r: char)
    requires
        d < 10,
    ensures
        r == decimal_digit(d as nat),
{
    match d {
        0 => '0',
        1 => '1',
        2 => '2',
        3 => '3',
        4 => '4',
        5 => '5',
        6 => '6',
        7 => '7',
        8 => '8',
        _ => '9',
    }
}

pub fn decimal_text(n: u64) -> (r: String)
    ensures
        r@ == decimal(n as nat),
    decreases n,
{
    if n < 10 {
        let mut out = String::new();
        out.push(decimal_char(n));
        assert(out@ =~= decimal(n as nat));
        out
    } else {
        let mut out = decimal_text(n / 10);
        out.push(decimal_char(n % 10));
        out
    }
}

/// The lower-case hexadecimal digit of a value below sixteen.
pub open spec fn hex_digit(d: u8) -> char {
    if d < 10 {
        ('0' as u32 + d) as char
    } else {
        ('a' as u32 + (d - 10)) as char
    }
}

/// Two lower-case hexadecimal digits for each byte, high half first.
pub open spec fn hex(bytes: Seq<u8>) -> Seq<char> {
    Seq::new(
        2 * bytes.len(),
        |i: int| if i % 2 == 0 {
            hex_digit(bytes[i / 2] / 16)
        } else {
            hex_digit(bytes[i / 2] % 16)
        },
    )
}

fn hex_char(d: u8) -> (r: char)
    requires
        d < 16,
    ensures
        r == hex_digit(d),
{
    match d {
        0 => '0',
        1 => '1',
        2 => '2',
        3 => '3',
        4 => '4',
        5 => '5',
        6 => '6',
        7 => '7',
        8 => '8',
        9 => '9',
        10 => 'a',
        11 => 'b',
        12 => 'c',
        13 => 'd',
        14 => 'e',
        _ => 'f',
    }
}

pub fn hex_text(bytes: &[u8]) -> (r: String)
    ensures
        r@ == hex(bytes@),
{
    let mut out = String::new();
    let mut i: usize = 0;
    while i < bytes.len()
        invariant
            i <= bytes@.len(),
            out@ == hex(bytes@.take(i as int)),
        decreases bytes@.len() - i,
    {
        let b: u8 = bytes[i];
        out.push(hex_char(b / 16));
        out.push(hex_char(b % 16));
        i = i + 1;
        assert(out@ =~= hex(bytes@.take(i as int)));
    }
    assert(bytes@.take(bytes@.len() as int) == bytes@);
    out
}

/// Big-endian rendering of `value` in exactly `width` bytes.
pub open spec fn be_bytes(value: nat, width: nat) -> Seq<u8>
    decreases width,
{
    if width == 0 {
        Seq::empty()
    } else {
        be_bytes(value / 256, (width - 1) as nat).push((value % 256) as u8)
    }
}

pub proof fn lemma_be_bytes_len(value: nat, width: nat)
    ensures
        be_bytes(value, width).len() == width,
    decreases width,
{
    if width > 0 {
        lemma_be_bytes_len(value / 256, (width - 1) as nat);
    }
}

/// Distinct values that fit the width have distinct renderings.
pub proof fn lemma_be_bytes_injective(a: nat, b: nat, width: nat)
    requires
        be_bytes(a, width) == be_bytes(b, width),
        a < vstd::arithmetic::power::pow(256, width),
        b < vstd::arithmetic::power::pow(256, width),
    ensures
        a == b,
    decreases width,
{
    reveal(vstd::arithmetic::power::pow);
    if width > 0 {
        let rest = (width - 1) as nat;
        lemma_be_bytes_len(a / 256, rest);
        lemma_be_bytes_len(b / 256, rest);
        let x = be_bytes(a, width);
        let y = be_bytes(b, width);
        assert(x.drop_last() =~= be_bytes(a / 256, rest));
        assert(y.drop_last() =~= be_bytes(b / 256, rest));
        assert(x.last() == y.last());
        assert(a / 256 < vstd::arithmetic::power::pow(256, rest)) by (nonlinear_arith)
            requires
                a < 256 * vstd::arithmetic::power::pow(256, rest),
        ;
        assert(b / 256 < vstd::arithmetic::power::pow(256, rest)) by (nonlinear_arith)
            requires
                b < 256 * vstd::arithmetic::power::pow(256, rest),
        ;
        lemma_be_bytes_injective(a / 256, b / 256, rest);
    }
}

/// How far four and eight bytes reach.
pub proof fn lemma_pow_256()
    ensures
        vstd::arithmetic::power::pow(256, 4) == u32::MAX + 1,
        vstd::arithmetic::power::pow(256, 8) == u64::MAX + 1,
        vstd::arithmetic::power::pow(256, 16) == u128::MAX + 1,
{
    reveal_with_fuel(vstd::arithmetic::power::pow, 17);
}

/// Appends the big-endian bytes of `value`.
pub fn push_be(out: &mut Vec<u8>, value: u128, width: usize)
    ensures
        final(out)@ == old(out)@ + be_bytes(value as nat, width as nat),
    decreases width,
{
    if width == 0 {
        assert(out@ + be_bytes(value as nat, 0) =~= out@);
    } else {
        let ghost before = out@;
        push_be(out, value / 256, width - 1);
        out.push((value % 256) as u8);
        assert(out@ =~= before + be_bytes(value as nat, width as nat));
    }
}

/// `std::str::from_utf8` accepts exactly the valid UTF-8 encodings and
/// returns the text that the bytes encode.
#[verifier::external_body]
pub(crate) fn utf8_text(bytes: &[u8]) -> (r: Option<String>)
    ensures
        valid_utf8(bytes@) ==> r is Some && r->0@ == decode_utf8(bytes@),
        !valid_utf8(bytes@) ==> r is None,
{
    core::str::from_utf8(bytes).ok().map(str::to_owned)
}

/// Appends a run of bytes.
pub fn push_bytes(out: &mut Vec<u8>, bytes: &[u8])
    ensures
        final(out)@ == old(out)@ + bytes@,
{
    let ghost before = out@;
    let mut i: usize = 0;
    while i < bytes.len()
        invariant
            i <= bytes@.len(),
            out@ == before + bytes@.take(i as int),
        decreases bytes@.len() - i,
    {
        out.push(bytes[i]);
        i = i + 1;
        assert(out@ =~= before + bytes@.take(i as int));
    }
    assert(bytes@.take(bytes@.len() as int) == bytes@);
}

/// Appends the UTF-8 bytes of a text.
pub fn push_text(out: &mut Vec<u8>, text: &str)
    ensures
        final(out)@ == old(out)@ + encode_utf8(text@),
{
    push_bytes(out, text.as_bytes());
}

/// White-space separation in progress: the words that ended, and the one
/// that has not.
pub open spec fn word_state(text: Seq<char>) -> (Seq<Seq<char>>, Seq<char>)
    decreases text.len(),
{
    if text.len() == 0 {
        (Seq::empty(), Seq::empty())
    } else {
        let (words, current) = word_state(text.drop_last());
        if !is_white_space(text.last()) {
            (words, current.push(text.last()))
        } else if current.len() == 0 {
            (words, current)
        } else {
            (words.push(current), Seq::empty())
        }
    }
}

/// The words of a text: its longest runs without white space, in order.
pub open spec fn words(text: Seq<char>) -> Seq<Seq<char>> {
    let (words, current) = word_state(text);
    if current.len() == 0 {
        words
    } else {
        words.push(current)
    }
}

/// The views of a list of texts.
pub open spec fn texts(list: Seq<String>) -> Seq<Seq<char>> {
    list.map_values(|item: String| item@)
}

pub fn split_words(text: &str) -> (r: Vec<String>)
    ensures
        texts(r@) == words(text@),
{
    let chars = chars_of(text);
    let mut out: Vec<String> = Vec::new();
    let mut current = String::new();
    let mut i: usize = 0;
    while i < chars.len()
        invariant
            i <= chars@.len(),
            word_state(chars@.take(i as int)) == (texts(out@), current@),
        decreases chars@.len() - i,
    {
        let c = chars[i];
        let ghost before = out@;
        assert(chars@.take(i + 1).drop_last() =~= chars@.take(i as int));
        assert(chars@.take(i + 1).last() == c);
        if !white_space_char(c) {
            current.push(c);
        } else if !current.as_str().is_empty() {
            out.push(current);
            current = String::new();
            assert(texts(out@) =~= texts(before).push(out@.last()@));
            assert(current@ =~= Seq::<char>::empty());
        }
        i = i + 1;
    }
    assert(chars@.take(chars@.len() as int) =~= text@);
    if !current.as_str().is_empty() {
        let ghost before = out@;
        out.push(current);
        assert(texts(out@) =~= texts(before).push(out@.last()@));
    }
    out
}

/// The pieces of a text between the occurrences of a separator.
pub open spec fn pieces(text: Seq<char>, separator: char) -> Seq<Seq<char>>
    decreases text.len(),
{
    if text.len() == 0 {
        seq![Seq::empty()]
    } else {
        let before = pieces(text.drop_last(), separator);
        if text.last() == separator {
            before.push(Seq::empty())
        } else {
            before.drop_last().push(before.last().push(text.last()))
        }
    }
}

pub fn split_pieces(text: &str, separator: char) -> (r: Vec<String>)
    ensures
        texts(r@) == pieces(text@, separator),
{
    let chars = chars_of(text);
    let mut out: Vec<String> = Vec::new();
    let mut current = String::new();
    let mut i: usize = 0;
    assert(texts(out@).push(current@) =~= pieces(chars@.take(0), separator));
    while i < chars.len()
        invariant
            i <= chars@.len(),
            texts(out@).push(current@) == pieces(chars@.take(i as int), separator),
        decreases chars@.len() - i,
    {
        let c = chars[i];
        let ghost listed = out@;
        let ghost last = current@;
        assert(chars@.take(i + 1).drop_last() =~= chars@.take(i as int));
        assert(chars@.take(i + 1).last() == c);
        assert(texts(listed).push(last).drop_last() =~= texts(listed));
        if c == separator {
            out.push(current);
            current = String::new();
            assert(texts(out@) =~= texts(listed).push(last));
            assert(current@ =~= Seq::<char>::empty());
        } else {
            current.push(c);
        }
        i = i + 1;
    }
    assert(chars@.take(chars@.len() as int) =~= text@);
    let ghost listed = out@;
    let ghost last = current@;
    out.push(current);
    assert(texts(out@) =~= texts(listed).push(last));
    out
}

/// What stands before the first line break of a text, or all of it.
pub open spec fn first_line(text: Seq<char>) -> Seq<char>
    decreases text.len(),
{
    if text.len() == 0 || (text.len() > 1 && text[0] == '\r' && text[1] == '\n') {
        Seq::empty()
    } else {
        seq![text[0]] + first_line(text.skip(1))
    }
}

pub fn take_first_line(text: &str) -> (r: String)
    ensures
        r@ == first_line(text@),
{
    let chars = chars_of(text);
    let mut out = String::new();
    let mut i: usize = 0;
    assert(chars@.skip(0) =~= text@);
    assert(out@ + first_line(chars@.skip(0)) =~= first_line(text@));
    while i < chars.len()
        invariant
            i <= chars@.len(),
            out@ + first_line(chars@.skip(i as int)) == first_line(text@),
        decreases chars@.len() - i,
    {
        let ghost rest = chars@.skip(i as int);
        assert(rest[0] == chars@[i as int]);
        assert(rest.skip(1) =~= chars@.skip(i + 1));
        if chars[i] == '\r' && i + 1 < chars.len() && chars[i + 1] == '\n' {
            assert(rest[1] == chars@[i + 1]);
            assert(out@ + first_line(rest) =~= out@);
            return out;
        }
        let ghost before = out@;
        out.push(chars[i]);
        assert(first_line(rest) == seq![rest[0]] + first_line(rest.skip(1))) by {
            if rest.len() > 1 {
                assert(rest[1] == chars@[i + 1]);
            }
        }
        assert(out@ + first_line(chars@.skip(i + 1)) =~= before + first_line(rest));
        i = i + 1;
    }
    assert(out@ + first_line(chars@.skip(i as int)) =~= out@);
    out
}

/// The text without the run of `c` that it ends in.
pub open spec fn trimmed_end(text: Seq<char>, c: char) -> Seq<char>
    decreases text.len(),
{
    if text.len() > 0 && text.last() == c {
        trimmed_end(text.drop_last(), c)
    } else {
        text
    }
}

pub fn trim_end(text: &str, c: char) -> (r: String)
    ensures
        r@ == trimmed_end(text@, c),
{
    let chars = chars_of(text);
    let mut end: usize = chars.len();
    assert(chars@.take(end as int) =~= text@);
    while end > 0 && chars[end - 1] == c
        invariant
            end <= chars@.len(),
            trimmed_end(chars@.take(end as int), c) == trimmed_end(text@, c),
        decreases end,
    {
        assert(chars@.take(end as int).drop_last() =~= chars@.take(end - 1));
        end = end - 1;
    }
    let mut out = String::new();
    let mut i: usize = 0;
    while i < end
        invariant
            i <= end <= chars@.len(),
            out@ == chars@.take(i as int),
        decreases end - i,
    {
        out.push(chars[i]);
        i = i + 1;
        assert(out@ =~= chars@.take(i as int));
    }
    out
}

} // verus!
