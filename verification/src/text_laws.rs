//! Laws of the text vocabulary: a rendering reads back as what it renders,
//! and splitting a text loses nothing of it.

use crate::text;
use vstd::prelude::*;
use vstd::utf8::*;

verus! {

/// A control character: below the space, the delete and the range behind it.
pub open spec fn controls(c: char) -> bool {
    !('\u{20}' <= c) || ('\u{7f}' <= c && !('\u{a0}' <= c))
}

/// A character and a text have control characters exactly if one stands there.
pub proof fn law_control_characters_are_found(c: char, r: bool, text: &str, found: bool)
    requires
        call_ensures(text::control_char, (c,), r),
        call_ensures(text::contains_control, (text,), found),
    ensures
        r <==> controls(c),
        found <==> exists|i: int| 0 <= i < text@.len() && controls(#[trigger] text@[i]),
{
    if found {
        let i = choose|i: int| 0 <= i < text@.len() && text::is_control(#[trigger] text@[i]);
        assert(controls(text@[i]));
    }
    if exists|i: int| 0 <= i < text@.len() && controls(#[trigger] text@[i]) {
        let i = choose|i: int| 0 <= i < text@.len() && controls(#[trigger] text@[i]);
        assert(text::is_control(text@[i]));
    }
}

/// White space: tab to carriage return, the space, the next line, the
/// no-break space, and the spaces and separators further up.
pub open spec fn spaces(c: char) -> bool {
    ||| c == '\t' || c == '\n' || c == '\u{b}' || c == '\u{c}' || c == '\r' || c == ' '
    ||| c == '\u{85}' || c == '\u{a0}' || c == '\u{1680}'
    ||| '\u{2000}' <= c && c <= '\u{200a}'
    ||| c == '\u{2028}' || c == '\u{2029}' || c == '\u{202f}' || c == '\u{205f}'
    ||| c == '\u{3000}'
}

/// A character is white space exactly if it is one of these.
pub proof fn law_white_space_is_known(c: char, r: bool)
    requires
        call_ensures(text::white_space_char, (c,), r),
    ensures
        r <==> spaces(c),
{
}

/// A text is blank exactly if nothing but white space stands in it.
pub proof fn law_blank_texts_hold_white_space_only(text: &str, r: bool)
    requires
        call_ensures(text::blank, (text,), r),
    ensures
        r <==> forall|i: int| 0 <= i < text@.len() ==> spaces(#[trigger] text@[i]),
{
    if r {
        assert forall|i: int| 0 <= i < text@.len() implies spaces(#[trigger] text@[i]) by {
            assert(text::is_white_space(text@[i]));
        }
    }
    if forall|i: int| 0 <= i < text@.len() ==> spaces(#[trigger] text@[i]) {
        assert forall|i: int| 0 <= i < text@.len() implies text::is_white_space(
            #[trigger] text@[i],
        ) by {
            assert(spaces(text@[i]));
        }
    }
}

/// The number that some decimal digits stand for.
pub open spec fn decimal_value(digits: Seq<char>) -> int
    decreases digits.len(),
{
    if digits.len() == 0 {
        0
    } else {
        10 * decimal_value(digits.drop_last()) + (digits.last() as u32 - '0' as u32)
    }
}

proof fn lemma_decimal_value(n: nat)
    ensures
        decimal_value(text::decimal(n)) == n,
        text::decimal(n).len() > 0,
        forall|i: int|
            0 <= i < text::decimal(n).len() ==> '0' <= #[trigger] text::decimal(n)[i]
                && text::decimal(n)[i] <= '9',
        text::decimal(n).len() > 1 ==> text::decimal(n)[0] != '0',
        n > 0 ==> text::decimal(n)[0] != '0',
    decreases n,
{
    let digits = text::decimal(n);
    if n < 10 {
        assert(digits.drop_last() =~= Seq::<char>::empty());
        assert(digits.last() == text::decimal_digit(n));
        assert(decimal_value(digits.drop_last()) == 0);
    } else {
        lemma_decimal_value(n / 10);
        assert(digits.drop_last() =~= text::decimal(n / 10));
        assert(digits.last() == text::decimal_digit(n % 10));
        assert(digits[0] == text::decimal(n / 10)[0]);
        assert forall|i: int| 0 <= i < digits.len() implies '0' <= #[trigger] digits[i]
            && digits[i] <= '9' by {
            if i < digits.len() - 1 {
                assert(digits[i] == text::decimal(n / 10)[i]);
            }
        }
    }
}

/// A number in decimal reads back as the number: digits only, and no zero in
/// front of other digits.
pub proof fn law_decimals_read_back(n: u64, r: String)
    requires
        call_ensures(text::decimal_text, (n,), r),
    ensures
        decimal_value(r@) == n,
        r@.len() > 0,
        forall|i: int| 0 <= i < r@.len() ==> '0' <= #[trigger] r@[i] && r@[i] <= '9',
        r@.len() > 1 ==> r@[0] != '0',
{
    lemma_decimal_value(n as nat);
}

/// The number that a lower-case hexadecimal digit stands for.
pub open spec fn hex_value(c: char) -> int {
    if '0' <= c && c <= '9' {
        c as u32 - '0' as u32
    } else {
        c as u32 - 'a' as u32 + 10
    }
}

/// Bytes in hexadecimal read back as the bytes: two lower-case digits each,
/// the high half first.
pub proof fn law_hexadecimals_read_back(bytes: &[u8], r: String)
    requires
        call_ensures(text::hex_text, (bytes,), r),
    ensures
        r@.len() == 2 * bytes@.len(),
        forall|i: int|
            0 <= i < r@.len() ==> ('0' <= #[trigger] r@[i] && r@[i] <= '9') || ('a' <= r@[i]
                && r@[i] <= 'f'),
        forall|i: int|
            0 <= i < bytes@.len() ==> #[trigger] bytes@[i] == 16 * hex_value(r@[2 * i])
                + hex_value(r@[2 * i + 1]),
{
    assert forall|i: int| 0 <= i < bytes@.len() implies #[trigger] bytes@[i] == 16 * hex_value(
        r@[2 * i],
    ) + hex_value(r@[2 * i + 1]) by {
        let b = bytes@[i];
        assert((2 * i) / 2 == i && (2 * i) % 2 == 0);
        assert((2 * i + 1) / 2 == i && (2 * i + 1) % 2 == 1);
        assert(r@[2 * i] == text::hex_digit(b / 16));
        assert(r@[2 * i + 1] == text::hex_digit(b % 16));
        assert(b == 16 * (b / 16) + b % 16);
    }
}

/// The number that some bytes stand for, the first of them the highest.
pub open spec fn number(bytes: Seq<u8>) -> int
    decreases bytes.len(),
{
    if bytes.len() == 0 {
        0
    } else {
        256 * number(bytes.drop_last()) + bytes.last()
    }
}

pub(crate) proof fn lemma_number(value: nat, width: nat)
    requires
        value < vstd::arithmetic::power::pow(256, width),
    ensures
        number(text::be_bytes(value, width)) == value,
        text::be_bytes(value, width).len() == width,
    decreases width,
{
    reveal(vstd::arithmetic::power::pow);
    text::lemma_be_bytes_len(value, width);
    if width > 0 {
        let rest = (width - 1) as nat;
        assert(value / 256 < vstd::arithmetic::power::pow(256, rest)) by (nonlinear_arith)
            requires
                value < 256 * vstd::arithmetic::power::pow(256, rest),
        ;
        lemma_number(value / 256, rest);
        let bytes = text::be_bytes(value, width);
        assert(bytes.drop_last() =~= text::be_bytes(value / 256, rest));
        assert(bytes.last() == (value % 256) as u8);
    }
}

/// A number that fits is appended in that many bytes and reads back as the number.
pub proof fn law_numbers_are_framed_high_byte_first(
    out: &mut Vec<u8>,
    value: u128,
    width: usize,
)
    requires
        call_ensures(text::push_be, (out, value, width), ()),
        value < vstd::arithmetic::power::pow(256, width as nat),
    ensures
        final(out)@.len() == old(out)@.len() + width,
        final(out)@.take(old(out)@.len() as int) == old(out)@,
        number(final(out)@.skip(old(out)@.len() as int)) == value,
{
    lemma_number(value as nat, width as nat);
    assert(final(out)@.take(old(out)@.len() as int) =~= old(out)@);
    assert(final(out)@.skip(old(out)@.len() as int) =~= text::be_bytes(
        value as nat,
        width as nat,
    ));
}

/// Bytes and texts are appended whole, behind what is there.
pub proof fn law_runs_are_appended_whole(out: &mut Vec<u8>, bytes: &[u8])
    requires
        call_ensures(text::push_bytes, (out, bytes), ()),
    ensures
        final(out)@.len() == old(out)@.len() + bytes@.len(),
        forall|i: int|
            0 <= i < old(out)@.len() ==> #[trigger] final(out)@[i] == old(out)@[i],
        forall|i: int|
            0 <= i < bytes@.len() ==> #[trigger] final(out)@[old(out)@.len() + i] == bytes@[i],
{
}

/// A text is appended as its UTF-8 bytes.
pub proof fn law_texts_are_appended_as_utf8(out: &mut Vec<u8>, text: &str)
    requires
        call_ensures(text::push_text, (out, text), ()),
    ensures
        final(out)@.take(old(out)@.len() as int) == old(out)@,
        final(out)@.skip(old(out)@.len() as int) == encode_utf8(text@),
{
    assert(final(out)@.take(old(out)@.len() as int) =~= old(out)@);
    assert(final(out)@.skip(old(out)@.len() as int) =~= encode_utf8(text@));
}

/// Texts and bytes are the same exactly if nothing differs.
pub proof fn law_equal_means_the_same(a: &str, b: &str, r: bool, x: &[u8], y: &[u8], s: bool)
    requires
        call_ensures(text::same, (a, b), r),
        call_ensures(text::same_bytes, (x, y), s),
    ensures
        r <==> a@ == b@,
        s <==> x@.len() == y@.len() && forall|i: int|
            0 <= i < x@.len() ==> #[trigger] x@[i] == y@[i],
{
    if x@.len() == y@.len() && forall|i: int| 0 <= i < x@.len() ==> #[trigger] x@[i] == y@[i] {
        assert(x@ =~= y@);
    }
}

/// A text has a prefix exactly if it is the prefix and something behind it.
pub proof fn law_prefixes_stand_in_front(text: &[char], prefix: &[char], r: bool)
    requires
        call_ensures(text::has_prefix, (text, prefix), r),
    ensures
        r <==> prefix@.len() <= text@.len() && forall|i: int|
            0 <= i < prefix@.len() ==> #[trigger] text@[i] == prefix@[i],
{
    if r {
        assert forall|i: int| 0 <= i < prefix@.len() implies #[trigger] text@[i]
            == prefix@[i] by {
            assert(text@.take(prefix@.len() as int)[i] == text@[i]);
        }
    }
    if prefix@.len() <= text@.len() && forall|i: int|
        0 <= i < prefix@.len() ==> #[trigger] text@[i] == prefix@[i] {
        assert(text@.take(prefix@.len() as int) =~= prefix@);
    }
}

/// A text's characters, each once and in order.
pub proof fn law_characters_are_all_there(text: &str, r: Vec<char>)
    requires
        call_ensures(text::chars_of, (text,), r),
    ensures
        r@ == text@,
{
}

/// Pieces put together again with a separator between them.
pub open spec fn joined(pieces: Seq<Seq<char>>, separator: char) -> Seq<char>
    decreases pieces.len(),
{
    if pieces.len() == 0 {
        Seq::empty()
    } else if pieces.len() == 1 {
        pieces[0]
    } else {
        joined(pieces.drop_last(), separator).push(separator) + pieces.last()
    }
}

proof fn lemma_joined(text: Seq<char>, separator: char)
    ensures
        joined(text::pieces(text, separator), separator) == text,
        text::pieces(text, separator).len() > 0,
        forall|i: int|
            0 <= i < text::pieces(text, separator).len() ==> !(#[trigger] text::pieces(
                text,
                separator,
            )[i]).contains(separator),
    decreases text.len(),
{
    let pieces = text::pieces(text, separator);
    if text.len() == 0 {
        assert(pieces[0] =~= text);
        assert(joined(pieces, separator) =~= text);
    } else {
        let front = text.drop_last();
        let before = text::pieces(front, separator);
        lemma_joined(front, separator);
        let c = text.last();
        if c == separator {
            assert(pieces.drop_last() =~= before);
            assert(pieces.last() =~= Seq::<char>::empty());
            assert(joined(pieces, separator) =~= front.push(c));
            assert(front.push(c) =~= text);
            assert forall|i: int| 0 <= i < pieces.len() implies !(#[trigger] pieces[i]).contains(
                separator,
            ) by {
                if i < before.len() {
                    assert(pieces[i] == before[i]);
                }
            }
        } else {
            let last = before.last();
            assert(pieces.drop_last() =~= before.drop_last());
            assert(pieces.last() == last.push(c));
            if before.len() == 1 {
                assert(joined(before, separator) == last);
                assert(joined(pieces, separator) == pieces[0]);
                assert(pieces[0] =~= front.push(c));
            } else {
                let rest = joined(before.drop_last(), separator).push(separator);
                assert(joined(before, separator) == rest + last);
                assert(joined(pieces, separator) == rest + last.push(c));
                assert(rest + last.push(c) =~= (rest + last).push(c));
            }
            assert(front.push(c) =~= text);
            assert forall|i: int| 0 <= i < pieces.len() implies !(#[trigger] pieces[i]).contains(
                separator,
            ) by {
                if i < before.len() - 1 {
                    assert(pieces[i] == before[i]);
                } else {
                    assert(!before[before.len() - 1].contains(separator));
                    let piece = last.push(c);
                    if piece.contains(separator) {
                        let k = choose|k: int| 0 <= k < piece.len() && piece[k] == separator;
                        assert(k < last.len());
                        assert(last[k] == separator);
                        assert(last.contains(separator));
                    }
                }
            }
        }
    }
}

/// The pieces of a text hold no separator, and put together again with
/// separators between them they are the text.
pub proof fn law_pieces_join_to_the_text(text: &str, separator: char, r: Vec<String>)
    requires
        call_ensures(text::split_pieces, (text, separator), r),
    ensures
        joined(text::texts(r@), separator) == text@,
        r@.len() > 0,
        forall|i: int| 0 <= i < r@.len() ==> !(#[trigger] r@[i])@.contains(separator),
{
    lemma_joined(text@, separator);
    let pieces = text::texts(r@);
    assert forall|i: int| 0 <= i < r@.len() implies !(#[trigger] r@[i])@.contains(separator) by {
        assert(pieces[i] == r@[i]@);
    }
}

proof fn lemma_no_empty_words(text: Seq<char>)
    ensures
        forall|i: int|
            0 <= i < text::word_state(text).0.len() ==> (#[trigger] text::word_state(
                text,
            ).0[i]).len() > 0,
        text::word_state(text).1.len() > 0 <==> text.len() > 0 && !text::is_white_space(
            text.last(),
        ),
    decreases text.len(),
{
    if text.len() > 0 {
        lemma_no_empty_words(text.drop_last());
    }
}

/// Words are the longest runs without white space: white space behind a text
/// adds no word, a character behind a word lengthens that word, and one
/// behind white space is a word of its own. A text without characters has
/// none.
pub proof fn law_words_are_the_longest_runs(
    text: &str,
    longer: &str,
    c: char,
    r: Vec<String>,
    s: Vec<String>,
    white: bool,
)
    requires
        call_ensures(text::split_words, (text,), r),
        call_ensures(text::split_words, (longer,), s),
        call_ensures(text::white_space_char, (c,), white),
        longer@ == text@.push(c),
    ensures
        text@.len() == 0 ==> r@.len() == 0,
        white ==> text::texts(s@) == text::texts(r@),
        !white && (text@.len() == 0 || text::is_white_space(text@.last())) ==> text::texts(s@)
            == text::texts(r@).push(seq![c]),
        !white && text@.len() > 0 && !text::is_white_space(text@.last()) ==> {
            &&& r@.len() > 0
            &&& text::texts(s@) == text::texts(r@).drop_last().push(
                text::texts(r@).last().push(c),
            )
        },
{
    lemma_no_empty_words(text@);
    assert(longer@.drop_last() =~= text@);
    assert(longer@.last() == c);
    let (words, current) = text::word_state(text@);
    if !white {
        assert(text::word_state(longer@) == (words, current.push(c)));
        if current.len() == 0 {
            assert(current.push(c) =~= seq![c]);
        } else {
            assert(words.push(current).drop_last() =~= words);
        }
    }
}

proof fn lemma_first_line(text: Seq<char>)
    ensures
        ({
            let line = text::first_line(text);
            &&& line.len() <= text.len()
            &&& line == text.take(line.len() as int)
            &&& line.len() < text.len() ==> line.len() + 1 < text.len() && text[line.len() as int]
                == '\r' && text[(line.len() + 1) as int] == '\n'
            &&& forall|i: int|
                0 <= i < line.len() && i + 1 < text.len() ==> !(#[trigger] text[i] == '\r'
                    && text[i + 1] == '\n')
        }),
    decreases text.len(),
{
    let line = text::first_line(text);
    if text.len() == 0 || (text.len() > 1 && text[0] == '\r' && text[1] == '\n') {
        assert(line =~= text.take(0));
    } else {
        let rest = text.skip(1);
        lemma_first_line(rest);
        let tail = text::first_line(rest);
        assert(line == seq![text[0]] + tail);
        assert(line =~= text.take(line.len() as int)) by {
            assert forall|i: int| 0 <= i < line.len() implies line[i] == text[i] by {
                if i > 0 {
                    assert(line[i] == tail[i - 1]);
                    assert(tail[i - 1] == rest.take(tail.len() as int)[i - 1]);
                    assert(rest[i - 1] == text[i]);
                }
            }
        }
        assert forall|i: int| 0 <= i < line.len() && i + 1 < text.len() implies !(
        #[trigger] text[i] == '\r' && text[i + 1] == '\n') by {
            if i > 0 {
                assert(rest[i - 1] == text[i]);
                assert(rest[i] == text[i + 1]);
            }
        }
        if line.len() < text.len() {
            assert(rest[tail.len() as int] == text[line.len() as int]);
            assert(rest[(tail.len() + 1) as int] == text[(line.len() + 1) as int]);
        }
    }
}

/// The first line is what stands before the first line break, or the text.
pub proof fn law_the_first_line_ends_at_a_break(text: &str, r: String)
    requires
        call_ensures(text::take_first_line, (text,), r),
    ensures
        r@.len() <= text@.len(),
        r@ == text@.take(r@.len() as int),
        r@.len() < text@.len() ==> r@.len() + 1 < text@.len() && text@[r@.len() as int] == '\r'
            && text@[(r@.len() + 1) as int] == '\n',
        forall|i: int|
            0 <= i < r@.len() && i + 1 < text@.len() ==> !(#[trigger] text@[i] == '\r' && text@[i
                + 1] == '\n'),
{
    lemma_first_line(text@);
}

proof fn lemma_trimmed(text: Seq<char>, c: char)
    ensures
        ({
            let kept = text::trimmed_end(text, c);
            &&& kept.len() <= text.len()
            &&& kept == text.take(kept.len() as int)
            &&& kept.len() > 0 ==> kept.last() != c
            &&& forall|i: int| kept.len() <= i < text.len() ==> #[trigger] text[i] == c
        }),
    decreases text.len(),
{
    let kept = text::trimmed_end(text, c);
    if text.len() > 0 && text.last() == c {
        lemma_trimmed(text.drop_last(), c);
        assert(kept =~= text.take(kept.len() as int));
        assert forall|i: int| kept.len() <= i < text.len() implies #[trigger] text[i] == c by {
            if i < text.len() - 1 {
                assert(text.drop_last()[i] == text[i]);
            }
        }
    } else {
        assert(text.take(text.len() as int) =~= text);
    }
}

/// Trimming a character takes exactly the run of it that the text ends in.
pub proof fn law_trimming_takes_the_closing_run(text: &str, c: char, r: String)
    requires
        call_ensures(text::trim_end, (text, c), r),
    ensures
        r@.len() <= text@.len(),
        r@ == text@.take(r@.len() as int),
        r@.len() > 0 ==> r@.last() != c,
        forall|i: int| r@.len() <= i < text@.len() ==> #[trigger] text@[i] == c,
{
    lemma_trimmed(text@, c);
}

} // verus!
