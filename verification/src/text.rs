//! The textual forms of an identifier: what each layout writes, and which
//! texts read back as an identifier.

use crate::hex::{hex_value, pair_is_hex, pair_value, pair_values, pairs_are_hex};
use vstd::prelude::*;
use vstd::utf8::{encode_utf8, is_ascii_chars, is_ascii_chars_encode_utf8};

verus! {

/// The character for a four-bit value, in the chosen case.
pub open spec fn digit_char(nibble: int, upper: bool) -> char
    recommends
        0 <= nibble < 16,
{
    if nibble < 10 {
        (0x30 + nibble) as u8 as char
    } else if upper {
        (0x41 + nibble - 10) as u8 as char
    } else {
        (0x61 + nibble - 10) as u8 as char
    }
}

/// The four-bit value written at position `i` of the 32 digits of `bytes`.
pub open spec fn nibble_at(bytes: Seq<u8>, i: int) -> int
    recommends
        bytes.len() == 16,
        0 <= i < 32,
{
    if i % 2 == 0 {
        bytes[i / 2] as int / 16
    } else {
        bytes[i / 2] as int % 16
    }
}

/// The 32 hexadecimal digits of sixteen bytes, without separators.
pub open spec fn simple_text(bytes: Seq<u8>, upper: bool) -> Seq<char>
    recommends
        bytes.len() == 16,
{
    Seq::new(32, |i: int| digit_char(nibble_at(bytes, i), upper))
}

/// The canonical form: the digits in groups of 8, 4, 4, 4 and 12, joined by
/// hyphens.
pub open spec fn hyphenated_text(bytes: Seq<u8>, upper: bool) -> Seq<char>
    recommends
        bytes.len() == 16,
{
    let digits = simple_text(bytes, upper);
    digits.subrange(0, 8) + seq!['-'] + digits.subrange(8, 12) + seq!['-'] + digits.subrange(
        12,
        16,
    ) + seq!['-'] + digits.subrange(16, 20) + seq!['-'] + digits.subrange(20, 32)
}

/// The prefix of the URN form. It is written in lower case whatever the case
/// of the digits.
pub open spec fn urn_prefix() -> Seq<char> {
    seq!['u', 'r', 'n', ':', 'u', 'u', 'i', 'd', ':']
}

/// The canonical form behind `urn:uuid:`.
pub open spec fn urn_text(bytes: Seq<u8>, upper: bool) -> Seq<char>
    recommends
        bytes.len() == 16,
{
    urn_prefix() + hyphenated_text(bytes, upper)
}

/// The canonical form between braces.
pub open spec fn braced_text(bytes: Seq<u8>, upper: bool) -> Seq<char>
    recommends
        bytes.len() == 16,
{
    seq!['{'] + hyphenated_text(bytes, upper) + seq!['}']
}

/// The 32 digits of a canonical text of 36 bytes, its hyphens left out.
pub open spec fn without_hyphens(text: Seq<u8>) -> Seq<u8>
    recommends
        text.len() == 36,
{
    text.subrange(0, 8) + text.subrange(9, 13) + text.subrange(14, 18) + text.subrange(19, 23)
        + text.subrange(24, 36)
}

/// Reading of 32 digits.
pub open spec fn parsed_simple(text: Seq<u8>) -> Option<Seq<u8>> {
    if text.len() == 32 && pairs_are_hex(text, 16) {
        Some(pair_values(text))
    } else {
        None
    }
}

/// Reading of the canonical form: hyphens at 8, 13, 18 and 23, digits
/// elsewhere.
pub open spec fn parsed_hyphenated(text: Seq<u8>) -> Option<Seq<u8>> {
    if text.len() == 36 && text[8] == 0x2d && text[13] == 0x2d && text[18] == 0x2d && text[23]
        == 0x2d {
        parsed_simple(without_hyphens(text))
    } else {
        None
    }
}

/// `b` is the ASCII letter `lower`, in either case.
pub open spec fn is_letter(b: u8, lower: u8) -> bool
    recommends
        0x61 <= lower <= 0x7a,
{
    b == lower || b == lower - 0x20
}

/// The nine bytes spell `urn:uuid:`, letters in either case.
pub open spec fn is_urn_prefix(text: Seq<u8>) -> bool {
    &&& text.len() == 9
    &&& is_letter(text[0], 0x75)
    &&& is_letter(text[1], 0x72)
    &&& is_letter(text[2], 0x6e)
    &&& text[3] == 0x3a
    &&& is_letter(text[4], 0x75)
    &&& is_letter(text[5], 0x75)
    &&& is_letter(text[6], 0x69)
    &&& is_letter(text[7], 0x64)
    &&& text[8] == 0x3a
}

/// The identifier that a text reads as, if it is one of the four forms:
/// 32 digits; the canonical form; the canonical form between braces; the
/// canonical form behind `urn:uuid:`. Digits may be of either case.
pub open spec fn parsed_identifier(text: Seq<u8>) -> Option<Seq<u8>> {
    if text.len() == 32 {
        parsed_simple(text)
    } else if text.len() == 36 {
        parsed_hyphenated(text)
    } else if text.len() == 38 {
        if text[0] == 0x7b && text[37] == 0x7d {
            parsed_hyphenated(text.subrange(1, 37))
        } else {
            None
        }
    } else if text.len() == 45 {
        if is_urn_prefix(text.subrange(0, 9)) {
            parsed_hyphenated(text.subrange(9, 45))
        } else {
            None
        }
    } else {
        None
    }
}

/// Each character taken as one byte. For ASCII text this is its encoding.
pub open spec fn char_bytes(text: Seq<char>) -> Seq<u8> {
    Seq::new(text.len(), |i: int| text[i] as u8)
}

/// Whether a character is a hexadecimal digit of the given case. The ten
/// decimal digits belong to both cases.
pub open spec fn is_digit_of_case(c: char, upper: bool) -> bool {
    ('0' <= c <= '9') || (if upper {
        'A' <= c <= 'F'
    } else {
        'a' <= c <= 'f'
    })
}

/// A digit character is ASCII, is of the case asked for, and reads back as
/// the value it was written for.
pub proof fn lemma_digit_char(nibble: int, upper: bool)
    requires
        0 <= nibble < 16,
    ensures
        is_digit_of_case(digit_char(nibble, upper), upper),
        hex_value(digit_char(nibble, upper) as u8) == Some(nibble as u8),
{
}

/// The encoding of ASCII text has one byte per character.
pub proof fn lemma_ascii_encoding(text: Seq<char>)
    requires
        is_ascii_chars(text),
    ensures
        encode_utf8(text) == char_bytes(text),
{
    is_ascii_chars_encode_utf8(text);
    assert(encode_utf8(text) =~= char_bytes(text));
}

/// The 32 digits are digits of the case asked for, and read back as the
/// bytes they were written for.
pub proof fn lemma_simple_text(bytes: Seq<u8>, upper: bool)
    requires
        bytes.len() == 16,
    ensures
        simple_text(bytes, upper).len() == 32,
        forall|i: int|
            0 <= i < 32 ==> is_digit_of_case(#[trigger] simple_text(bytes, upper)[i], upper),
        parsed_simple(char_bytes(simple_text(bytes, upper))) == Some(bytes),
{
    let text = simple_text(bytes, upper);
    let raw = char_bytes(text);
    assert forall|i: int| 0 <= i < 32 implies is_digit_of_case(#[trigger] text[i], upper)
        && hex_value(raw[i]) == Some(nibble_at(bytes, i) as u8) by {
        lemma_digit_char(nibble_at(bytes, i), upper);
    }
    assert forall|k: int| 0 <= k < 16 implies pair_is_hex(#[trigger] raw[2 * k], raw[2 * k + 1])
        && pair_value(raw[2 * k], raw[2 * k + 1]) == bytes[k] by {
        assert(hex_value(raw[2 * k]) == Some(nibble_at(bytes, 2 * k) as u8));
        assert(hex_value(raw[2 * k + 1]) == Some(nibble_at(bytes, 2 * k + 1) as u8));
        assert((2 * k) / 2 == k && (2 * k + 1) / 2 == k);
    }
    assert(pair_values(raw) =~= bytes);
}

/// The canonical form has 36 characters: hyphens at 8, 13, 18 and 23, digits
/// of the case asked for elsewhere. It reads back as the bytes it was written
/// for.
pub proof fn lemma_hyphenated_text(bytes: Seq<u8>, upper: bool)
    requires
        bytes.len() == 16,
    ensures
        hyphenated_text(bytes, upper).len() == 36,
        forall|i: int|
            0 <= i < 36 ==> (#[trigger] hyphenated_text(bytes, upper)[i] == '-' <==> (i == 8 || i
                == 13 || i == 18 || i == 23)),
        forall|i: int|
            0 <= i < 36 && i != 8 && i != 13 && i != 18 && i != 23 ==> is_digit_of_case(
                #[trigger] hyphenated_text(bytes, upper)[i],
                upper,
            ),
        parsed_hyphenated(char_bytes(hyphenated_text(bytes, upper))) == Some(bytes),
{
    lemma_simple_text(bytes, upper);
    let digits = simple_text(bytes, upper);
    let text = hyphenated_text(bytes, upper);
    assert(text.len() == 36);
    assert forall|i: int| 0 <= i < 36 implies (#[trigger] text[i] == '-' <==> (i == 8 || i == 13
        || i == 18 || i == 23)) && (i != 8 && i != 13 && i != 18 && i != 23 ==> is_digit_of_case(
        text[i],
        upper,
    )) by {
        if i < 8 {
            assert(text[i] == digits[i]);
        } else if i == 8 {
        } else if i < 13 {
            assert(text[i] == digits[i - 1]);
        } else if i == 13 {
        } else if i < 18 {
            assert(text[i] == digits[i - 2]);
        } else if i == 18 {
        } else if i < 23 {
            assert(text[i] == digits[i - 3]);
        } else if i == 23 {
        } else {
            assert(text[i] == digits[i - 4]);
        }
    }
    assert(without_hyphens(char_bytes(text)) =~= char_bytes(digits));
}

/// Every character of each of the four forms is ASCII.
pub proof fn lemma_forms_are_ascii(bytes: Seq<u8>, upper: bool)
    requires
        bytes.len() == 16,
    ensures
        is_ascii_chars(simple_text(bytes, upper)),
        is_ascii_chars(hyphenated_text(bytes, upper)),
        is_ascii_chars(urn_text(bytes, upper)),
        is_ascii_chars(braced_text(bytes, upper)),
{
    lemma_simple_text(bytes, upper);
    lemma_hyphenated_text(bytes, upper);
    let h = hyphenated_text(bytes, upper);
    assert forall|i: int| 0 <= i < 36 implies '\0' <= #[trigger] h[i] <= '\u{7f}' by {
        if i != 8 && i != 13 && i != 18 && i != 23 {
            assert(is_digit_of_case(h[i], upper));
        }
    }
    let u = urn_text(bytes, upper);
    assert forall|i: int| 0 <= i < u.len() implies '\0' <= #[trigger] u[i] <= '\u{7f}' by {
        if i >= 9 {
            assert(u[i] == h[i - 9]);
        }
    }
    let b = braced_text(bytes, upper);
    assert forall|i: int| 0 <= i < b.len() implies '\0' <= #[trigger] b[i] <= '\u{7f}' by {
        if 1 <= i < 37 {
            assert(b[i] == h[i - 1]);
        }
    }
}

/// A text of 36 characters behind the URN prefix: where its parts are.
pub proof fn lemma_urn_frame(canonical: Seq<char>)
    requires
        canonical.len() == 36,
    ensures
        (urn_prefix() + canonical).len() == 45,
        (urn_prefix() + canonical).subrange(0, 9) == urn_prefix(),
        (urn_prefix() + canonical).subrange(9, 45) == canonical,
        forall|i: int| 9 <= i < 45 ==> #[trigger] (urn_prefix() + canonical)[i] == canonical[i - 9],
        is_urn_prefix(char_bytes(urn_prefix() + canonical).subrange(0, 9)),
        char_bytes(urn_prefix() + canonical).subrange(9, 45) == char_bytes(canonical),
{
    let text = urn_prefix() + canonical;
    assert(text.subrange(0, 9) =~= urn_prefix());
    assert(text.subrange(9, 45) =~= canonical);
    assert(char_bytes(text).subrange(9, 45) =~= char_bytes(canonical));
    let head = char_bytes(text).subrange(0, 9);
    assert(head[0] == 0x75 && head[1] == 0x72 && head[2] == 0x6e && head[3] == 0x3a);
    assert(head[4] == 0x75 && head[5] == 0x75 && head[6] == 0x69 && head[7] == 0x64);
    assert(head[8] == 0x3a);
}

/// A text of 36 characters between braces: where its parts are.
pub proof fn lemma_braced_frame(canonical: Seq<char>)
    requires
        canonical.len() == 36,
    ensures
        (seq!['{'] + canonical + seq!['}']).len() == 38,
        (seq!['{'] + canonical + seq!['}']).first() == '{',
        (seq!['{'] + canonical + seq!['}']).last() == '}',
        (seq!['{'] + canonical + seq!['}']).subrange(1, 37) == canonical,
        forall|i: int|
            1 <= i < 37 ==> #[trigger] (seq!['{'] + canonical + seq!['}'])[i] == canonical[i - 1],
        char_bytes(seq!['{'] + canonical + seq!['}'])[0] == 0x7b,
        char_bytes(seq!['{'] + canonical + seq!['}'])[37] == 0x7d,
        char_bytes(seq!['{'] + canonical + seq!['}']).subrange(1, 37) == char_bytes(canonical),
{
    let text = seq!['{'] + canonical + seq!['}'];
    assert(text.subrange(1, 37) =~= canonical);
    assert(char_bytes(text).subrange(1, 37) =~= char_bytes(canonical));
}

} // verus!
