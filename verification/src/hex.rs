//! Decoding of fixed-length hexadecimal text into bytes.
//!
//! Text is read two bytes at a time, each pair giving one byte. A pair is
//! accepted only when both of its bytes are hexadecimal digits; a sign
//! character is not a digit.

use vstd::prelude::*;

verus! {

/// Why a text could not be decoded.
#[derive(Debug, Clone, Copy, PartialEq, Eq, Structural)]
pub enum HexError {
    /// The text does not have two bytes per expected byte; holds its length.
    Length(usize),
    /// The first pair that is not two digits is not valid UTF-8 on its own.
    NotText,
    /// The first pair that is not two digits is text, but not hexadecimal.
    NotHex,
}

/// The value of one hexadecimal digit, in either case.
pub open spec fn hex_value(b: u8) -> Option<u8> {
    if 0x30 <= b <= 0x39 {
        Some((b - 0x30) as u8)
    } else if 0x61 <= b <= 0x66 {
        Some((b - 0x61 + 10) as u8)
    } else if 0x41 <= b <= 0x46 {
        Some((b - 0x41 + 10) as u8)
    } else {
        None
    }
}

/// Both bytes are hexadecimal digits.
pub open spec fn pair_is_hex(hi: u8, lo: u8) -> bool {
    hex_value(hi) is Some && hex_value(lo) is Some
}

/// The byte that a pair of digits stands for.
pub open spec fn pair_value(hi: u8, lo: u8) -> u8
    recommends
        pair_is_hex(hi, lo),
{
    (hex_value(hi).unwrap() * 16 + hex_value(lo).unwrap()) as u8
}

/// The two bytes, taken alone, are valid UTF-8: two ASCII characters or one
/// two-byte character.
pub open spec fn pair_is_text(hi: u8, lo: u8) -> bool {
    (hi < 0x80 && lo < 0x80) || (0xC2 <= hi <= 0xDF && 0x80 <= lo <= 0xBF)
}

/// The fault of a pair that is not two digits.
pub open spec fn pair_fault(hi: u8, lo: u8) -> HexError
    recommends
        !pair_is_hex(hi, lo),
{
    if pair_is_text(hi, lo) {
        HexError::NotHex
    } else {
        HexError::NotText
    }
}

/// Every pair below `upto` is two digits.
pub open spec fn pairs_are_hex(text: Seq<u8>, upto: int) -> bool {
    forall|k: int| 0 <= k < upto ==> pair_is_hex(#[trigger] text[2 * k], text[2 * k + 1])
}

/// The bytes that the pairs of `text` stand for, one per pair.
pub open spec fn pair_values(text: Seq<u8>) -> Seq<u8> {
    Seq::new(text.len() / 2, |k: int| pair_value(text[2 * k], text[2 * k + 1]))
}

/// Decoding of the pairs from pair `k` on: the values of the pairs, or the
/// fault of the first pair that is not two digits.
pub open spec fn scan_pairs(text: Seq<u8>, k: int) -> Result<Seq<u8>, HexError>
    decreases text.len() - 2 * k,
{
    if k < 0 || 2 * k + 2 > text.len() {
        Ok(Seq::empty())
    } else if !pair_is_hex(text[2 * k], text[2 * k + 1]) {
        Err(pair_fault(text[2 * k], text[2 * k + 1]))
    } else {
        match scan_pairs(text, k + 1) {
            Ok(rest) => Ok(seq![pair_value(text[2 * k], text[2 * k + 1])] + rest),
            Err(e) => Err(e),
        }
    }
}

/// What decoding `text` into exactly `count` bytes gives.
pub open spec fn hex_decoding(text: Seq<u8>, count: nat) -> Result<Seq<u8>, HexError> {
    if text.len() != 2 * count {
        Err(HexError::Length(text.len() as usize))
    } else {
        scan_pairs(text, 0)
    }
}

/// From pair `k` on, a text of digits decodes to the values of its pairs.
pub proof fn lemma_scan_of_hex(text: Seq<u8>, k: int)
    requires
        0 <= k,
        2 * k <= text.len(),
        text.len() % 2 == 0,
        pairs_are_hex(text, text.len() as int / 2),
    ensures
        scan_pairs(text, k) == Ok::<Seq<u8>, HexError>(
            pair_values(text).subrange(k, text.len() as int / 2),
        ),
    decreases text.len() - 2 * k,
{
    let n = text.len() as int / 2;
    if 2 * k + 2 > text.len() {
        assert(k == n);
        assert(pair_values(text).subrange(k, n) =~= Seq::<u8>::empty());
    } else {
        lemma_scan_of_hex(text, k + 1);
        assert(pair_is_hex(text[2 * k], text[2 * k + 1]));
        assert(seq![pair_value(text[2 * k], text[2 * k + 1])] + pair_values(text).subrange(
            k + 1,
            n,
        ) =~= pair_values(text).subrange(k, n));
    }
}

/// A text of `2 * count` hexadecimal digits decodes, and to exactly the bytes
/// that its pairs stand for.
pub proof fn lemma_hex_text_decodes(text: Seq<u8>, count: nat)
    requires
        text.len() == 2 * count,
        pairs_are_hex(text, count as int),
    ensures
        hex_decoding(text, count) == Ok::<Seq<u8>, HexError>(pair_values(text)),
        pair_values(text).len() == count,
{
    lemma_scan_of_hex(text, 0);
    assert(pair_values(text).subrange(0, count as int) =~= pair_values(text));
}

/// A text that decodes consists of digits only, and its decoding has one byte
/// per pair.
pub proof fn lemma_decoded_is_hex(text: Seq<u8>, k: int)
    requires
        0 <= k,
        2 * k <= text.len(),
        text.len() % 2 == 0,
        scan_pairs(text, k) is Ok,
    ensures
        forall|j: int| k <= j < text.len() / 2 ==> pair_is_hex(#[trigger] text[2 * j], text[2 * j + 1]),
        scan_pairs(text, k)->Ok_0.len() == text.len() / 2 - k,
    decreases text.len() - 2 * k,
{
    if 2 * k + 2 <= text.len() {
        lemma_decoded_is_hex(text, k + 1);
    }
}

/// A text decodes into `count` bytes exactly when it is `2 * count`
/// hexadecimal digits, and then to the bytes that its pairs stand for. A text
/// of another length is refused for its length.
pub proof fn lemma_decoding_cases(text: Seq<u8>, count: nat)
    ensures
        if text.len() == 2 * count && pairs_are_hex(text, count as int) {
            hex_decoding(text, count) == Ok::<Seq<u8>, HexError>(pair_values(text))
        } else {
            hex_decoding(text, count) is Err
        },
        text.len() != 2 * count ==> hex_decoding(text, count) == Err::<Seq<u8>, HexError>(
            HexError::Length(text.len() as usize),
        ),
        hex_decoding(text, count) is Err && text.len() == 2 * count ==> hex_decoding(
            text,
            count,
        )->Err_0 is NotText || hex_decoding(text, count)->Err_0 is NotHex,
{
    if text.len() == 2 * count {
        if pairs_are_hex(text, count as int) {
            lemma_hex_text_decodes(text, count);
        } else if hex_decoding(text, count) is Ok {
            lemma_decoded_is_hex(text, 0);
        }
        lemma_faults_of_pairs(text, 0);
    }
}

/// Where the pairs do not decode, the fault is that of a pair.
pub proof fn lemma_faults_of_pairs(text: Seq<u8>, k: int)
    requires
        0 <= k,
    ensures
        scan_pairs(text, k) is Err ==> scan_pairs(text, k)->Err_0 is NotText || scan_pairs(
            text,
            k,
        )->Err_0 is NotHex,
    decreases text.len() - 2 * k,
{
    if 2 * k + 2 <= text.len() {
        lemma_faults_of_pairs(text, k + 1);
    }
}

/// The value of one hexadecimal digit, if `b` is one.
pub fn digit_value(b: u8) -> (r: Option<u8>)
    ensures
        r == hex_value(b),
{
    if 0x30 <= b && b <= 0x39 {
        Some(b - 0x30)
    } else if 0x61 <= b && b <= 0x66 {
        Some(b - 0x61 + 10)
    } else if 0x41 <= b && b <= 0x46 {
        Some(b - 0x41 + 10)
    } else {
        None
    }
}

/// Decodes one pair of bytes.
pub fn decode_pair(hi: u8, lo: u8) -> (r: Result<u8, HexError>)
    ensures
        r == (if pair_is_hex(hi, lo) {
            Ok::<u8, HexError>(pair_value(hi, lo))
        } else {
            Err::<u8, HexError>(pair_fault(hi, lo))
        }),
{
    match (digit_value(hi), digit_value(lo)) {
        (Some(h), Some(l)) => Ok(h * 16 + l),
        _ => {
            if (hi < 0x80 && lo < 0x80) || (0xC2 <= hi && hi <= 0xDF && 0x80 <= lo && lo <= 0xBF) {
                Err(HexError::NotHex)
            } else {
                Err(HexError::NotText)
            }
        },
    }
}

/// Decodes `text` into exactly `N` bytes.
pub fn decode_exact<const N: usize>(text: &[u8]) -> (r: Result<[u8; N], HexError>)
    ensures
        match r {
            Ok(out) => hex_decoding(text@, N as nat) == Ok::<Seq<u8>, HexError>(out@),
            Err(e) => hex_decoding(text@, N as nat) == Err::<Seq<u8>, HexError>(e),
        },
{
    let len: usize = text.len();
    if len % 2 != 0 || len / 2 != N {
        return Err(HexError::Length(len));
    }
    let mut out: [u8; N] = [0u8; N];
    let mut i: usize = 0;
    while i < N
        invariant
            i <= N,
            len == text@.len(),
            len == 2 * N,
            scan_pairs(text@, 0) is Ok ==> scan_pairs(text@, i as int) is Ok,
            scan_pairs(text@, 0) == (match scan_pairs(text@, i as int) {
                Ok(rest) => Ok::<Seq<u8>, HexError>(out@.subrange(0, i as int) + rest),
                Err(e) => Err::<Seq<u8>, HexError>(e),
            }),
        decreases N - i,
    {
        match decode_pair(text[2 * i], text[2 * i + 1]) {
            Ok(v) => {
                let ghost before = out@;
                out[i] = v;
                proof {
                    let rest = scan_pairs(text@, i as int + 1);
                    if rest is Ok {
                        assert(out@.subrange(0, i as int + 1) + rest->Ok_0 =~= before.subrange(
                            0,
                            i as int,
                        ) + (seq![v] + rest->Ok_0));
                    }
                }
            },
            Err(e) => {
                return Err(e);
            },
        }
        i += 1;
    }
    proof {
        assert(scan_pairs(text@, N as int) == Ok::<Seq<u8>, HexError>(Seq::empty()));
        assert(out@.subrange(0, N as int) + Seq::<u8>::empty() =~= out@);
    }
    Ok(out)
}

} // verus!
