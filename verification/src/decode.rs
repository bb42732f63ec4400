//! The wire-to-value rules: raw 16-bit words in, typed values out.
//!
//! Words arrive most significant first, and each word puts its high byte
//! first. A numeric value is kept exact, as the assembled integer together
//! with the divisor of its register; the quotient is taken by whoever needs
//! a real number.

use byteorder::{BigEndian, WriteBytesExt};
use vstd::prelude::*;
use vstd::utf8::{decode_utf8, valid_utf8};
use crate::registers::{NumericKind, NumericRegister, Register, StringRegister};

verus! {

/// A decoded quantity. `Number` stands for the real number `raw / gain`.
#[derive(Clone, Debug, PartialEq, Eq)]
pub enum Variant {
    Text(String),
    Number { raw: i64, gain: u32 },
}

/// What a `Variant` means.
pub enum Value {
    Text(Seq<char>),
    Number { raw: int, gain: int },
}

impl View for Variant {
    type V = Value;

    open spec fn view(&self) -> Value {
        match *self {
            Variant::Text(s) => Value::Text(s@),
            Variant::Number { raw, gain } => Value::Number { raw: raw as int, gain: gain as int },
        }
    }
}

impl Variant {
    /// A copy that means the same.
    pub fn duplicate(&self) -> (copy: Variant)
        ensures
            copy@ == self@,
    {
        match self {
            Variant::Text(s) => Variant::Text(s.clone()),
            Variant::Number { raw, gain } => Variant::Number { raw: *raw, gain: *gain },
        }
    }
}

/// Why a read could not be turned into a value.
#[derive(Clone, Copy, Debug, PartialEq, Eq, Structural)]
pub enum DecodeError {
    /// The transport handed back another number of words than the register spans.
    WordCount,
    /// The bytes of a text register are not UTF-8.
    InvalidText,
}

/// One word as a signed 16-bit integer.
pub open spec fn signed_16(word: u16) -> int {
    if word < 0x8000 {
        word as int
    } else {
        word as int - 0x1_0000
    }
}

/// Two words, most significant first, as one unsigned integer.
pub open spec fn combined(hi: u16, lo: u16) -> int {
    hi as int * 0x1_0000 + lo as int
}

/// Two words, most significant first, as one signed 32-bit integer.
pub open spec fn signed_32(hi: u16, lo: u16) -> int {
    if hi < 0x8000 {
        combined(hi, lo)
    } else {
        combined(hi, lo) - 0x1_0000_0000
    }
}

/// The integer that the leading words spell under `kind`.
pub open spec fn raw_integer(kind: NumericKind, words: Seq<u16>) -> int
    recommends
        words.len() >= kind.words(),
{
    match kind {
        NumericKind::U16 => words[0] as int,
        NumericKind::I16 => signed_16(words[0]),
        NumericKind::U32 => combined(words[0], words[1]),
        NumericKind::I32 => signed_32(words[0], words[1]),
    }
}

/// The bytes of a run of words: byte `2k` is the high byte of word `k`, byte
/// `2k + 1` its low byte.
pub open spec fn be_bytes(words: Seq<u16>) -> Seq<u8> {
    Seq::new(
        2 * words.len(),
        |i: int|
            if i % 2 == 0 {
                (words[i / 2] / 256) as u8
            } else {
                (words[i / 2] % 256) as u8
            },
    )
}

/// The text with every NUL character taken out, wherever it stands.
pub open spec fn strip_nul(text: Seq<char>) -> Seq<char>
    decreases text.len(),
{
    if text.len() == 0 {
        text
    } else if text.last() == '\0' {
        strip_nul(text.drop_last())
    } else {
        strip_nul(text.drop_last()).push(text.last())
    }
}

/// What decoding a numeric register yields: the words must be as many as the
/// register spans and enough for one scalar, which is read from the front.
pub open spec fn decoded_number(reg: NumericRegister, words: Seq<u16>) -> Result<
    Value,
    DecodeError,
> {
    if words.len() == reg.count && reg.count >= reg.kind.words() {
        Ok(Value::Number { raw: raw_integer(reg.kind, words), gain: reg.gain as int })
    } else {
        Err(DecodeError::WordCount)
    }
}

/// What decoding a text register yields. Invalid UTF-8 is an error, never
/// patched over.
pub open spec fn decoded_text(reg: StringRegister, words: Seq<u16>) -> Result<
    Seq<char>,
    DecodeError,
> {
    if words.len() != reg.count {
        Err(DecodeError::WordCount)
    } else if !valid_utf8(be_bytes(words)) {
        Err(DecodeError::InvalidText)
    } else {
        Ok(strip_nul(decode_utf8(be_bytes(words))))
    }
}

/// What decoding any register yields.
pub open spec fn decoded(reg: Register, words: Seq<u16>) -> Result<Value, DecodeError> {
    match reg {
        Register::Numeric(r) => decoded_number(r, words),
        Register::Text(r) => match decoded_text(r, words) {
            Ok(text) => Ok(Value::Text(text)),
            Err(e) => Err(e),
        },
    }
}

/// Whether an executable result is the value or error that `expected` names.
pub open spec fn agrees(got: Result<Variant, DecodeError>, expected: Result<Value, DecodeError>) -> bool {
    match got {
        Ok(v) => expected == Ok::<Value, DecodeError>(v@),
        Err(e) => expected == Err::<Value, DecodeError>(e),
    }
}

/// Calls byteorder's `WriteBytesExt::write_u16::<BigEndian>` on the vector.
/// Trusted: the call appends exactly two bytes, the high byte of `word` and
/// then its low byte, and cannot fail on a vector.
#[verifier::external_body]
fn push_word_be(bytes: &mut Vec<u8>, word: u16)
    ensures
        final(bytes)@ == old(bytes)@.push((word / 256) as u8).push((word % 256) as u8),
{
    let _ = bytes.write_u16::<BigEndian>(word);
}

/// Calls std's `String::from_utf8`. Trusted: it succeeds exactly on valid
/// UTF-8, and the string then holds the characters that the bytes encode.
#[verifier::external_body]
fn text_from_utf8(bytes: Vec<u8>) -> (text: Option<String>)
    ensures
        text is Some <==> valid_utf8(bytes@),
        text is Some ==> text.unwrap()@ == decode_utf8(bytes@),
{
    match String::from_utf8(bytes) {
        Ok(s) => Some(s),
        Err(_) => None,
    }
}

/// Calls std's `str::replace` with the NUL character as pattern and nothing
/// as replacement. Trusted: every NUL is removed and all else kept in order.
#[verifier::external_body]
fn remove_nul(text: &str) -> (clean: String)
    ensures
        clean@ == strip_nul(text@),
{
    text.replace('\0', "")
}

/// Serialises the words into bytes, big-endian.
pub fn words_to_bytes(words: &Vec<u16>) -> (bytes: Vec<u8>)
    ensures
        bytes@ == be_bytes(words@),
{
    let mut bytes: Vec<u8> = Vec::new();
    let mut i: usize = 0;
    while i < words.len()
        invariant
            i <= words.len(),
            bytes@ =~= be_bytes(words@.take(i as int)),
        decreases words.len() - i,
    {
        push_word_be(&mut bytes, words[i]);
        i += 1;
    }
    assert(words@.take(i as int) =~= words@);
    bytes
}

/// The first four bytes as one unsigned integer, most significant first.
fn leading_u32(bytes: &Vec<u8>) -> (n: u32)
    requires
        bytes.len() >= 4,
    ensures
        n == bytes[0] * 0x100_0000 + bytes[1] * 0x1_0000 + bytes[2] * 0x100 + bytes[3],
{
    let b0: u32 = bytes[0] as u32;
    let b1: u32 = bytes[1] as u32;
    let b2: u32 = bytes[2] as u32;
    let b3: u32 = bytes[3] as u32;
    b0 * 0x100_0000 + b1 * 0x1_0000 + b2 * 0x100 + b3
}

/// Decodes a numeric register's words into the exact value `raw / gain`,
/// where `raw` is the unsigned or two's-complement integer that the words
/// spell. Fails exactly when the number of words is not the register's or is
/// too small for its kind.
pub fn decode_number(reg: &NumericRegister, words: &Vec<u16>) -> (r: Result<Variant, DecodeError>)
    ensures
        agrees(r, decoded_number(*reg, words@)),
{
    if words.len() != reg.count as usize || reg.count < reg.kind.word_count() {
        return Err(DecodeError::WordCount);
    }
    let raw: i64 = match reg.kind {
        NumericKind::U16 => words[0] as i64,
        NumericKind::I16 => {
            let w: i64 = words[0] as i64;
            if w < 0x8000 {
                w
            } else {
                w - 0x1_0000
            }
        },
        NumericKind::U32 => {
            let bytes = words_to_bytes(words);
            leading_u32(&bytes) as i64
        },
        NumericKind::I32 => {
            let bytes = words_to_bytes(words);
            let n: i64 = leading_u32(&bytes) as i64;
            if n < 0x8000_0000 {
                n
            } else {
                n - 0x1_0000_0000
            }
        },
    };
    Ok(Variant::Number { raw, gain: reg.gain })
}

/// Decodes a text register's words: the bytes in wire order, read as UTF-8,
/// with every NUL removed.
pub fn decode_text(reg: &StringRegister, words: &Vec<u16>) -> (r: Result<String, DecodeError>)
    ensures
        match r {
            Ok(text) => decoded_text(*reg, words@) == Ok::<Seq<char>, DecodeError>(text@),
            Err(e) => decoded_text(*reg, words@) == Err::<Seq<char>, DecodeError>(e),
        },
{
    if words.len() != reg.count as usize {
        return Err(DecodeError::WordCount);
    }
    let bytes = words_to_bytes(words);
    match text_from_utf8(bytes) {
        Some(text) => Ok(remove_nul(text.as_str())),
        None => Err(DecodeError::InvalidText),
    }
}

/// Decodes the words of any register.
pub fn decode(reg: &Register, words: &Vec<u16>) -> (r: Result<Variant, DecodeError>)
    ensures
        agrees(r, decoded(*reg, words@)),
{
    match reg {
        Register::Numeric(numeric) => decode_number(numeric, words),
        Register::Text(text) => match decode_text(text, words) {
            Ok(s) => Ok(Variant::Text(s)),
            Err(e) => Err(e),
        },
    }
}

/// Whether `n` fits the width and signedness of `kind`.
pub open spec fn representable(kind: NumericKind, n: int) -> bool {
    match kind {
        NumericKind::U16 => 0 <= n < 0x1_0000,
        NumericKind::I16 => -0x8000 <= n < 0x8000,
        NumericKind::U32 => 0 <= n < 0x1_0000_0000,
        NumericKind::I32 => -0x8000_0000 <= n < 0x8000_0000,
    }
}

/// The words that spell `n` under `kind`: a negative number in two's
/// complement, the most significant word first.
pub open spec fn encoded(kind: NumericKind, n: int) -> Seq<u16> {
    match kind {
        NumericKind::U16 | NumericKind::I16 => {
            let pattern = if n < 0 {
                n + 0x1_0000
            } else {
                n
            };
            seq![pattern as u16]
        },
        NumericKind::U32 | NumericKind::I32 => {
            let pattern = if n < 0 {
                n + 0x1_0000_0000
            } else {
                n
            };
            seq![(pattern / 0x1_0000) as u16, (pattern % 0x1_0000) as u16]
        },
    }
}

/// Two words combine as the high word shifted up by sixteen bits, or-ed with
/// the low word.
pub proof fn combined_is_shift_and_or(hi: u16, lo: u16)
    ensures
        combined(hi, lo) == (((hi as u32) << 16) | (lo as u32)),
{
    assert((((hi as u32) << 16) | (lo as u32)) == (hi as u32) * 0x1_0000 + (lo as u32))
        by (bit_vector);
}

/// A one-word unsigned register with divisor `g` decodes the word `w` to `w / g`.
pub proof fn unsigned_word_decodes_to_quotient(reg: NumericRegister, w: u16)
    requires
        reg.kind == NumericKind::U16,
        reg.count == 1,
    ensures
        decoded_number(reg, seq![w]) == Ok::<Value, DecodeError>(
            Value::Number { raw: w as int, gain: reg.gain as int },
        ),
{
}

/// Encoding an integer that fits the register's kind and decoding the words
/// gives the integer back, over the register's divisor.
pub proof fn decode_inverts_encode(reg: NumericRegister, n: int)
    requires
        reg.count == reg.kind.words(),
        representable(reg.kind, n),
    ensures
        decoded_number(reg, encoded(reg.kind, n)) == Ok::<Value, DecodeError>(
            Value::Number { raw: n, gain: reg.gain as int },
        ),
{
}

/// Stripping leaves no NUL behind.
pub proof fn strip_nul_leaves_none(text: Seq<char>)
    ensures
        forall|i: int| 0 <= i < strip_nul(text).len() ==> strip_nul(text)[i] != '\0',
    decreases text.len(),
{
    if text.len() > 0 {
        strip_nul_leaves_none(text.drop_last());
        let rest = strip_nul(text.drop_last());
        assert forall|i: int| 0 <= i < strip_nul(text).len() implies strip_nul(text)[i]
            != '\0' by {
            if i < rest.len() {
                assert(rest[i] != '\0');
            }
        }
    }
}

/// Text without a NUL comes through stripping unchanged.
pub proof fn strip_nul_keeps_clean_text(text: Seq<char>)
    requires
        forall|i: int| 0 <= i < text.len() ==> text[i] != '\0',
    ensures
        strip_nul(text) == text,
    decreases text.len(),
{
    if text.len() > 0 {
        strip_nul_keeps_clean_text(text.drop_last());
        assert(text.drop_last().push(text.last()) =~= text);
    }
}

/// Stripping twice is stripping once.
pub proof fn strip_nul_is_idempotent(text: Seq<char>)
    ensures
        strip_nul(strip_nul(text)) == strip_nul(text),
{
    strip_nul_leaves_none(text);
    strip_nul_keeps_clean_text(strip_nul(text));
}

} // verus!
