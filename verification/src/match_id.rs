//! Match identifiers: 128-bit values with a canonical 36-character text form.
//!
//! The text forms are those of RFC 9562 identifiers. This module states the
//! grammar as spec functions over `Seq<char>`, hands the actual parsing and
//! formatting to the `uuid` crate, and proves that the canonical text of an
//! identifier parses back to the same identifier.

use vstd::prelude::*;

verus! {

/// Length of the canonical hyphenated text.
pub const CANONICAL_LENGTH: usize = 36;

/// Bits that every random (version 4) identifier has fixed: the version
/// nibble and the two variant bits.
pub const RANDOM_FIXED_MASK: u128 = 0x0000_0000_0000_F000_C000_0000_0000_0000;

/// Value of the fixed bits of a random (version 4) identifier.
pub const RANDOM_FIXED_BITS: u128 = 0x0000_0000_0000_4000_8000_0000_0000_0000;

/// A 128-bit match identifier chosen by the hosting client.
#[derive(Clone, Copy, Debug, PartialEq, Eq, Hash, Structural)]
pub struct MatchIdentifier(pub u128);

/// Why a text was not accepted as a match identifier.
#[derive(Clone, Copy, Debug, PartialEq, Eq, Structural)]
pub enum MatchIdError {
    /// The text is none of the accepted forms.
    Malformed,
}

// ---------------------------------------------------------------------------
// Hexadecimal digits
// ---------------------------------------------------------------------------

/// `c` is one of `0-9`, `a-f`, `A-F`.
pub open spec fn is_hex_digit(c: char) -> bool {
    ('0' <= c && c <= '9') || ('a' <= c && c <= 'f') || ('A' <= c && c <= 'F')
}

/// The number a hexadecimal digit stands for.
pub open spec fn hex_digit_value(c: char) -> nat
    recommends
        is_hex_digit(c),
{
    if '0' <= c && c <= '9' {
        (c as int - '0' as int) as nat
    } else if 'a' <= c && c <= 'f' {
        (c as int - 'a' as int + 10) as nat
    } else {
        (c as int - 'A' as int + 10) as nat
    }
}

/// The lower-case digit for a number below sixteen.
pub open spec fn lower_hex_digit(n: nat) -> char
    recommends
        n < 16,
{
    if n == 0 {
        '0'
    } else if n == 1 {
        '1'
    } else if n == 2 {
        '2'
    } else if n == 3 {
        '3'
    } else if n == 4 {
        '4'
    } else if n == 5 {
        '5'
    } else if n == 6 {
        '6'
    } else if n == 7 {
        '7'
    } else if n == 8 {
        '8'
    } else if n == 9 {
        '9'
    } else if n == 10 {
        'a'
    } else if n == 11 {
        'b'
    } else if n == 12 {
        'c'
    } else if n == 13 {
        'd'
    } else if n == 14 {
        'e'
    } else {
        'f'
    }
}

/// Every character of `digits` is a hexadecimal digit.
pub open spec fn all_hex(digits: Seq<char>) -> bool {
    forall|i: int| 0 <= i < digits.len() ==> is_hex_digit(#[trigger] digits[i])
}

/// The number written by `digits`, most significant digit first.
pub open spec fn hex_value(digits: Seq<char>) -> nat
    decreases digits.len(),
{
    if digits.len() == 0 {
        0
    } else {
        hex_value(digits.drop_last()) * 16 + hex_digit_value(digits.last())
    }
}

/// The `width` least significant hexadecimal digits of `v`, lower case, most
/// significant first.
pub open spec fn hex_text(v: nat, width: nat) -> Seq<char>
    decreases width,
{
    if width == 0 {
        Seq::empty()
    } else {
        hex_text(v / 16, (width - 1) as nat).push(lower_hex_digit(v % 16))
    }
}

/// Sixteen to the power `n`.
pub open spec fn pow16(n: nat) -> nat
    decreases n,
{
    if n == 0 {
        1
    } else {
        16 * pow16((n - 1) as nat)
    }
}

// ---------------------------------------------------------------------------
// Text forms
// ---------------------------------------------------------------------------

/// Puts the four hyphens into a run of 32 digits: groups of 8, 4, 4, 4, 12.
pub open spec fn hyphenate(digits: Seq<char>) -> Seq<char>
    recommends
        digits.len() == 32,
{
    digits.subrange(0, 8).push('-') + digits.subrange(8, 12).push('-') + digits.subrange(
        12,
        16,
    ).push('-') + digits.subrange(16, 20).push('-') + digits.subrange(20, 32)
}

/// Takes the four hyphens out of a 36-character hyphenated text.
pub open spec fn dehyphenate(text: Seq<char>) -> Seq<char>
    recommends
        text.len() == 36,
{
    text.subrange(0, 8) + text.subrange(9, 13) + text.subrange(14, 18) + text.subrange(19, 23)
        + text.subrange(24, 36)
}

/// The canonical text of `value`: 36 characters, lower case, hyphenated.
pub open spec fn canonical_text(value: u128) -> Seq<char> {
    hyphenate(hex_text(value as nat, 32))
}

/// 32 hexadecimal digits, no hyphens.
pub open spec fn is_simple_text(text: Seq<char>) -> bool {
    text.len() == 32 && all_hex(text)
}

/// 36 characters: hexadecimal digits in groups of 8, 4, 4, 4, 12, with a
/// hyphen between two groups.
pub open spec fn is_hyphenated_text(text: Seq<char>) -> bool {
    &&& text.len() == 36
    &&& text[8] == '-'
    &&& text[13] == '-'
    &&& text[18] == '-'
    &&& text[23] == '-'
    &&& all_hex(dehyphenate(text))
}

/// A hyphenated text between `{` and `}`.
pub open spec fn is_braced_text(text: Seq<char>) -> bool {
    &&& text.len() == 38
    &&& text[0] == '{'
    &&& text[37] == '}'
    &&& is_hyphenated_text(text.subrange(1, 37))
}

/// `prefix` reads `urn:uuid:`, in either case of each letter.
pub open spec fn is_urn_prefix(prefix: Seq<char>) -> bool {
    &&& prefix.len() == 9
    &&& (prefix[0] == 'u' || prefix[0] == 'U')
    &&& (prefix[1] == 'r' || prefix[1] == 'R')
    &&& (prefix[2] == 'n' || prefix[2] == 'N')
    &&& prefix[3] == ':'
    &&& (prefix[4] == 'u' || prefix[4] == 'U')
    &&& (prefix[5] == 'u' || prefix[5] == 'U')
    &&& (prefix[6] == 'i' || prefix[6] == 'I')
    &&& (prefix[7] == 'd' || prefix[7] == 'D')
    &&& prefix[8] == ':'
}

/// A hyphenated text behind `urn:uuid:`.
pub open spec fn is_urn_text(text: Seq<char>) -> bool {
    &&& text.len() == 45
    &&& is_urn_prefix(text.subrange(0, 9))
    &&& is_hyphenated_text(text.subrange(9, 45))
}

/// `text` is one of the four accepted forms of an identifier.
pub open spec fn is_identifier_text(text: Seq<char>) -> bool {
    is_simple_text(text) || is_hyphenated_text(text) || is_braced_text(text) || is_urn_text(text)
}

/// The 32 digits that an accepted text holds.
pub open spec fn identifier_digits(text: Seq<char>) -> Seq<char>
    recommends
        is_identifier_text(text),
{
    if text.len() == 32 {
        text
    } else if text.len() == 36 {
        dehyphenate(text)
    } else if text.len() == 38 {
        dehyphenate(text.subrange(1, 37))
    } else {
        dehyphenate(text.subrange(9, 45))
    }
}

/// The identifier that an accepted text denotes.
pub open spec fn identifier_value(text: Seq<char>) -> nat
    recommends
        is_identifier_text(text),
{
    hex_value(identifier_digits(text))
}

/// What parsing `text` gives: the identifier, or the reason for none.
pub open spec fn parse_outcome(text: Seq<char>) -> Result<MatchIdentifier, MatchIdError> {
    if is_identifier_text(text) {
        Ok(MatchIdentifier(identifier_value(text) as u128))
    } else {
        Err(MatchIdError::Malformed)
    }
}

// ---------------------------------------------------------------------------
// Calls into the uuid crate
// ---------------------------------------------------------------------------

#[verifier::external_type_specification]
#[verifier::external_body]
pub struct ExUuidError(uuid::Error);

/// `uuid::Uuid::parse_str`, with the parsed value taken out by
/// `Uuid::as_u128`. The contract claims the crate's grammar: the call
/// succeeds exactly on the simple, hyphenated, braced and URN forms, digits in
/// either case, and the value is the one that the 32 digits write, most
/// significant first.
#[verifier::external_body]
fn uuid_parse_str(text: &str) -> (res: Result<u128, uuid::Error>)
    ensures
        res is Ok <==> is_identifier_text(text@),
        res is Ok ==> res->Ok_0 as nat == identifier_value(text@),
{
    match uuid::Uuid::parse_str(text) {
        Ok(id) => Ok(id.as_u128()),
        Err(e) => Err(e),
    }
}

/// `Uuid::to_string` on `Uuid::from_u128(value)`. The contract claims that
/// the crate's `Display` writes the hyphenated lower-case form.
#[verifier::external_body]
fn uuid_to_string(value: u128) -> (text: String)
    ensures
        text@ == canonical_text(value),
{
    uuid::Uuid::from_u128(value).to_string()
}

/// `uuid::Uuid::new_v4`, as a number. The value is random; the contract
/// claims only the version and variant bits that the crate sets on every
/// random identifier.
#[verifier::external_body]
fn uuid_new_v4() -> (value: u128)
    ensures
        value & RANDOM_FIXED_MASK == RANDOM_FIXED_BITS,
{
    uuid::Uuid::new_v4().as_u128()
}

// ---------------------------------------------------------------------------
// The identifier
// ---------------------------------------------------------------------------

impl MatchIdentifier {
    /// This identifier carries the version and variant bits of a random one.
    pub open spec fn is_random(self) -> bool {
        self.0 & RANDOM_FIXED_MASK == RANDOM_FIXED_BITS
    }

    /// The identifier with the given value.
    pub fn from_u128(value: u128) -> (id: MatchIdentifier)
        ensures
            id == MatchIdentifier(value),
    {
        MatchIdentifier(value)
    }

    /// The identifier's value.
    pub fn as_u128(&self) -> (value: u128)
        ensures
            value == self.0,
    {
        self.0
    }

    /// A fresh random identifier.
    pub fn new_v4() -> (id: MatchIdentifier)
        ensures
            id.is_random(),
    {
        MatchIdentifier(uuid_new_v4())
    }

    /// Reads an identifier from any of its four text forms.
    pub fn parse_str(text: &str) -> (res: Result<MatchIdentifier, MatchIdError>)
        ensures
            res == parse_outcome(text@),
    {
        match uuid_parse_str(text) {
            Ok(value) => Ok(MatchIdentifier(value)),
            Err(_) => Err(MatchIdError::Malformed),
        }
    }

    /// The canonical text: 36 characters, lower case, hyphenated.
    pub fn to_string(&self) -> (text: String)
        ensures
            text@ == canonical_text(self.0),
    {
        uuid_to_string(self.0)
    }
}

// ---------------------------------------------------------------------------
// Round trip
// ---------------------------------------------------------------------------

/// Every character of `hex_text` is a lower-case hexadecimal digit, and there
/// are `width` of them.
pub proof fn lemma_hex_text_shape(v: nat, width: nat)
    ensures
        hex_text(v, width).len() == width,
        all_hex(hex_text(v, width)),
    decreases width,
{
    if width > 0 {
        lemma_hex_text_shape(v / 16, (width - 1) as nat);
        let head = hex_text(v / 16, (width - 1) as nat);
        let d = lower_hex_digit(v % 16);
        assert(is_hex_digit(d));
        assert forall|i: int| 0 <= i < hex_text(v, width).len() implies is_hex_digit(
            #[trigger] hex_text(v, width)[i],
        ) by {
            if i < head.len() {
                assert(hex_text(v, width)[i] == head[i]);
            }
        }
    }
}

/// Reading back the `width` digits of `v` gives `v` modulo `16^width`.
pub proof fn lemma_hex_value_of_text(v: nat, width: nat)
    ensures
        hex_value(hex_text(v, width)) == v % pow16(width),
    decreases width,
{
    if width == 0 {
        assert(hex_text(v, width) =~= Seq::<char>::empty());
    } else {
        let w = (width - 1) as nat;
        let head = hex_text(v / 16, w);
        let d = lower_hex_digit(v % 16);
        let text = hex_text(v, width);
        lemma_hex_value_of_text(v / 16, w);
        lemma_pow16_positive(w);
        assert(text.drop_last() =~= head);
        assert(text.last() == d);
        assert(hex_digit_value(d) == v % 16);
        lemma_split_low_digit(v, pow16(w));
    }
}

/// `16^n` is positive.
pub proof fn lemma_pow16_positive(n: nat)
    ensures
        pow16(n) > 0,
    decreases n,
{
    if n > 0 {
        lemma_pow16_positive((n - 1) as nat);
    }
}

/// Splitting off the lowest digit: `v mod 16p` is `16 (v/16 mod p) + v mod 16`.
proof fn lemma_split_low_digit(v: nat, p: nat)
    requires
        p > 0,
    ensures
        ((v / 16) % p) * 16 + v % 16 == v % (16 * p),
{
    let q = v / 16;
    let r = v % 16;
    let a = q / p;
    let b = q % p;
    assert(q == a * p + b) by (nonlinear_arith)
        requires
            p > 0,
            a == q / p,
            b == q % p,
    ;
    assert(0 <= b < p) by (nonlinear_arith)
        requires
            p > 0,
            b == q % p,
    ;
    assert(v == 16 * q + r);
    assert(v == a * (16 * p) + (16 * b + r)) by (nonlinear_arith)
        requires
            v == 16 * q + r,
            q == a * p + b,
    ;
    assert(0 <= 16 * b + r < 16 * p);
    vstd::arithmetic::div_mod::lemma_fundamental_div_mod_converse(
        v as int,
        (16 * p) as int,
        a as int,
        (16 * b + r) as int,
    );
}

/// `16^32` is `2^128`.
pub proof fn lemma_pow16_32()
    ensures
        pow16(32) == 0x1_0000_0000_0000_0000_0000_0000_0000_0000,
{
    assert(pow16(0) == 1);
    assert(pow16(4) == 0x1_0000) by {
        reveal_with_fuel(pow16, 5);
    }
    assert(pow16(8) == 0x1_0000_0000) by {
        reveal_with_fuel(pow16, 5);
    }
    assert(pow16(12) == 0x1_0000_0000_0000) by {
        reveal_with_fuel(pow16, 5);
    }
    assert(pow16(16) == 0x1_0000_0000_0000_0000) by {
        reveal_with_fuel(pow16, 5);
    }
    assert(pow16(20) == 0x1_0000_0000_0000_0000_0000) by {
        reveal_with_fuel(pow16, 5);
    }
    assert(pow16(24) == 0x1_0000_0000_0000_0000_0000_0000) by {
        reveal_with_fuel(pow16, 5);
    }
    assert(pow16(28) == 0x1_0000_0000_0000_0000_0000_0000_0000) by {
        reveal_with_fuel(pow16, 5);
    }
    assert(pow16(32) == 0x1_0000_0000_0000_0000_0000_0000_0000_0000) by {
        reveal_with_fuel(pow16, 5);
    }
}

/// Taking the hyphens out undoes putting them in.
pub proof fn lemma_dehyphenate_hyphenate(digits: Seq<char>)
    requires
        digits.len() == 32,
    ensures
        hyphenate(digits).len() == 36,
        hyphenate(digits)[8] == '-',
        hyphenate(digits)[13] == '-',
        hyphenate(digits)[18] == '-',
        hyphenate(digits)[23] == '-',
        dehyphenate(hyphenate(digits)) == digits,
{
    assert(dehyphenate(hyphenate(digits)) =~= digits);
}

/// The canonical text of an identifier is a hyphenated text of 36 characters,
/// and parsing it gives the identifier back.
pub proof fn lemma_canonical_round_trip(id: MatchIdentifier)
    ensures
        canonical_text(id.0).len() == 36,
        is_hyphenated_text(canonical_text(id.0)),
        is_identifier_text(canonical_text(id.0)),
        parse_outcome(canonical_text(id.0)) == Ok::<MatchIdentifier, MatchIdError>(id),
{
    let v = id.0 as nat;
    let digits = hex_text(v, 32);
    lemma_hex_text_shape(v, 32);
    lemma_dehyphenate_hyphenate(digits);
    lemma_hex_value_of_text(v, 32);
    lemma_pow16_32();
    assert(v % pow16(32) == v) by {
        vstd::arithmetic::div_mod::lemma_small_mod(v, pow16(32));
    }
    assert(identifier_digits(canonical_text(id.0)) == digits);
}

} // verus!
