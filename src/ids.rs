use vstd::prelude::*;

verus! {

/// The lowercase hexadecimal digit for a value below sixteen.
pub open spec fn lower_hex_digit(d: nat) -> char {
    if d < 10 {
        ((d + '0' as nat) as u8) as char
    } else {
        ((d - 10 + 'a' as nat) as u8) as char
    }
}

/// The last `n` lowercase hexadecimal digits of `v`, most significant first.
pub open spec fn lower_hex(v: nat, n: nat) -> Seq<char>
    decreases n,
{
    if n == 0 {
        Seq::empty()
    } else {
        lower_hex(v / 16, (n - 1) as nat).push(lower_hex_digit(v % 16))
    }
}

/// A UUID in simple form: 32 lowercase hexadecimal digits.
pub open spec fn simple_text(v: u128) -> Seq<char> {
    lower_hex(v as nat, 32)
}

/// A UUID in hyphenated form: the simple form cut into groups of
/// 8, 4, 4, 4 and 12 digits joined by `-`.
pub open spec fn hyphenated_text(v: u128) -> Seq<char> {
    let s = simple_text(v);
    s.subrange(0, 8) + seq!['-'] + s.subrange(8, 12) + seq!['-'] + s.subrange(12, 16) + seq!['-']
        + s.subrange(16, 20) + seq!['-'] + s.subrange(20, 32)
}

pub open spec fn is_hex_char(c: char) -> bool {
    ('0' <= c && c <= '9') || ('a' <= c && c <= 'f') || ('A' <= c && c <= 'F')
}

pub open spec fn hex_char_value(c: char) -> nat {
    if '0' <= c && c <= '9' {
        (c as nat - '0' as nat) as nat
    } else if 'a' <= c && c <= 'f' {
        (c as nat - 'a' as nat + 10) as nat
    } else {
        (c as nat - 'A' as nat + 10) as nat
    }
}

/// The number that a run of hexadecimal digits spells, most significant first.
pub open spec fn hex_value(s: Seq<char>) -> nat
    decreases s.len(),
{
    if s.len() == 0 {
        0
    } else {
        hex_value(s.drop_last()) * 16 + hex_char_value(s.last())
    }
}

/// 32 hexadecimal digits of either case, and nothing else.
pub open spec fn is_simple_form(s: Seq<char>) -> bool {
    s.len() == 32 && forall|i: int| 0 <= i < s.len() ==> is_hex_char(#[trigger] s[i])
}

/// The digits of a hyphenated UUID text, without its four hyphens.
pub open spec fn hyphenated_digits(s: Seq<char>) -> Seq<char> {
    s.subrange(0, 8) + s.subrange(9, 13) + s.subrange(14, 18) + s.subrange(19, 23) + s.subrange(
        24,
        36,
    )
}

/// Groups of 8, 4, 4, 4 and 12 hexadecimal digits of either case, joined
/// by `-`.
pub open spec fn is_hyphenated_form(s: Seq<char>) -> bool {
    &&& s.len() == 36
    &&& s[8] == '-' && s[13] == '-' && s[18] == '-' && s[23] == '-'
    &&& is_simple_form(hyphenated_digits(s))
}

/// A hyphenated UUID text after the prefix `urn:uuid:`.
pub open spec fn is_urn_form(s: Seq<char>) -> bool {
    &&& s.len() == 45
    &&& s.subrange(0, 9) == "urn:uuid:"@
    &&& is_hyphenated_form(s.subrange(9, 45))
}

/// The version number that a UUID carries in its seventh byte.
pub open spec fn uuid_version(v: u128) -> u128 {
    (v >> 76u128) & 0xfu128
}

/// What `uuid::Uuid::parse_str` reads from a text: the UUID's value, or
/// `None` where the text is refused.
pub uninterp spec fn parsed_uuid(s: Seq<char>) -> Option<u128>;

/// Relies on `uuid::Uuid::parse_str` and `Uuid::as_u128`: 32 hexadecimal
/// digits read as one big-endian number, in the simple, hyphenated or
/// `urn:uuid:` prefixed form; any accepted text is 32, 36 or 45
/// characters long.
#[verifier::external_body]
pub(crate) fn uuid_from_text(s: &str) -> (r: Option<u128>)
    ensures
        r == parsed_uuid(s@),
        is_simple_form(s@) ==> r == Some(hex_value(s@) as u128),
        is_hyphenated_form(s@) ==> r == Some(hex_value(hyphenated_digits(s@)) as u128),
        is_urn_form(s@) ==> r == Some(hex_value(hyphenated_digits(s@.subrange(9, 45))) as u128),
        r.is_some() ==> (s@.len() == 32 || s@.len() == 36 || s@.len() == 45),
{
    match uuid::Uuid::parse_str(s) {
        Ok(u) => Some(u.as_u128()),
        Err(_) => None,
    }
}

/// Relies on `uuid::Uuid::from_u128` and the `Simple` adapter's `Display`:
/// 32 lowercase hexadecimal digits, most significant first.
#[verifier::external_body]
pub(crate) fn simple_uuid_text(v: u128) -> (r: String)
    ensures
        r@ == simple_text(v),
{
    uuid::Uuid::from_u128(v).to_simple().to_string()
}

/// Relies on `uuid::Uuid::from_u128` and `Uuid`'s `Display`, which writes
/// the hyphenated lowercase form.
#[verifier::external_body]
pub(crate) fn hyphenated_uuid_text(v: u128) -> (r: String)
    ensures
        r@ == hyphenated_text(v),
{
    uuid::Uuid::from_u128(v).to_string()
}

/// Relies on `uuid::Uuid::new_v4`: random bits, with version 4 set in the
/// seventh byte.
#[verifier::external_body]
pub(crate) fn fresh_uuid() -> (r: u128)
    ensures
        uuid_version(r) == 4,
{
    uuid::Uuid::new_v4().as_u128()
}

} // verus!
