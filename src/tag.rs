use vstd::prelude::*;

verus! {

/// An ASCII decimal digit.
pub open spec fn is_digit(c: char) -> bool {
    '0' <= c && c <= '9'
}

/// The value of a string of decimal digits, most significant first.
pub open spec fn digits_value(s: Seq<char>) -> nat
    decreases s.len(),
{
    if s.len() == 0 {
        0
    } else {
        digits_value(s.drop_last()) * 10 + ((s.last() as u32) - ('0' as u32)) as nat
    }
}

/// The text after one optional leading `+`.
pub open spec fn unsigned_digits(s: Seq<char>) -> Seq<char> {
    if s.len() > 0 && s[0] == '+' {
        s.skip(1)
    } else {
        s
    }
}

/// `s` read as a `u64` in decimal: an optional `+` and then one or more
/// digits whose value fits; `None` for any other text.
pub open spec fn parsed_u64(s: Seq<char>) -> Option<u64> {
    let d = unsigned_digits(s);
    if d.len() > 0 && (forall|i: int| 0 <= i < d.len() ==> is_digit(#[trigger] d[i]))
        && digits_value(d) <= u64::MAX {
        Some(digits_value(d) as u64)
    } else {
        None
    }
}

/// The canonical form of a message type tag: its decimal value, or 0 where
/// the tag is not a `u64` written in decimal.
pub open spec fn normalized_type(tag: Seq<char>) -> u64 {
    match parsed_u64(tag) {
        Some(v) => v,
        None => 0,
    }
}

/// Relies on `<u64 as core::str::FromStr>::from_str`, which accepts an
/// optional `+` followed by decimal digits only, and fails on empty text, on
/// any other character, and on a value above `u64::MAX`.
#[verifier::external_body]
fn parse_u64(s: &str) -> (r: Option<u64>)
    ensures
        r == parsed_u64(s@),
{
    s.parse::<u64>().ok()
}

/// Normalizes a message type tag. A tag that is not a decimal `u64` becomes
/// 0 rather than an error.
pub fn normalize_type(tag: &str) -> (r: u64)
    ensures
        r == normalized_type(tag@),
{
    match parse_u64(tag) {
        Some(v) => v,
        None => 0,
    }
}

} // verus!
