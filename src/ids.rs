use vstd::prelude::*;

verus! {

pub open spec fn is_digit(c: char) -> bool {
    '0' <= c && c <= '9'
}

/// Value of a string of decimal digits.
pub open spec fn digits_value(s: Seq<char>) -> nat
    decreases s.len(),
{
    if s.len() == 0 {
        0
    } else {
        digits_value(s.drop_last()) * 10 + (s.last() as nat - '0' as nat) as nat
    }
}

/// The digits of an id as written in a path: an optional `+`, then at least
/// one decimal digit and nothing else.
pub open spec fn id_digits(s: Seq<char>) -> Seq<char> {
    if s.len() > 0 && s[0] == '+' {
        s.drop_first()
    } else {
        s
    }
}

/// The id that `s` spells, if it spells one that fits in a `u64`.
pub open spec fn id_of(s: Seq<char>) -> Option<u64> {
    let d = id_digits(s);
    if d.len() > 0 && (forall|i: int| 0 <= i < d.len() ==> is_digit(#[trigger] d[i]))
        && digits_value(d) <= u64::MAX {
        Some(digits_value(d) as u64)
    } else {
        None
    }
}

/// Relies on `<u64 as FromStr>::from_str`: an optional `+` followed by decimal
/// digits only, with an error on anything else or on overflow.
#[verifier::external_body]
fn parse_u64(s: &str) -> (r: Option<u64>)
    ensures
        r == id_of(s@),
{
    s.parse::<u64>().ok()
}

/// The transaction id written in a request path, or `None` if the text is not
/// a decimal `u64`.
pub fn parse_id(s: &str) -> (r: Option<u64>)
    ensures
        r == id_of(s@),
{
    parse_u64(s)
}

} // verus!
