//! Small verified string helpers shared by the codec and the client layer,
//! and the trusted date conversions.

use vstd::prelude::*;

use crate::error::Error;

verus! {

/// The strftime pattern of the protocol's date representation: an 8-digit
/// date, exactly 4 literal spaces, and a 6-digit time.
pub const SIP_DATE_FORMAT: &'static str = "%Y%m%d    %H%M%S";

/// Character-for-character equality of two string slices.
pub fn str_eq(a: &str, b: &str) -> (r: bool)
    ensures
        r == (a@ == b@),
{
    let alen = a.unicode_len();
    let blen = b.unicode_len();
    if alen != blen {
        assert(a@ != b@) by {
            assert(a@.len() != b@.len());
        }
        return false;
    }
    let mut i: usize = 0;
    while i < alen
        invariant
            alen == a@.len(),
            blen == b@.len(),
            alen == blen,
            i <= alen,
            forall|j: int| 0 <= j < i ==> a@[j] == b@[j],
        decreases alen - i,
    {
        if a.get_char(i) != b.get_char(i) {
            return false;
        }
        i += 1;
    }
    assert(a@ =~= b@);
    true
}

/// Relies on std's `String::push`: appends the given character to the end of
/// the string.
#[verifier::external_body]
pub(crate) fn push_char(s: &mut String, c: char)
    ensures
        final(s)@ == old(s)@.push(c),
{
    s.push(c)
}

/// Cleans a string for inclusion in a SIP message: every `|` delimiter
/// character is removed, and nothing else changes.
pub fn sip_string(text: &str) -> (r: String)
    ensures
        r@ == text@.filter(|c: char| c != '|'),
{
    broadcast use vstd::seq_lib::group_seq_properties;

    let len = text.unicode_len();
    let mut out = String::new();
    let mut i: usize = 0;
    while i < len
        invariant
            len == text@.len(),
            i <= len,
            out@ == text@.take(i as int).filter(|c: char| c != '|'),
        decreases len - i,
    {
        let c = text.get_char(i);
        proof {
            assert(text@.take(i as int + 1) =~= text@.take(i as int).push(c));
            text@.take(i as int).lemma_filter_push(c, |x: char| x != '|');
        }
        if c != '|' {
            push_char(&mut out, c);
        }
        i += 1;
    }
    proof {
        assert(text@.take(len as int) =~= text@);
    }
    out
}


/// The decimal digit character for one digit value.
pub open spec fn digit_char(d: nat) -> char {
    if d == 0 {
        '0'
    } else if d == 1 {
        '1'
    } else if d == 2 {
        '2'
    } else if d == 3 {
        '3'
    } else if d == 4 {
        '4'
    } else if d == 5 {
        '5'
    } else if d == 6 {
        '6'
    } else if d == 7 {
        '7'
    } else if d == 8 {
        '8'
    } else {
        '9'
    }
}

/// The decimal representation of a number: most significant digit first,
/// no leading zeros, a single `'0'` for zero.
pub open spec fn spec_decimal(v: nat) -> Seq<char>
    decreases v,
{
    if v < 10 {
        seq![digit_char(v)]
    } else {
        spec_decimal(v / 10).push(digit_char(v % 10))
    }
}

/// The decimal digit character, executably.
fn digit_char_of(d: usize) -> (c: char)
    requires
        d < 10,
    ensures
        c == digit_char(d as nat),
{
    if d == 0 {
        '0'
    } else if d == 1 {
        '1'
    } else if d == 2 {
        '2'
    } else if d == 3 {
        '3'
    } else if d == 4 {
        '4'
    } else if d == 5 {
        '5'
    } else if d == 6 {
        '6'
    } else if d == 7 {
        '7'
    } else if d == 8 {
        '8'
    } else {
        '9'
    }
}

/// Renders a number in decimal.
pub fn decimal_string(v: usize) -> (r: String)
    ensures
        r@ == spec_decimal(v as nat),
{
    let mut digits: Vec<char> = Vec::new();
    digits.push(digit_char_of(v % 10));
    proof {
        assert(digits@ =~= seq![digit_char((v % 10) as nat)]);
        assert(digits@.reverse() =~= digits@);
        if v >= 10 {
            assert(spec_decimal(v as nat) == spec_decimal((v / 10) as nat).push(
                digit_char((v % 10) as nat),
            ));
            assert(spec_decimal((v / 10) as nat).push(digit_char((v % 10) as nat))
                =~= spec_decimal((v / 10) as nat) + digits@.reverse());
        }
    }
    let mut x: usize = v / 10;
    while x > 0
        invariant
            spec_decimal(v as nat) == (if x > 0 {
                spec_decimal(x as nat) + digits@.reverse()
            } else {
                digits@.reverse()
            }),
        decreases x,
    {
        let ghost digits0 = digits@;
        digits.push(digit_char_of(x % 10));
        proof {
            assert(digits@.reverse() =~= seq![digit_char((x % 10) as nat)] + digits0.reverse());
            if x >= 10 {
                assert(spec_decimal(x as nat) == spec_decimal((x / 10) as nat).push(
                    digit_char((x % 10) as nat),
                ));
                assert(spec_decimal((x / 10) as nat).push(digit_char((x % 10) as nat))
                    + digits0.reverse() =~= spec_decimal((x / 10) as nat) + digits@.reverse());
            } else {
                assert(spec_decimal(x as nat) =~= seq![digit_char((x % 10) as nat)]);
                assert(spec_decimal(x as nat) + digits0.reverse() =~= digits@.reverse());
            }
        }
        x = x / 10;
    }
    let n = digits.len();
    let mut s = String::new();
    let mut i: usize = n;
    while i > 0
        invariant
            n == digits@.len(),
            i <= n,
            s@ =~= digits@.reverse().take((n - i) as int),
        decreases i,
    {
        i -= 1;
        push_char(&mut s, digits[i]);
        proof {
            assert(s@ =~= digits@.reverse().take((n - i) as int));
        }
    }
    proof {
        assert(digits@.reverse().take(n as int) =~= digits@.reverse());
    }
    s
}

/// What `sip_date` yields for a given string: the protocol's date
/// representation of an RFC 3339 timestamp, a function of the input alone,
/// or nothing when the input does not parse.
pub uninterp spec fn sip_date_of(iso: Seq<char>) -> Option<Seq<char>>;

/// Translates an RFC 3339 (ISO 8601) timestamp into the protocol's date
/// representation.
///
/// Relies on chrono's `DateTime::parse_from_rfc3339` and `DateTime::format`:
/// the first parses the timestamp, the second renders it through the fixed
/// pattern; both depend on the input characters alone.
#[verifier::external_body]
pub fn sip_date(iso_date: &str) -> (r: Result<String, Error>)
    ensures
        r is Ok <==> sip_date_of(iso_date@) is Some,
        r is Ok ==> Some(r.unwrap()@) == sip_date_of(iso_date@),
        r is Err ==> r->Err_0 == Error::DateFormatError,
{
    match chrono::DateTime::parse_from_rfc3339(iso_date) {
        Ok(dt) => Ok(dt.format(SIP_DATE_FORMAT).to_string()),
        Err(_) => Err(Error::DateFormatError),
    }
}

/// The current local time in the protocol's date representation.
///
/// Relies on chrono's `Local::now` and `DateTime::format`.  The result
/// depends on the clock, so nothing is promised of it; callers check its
/// length before placing it in a fixed field.
#[verifier::external_body]
pub fn sip_date_now() -> String {
    chrono::Local::now().format(SIP_DATE_FORMAT).to_string()
}

} // verus!
