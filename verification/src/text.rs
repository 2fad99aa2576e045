//! Small operations on text that the rest of the library is built from.

use vstd::prelude::*;
use vstd::string::*;
use vstd::utf8::*;

verus! {

/// Compares two strings without stopping at the first difference.
///
/// Strings of different byte length are told apart at once; for strings of
/// equal length every byte is read, whatever the outcome.
pub fn constant_time_eq(a: &str, b: &str) -> (same: bool)
    ensures
        same == (a@ == b@),
{
    let x = a.as_bytes();
    let y = b.as_bytes();
    proof {
        encode_utf8_decode_utf8(a@);
        encode_utf8_decode_utf8(b@);
    }
    if x.len() != y.len() {
        return false;
    }
    let mut diff: u8 = 0;
    let mut i: usize = 0;
    while i < x.len()
        invariant
            i <= x.len(),
            x.len() == y.len(),
            (diff == 0) <==> (x@.subrange(0, i as int) =~= y@.subrange(0, i as int)),
        decreases x.len() - i,
    {
        let p = x[i];
        let q = y[i];
        let ghost before = diff;
        diff = diff | (p ^ q);
        proof {
            assert(((before | (p ^ q)) == 0) <==> (before == 0 && p == q)) by (bit_vector);
            let xs = x@.subrange(0, i as int);
            let ys = y@.subrange(0, i as int);
            let xn = x@.subrange(0, i as int + 1);
            let yn = y@.subrange(0, i as int + 1);
            assert(xn =~= xs.push(p));
            assert(yn =~= ys.push(q));
            if xn == yn {
                assert(xs =~= xn.drop_last());
                assert(ys =~= yn.drop_last());
                assert(p == xn.last());
                assert(q == yn.last());
            }
        }
        i += 1;
    }
    proof {
        assert(x@.subrange(0, i as int) =~= x@);
        assert(y@.subrange(0, i as int) =~= y@);
    }
    diff == 0
}

/// Whether two strings hold the same text.
pub fn same_text(a: &str, b: &str) -> (same: bool)
    ensures
        same == (a@ == b@),
{
    constant_time_eq(a, b)
}

/// The three pieces joined in order.
pub fn join3(a: &str, b: &str, c: &str) -> (out: String)
    ensures
        out@ == a@ + b@ + c@,
{
    let mut out = String::from_str(a);
    out.append(b);
    out.append(c);
    out
}

/// A character of a plain identifier: an ASCII letter or digit, `-`, `.`
/// or `_`.
pub open spec fn plain_char(c: char) -> bool {
    ||| 'a' <= c <= 'z'
    ||| 'A' <= c <= 'Z'
    ||| '0' <= c <= '9'
    ||| c == '-'
    ||| c == '.'
    ||| c == '_'
}

/// A letter or digit of ASCII.
pub open spec fn letter_or_digit(c: char) -> bool {
    ||| 'a' <= c <= 'z'
    ||| 'A' <= c <= 'Z'
    ||| '0' <= c <= '9'
}

/// A plain identifier: it begins with a letter or digit and is made of
/// plain characters only. As a segment of a URL's path such a text stands
/// for itself: nothing in it is escaped, and it is no `.` or `..`.
pub open spec fn plain_identifier(s: Seq<char>) -> bool {
    &&& s.len() > 0
    &&& letter_or_digit(s[0])
    &&& forall|i: int| 0 <= i < s.len() ==> plain_char(#[trigger] s[i])
}

/// Whether a string is a plain identifier, such as a tenant's GUID or
/// domain name.
pub fn is_plain_identifier(s: &str) -> (plain: bool)
    ensures
        plain == plain_identifier(s@),
{
    if !s.is_ascii() {
        proof {
            let i = choose|i: int| 0 <= i < s@.len() && !('\0' <= #[trigger] s@[i] <= '\u{7f}');
            assert(!plain_char(s@[i]));
        }
        return false;
    }
    proof {
        assert(is_ascii_chars(s@));
        is_ascii_chars_encode_utf8(s@);
        assert(s.spec_bytes().len() == s@.len());
    }
    let n = s.as_bytes().len();
    if n == 0 {
        return false;
    }
    let mut i: usize = 0;
    while i < n
        invariant
            i <= n,
            n == s@.len(),
            s.is_ascii(),
            i > 0 ==> letter_or_digit(s@[0]),
            forall|j: int| 0 <= j < i ==> plain_char(#[trigger] s@[j]),
        decreases n - i,
    {
        let b = s.get_ascii(i);
        let ghost c = s@[i as int];
        assert('\0' <= c <= '\u{7f}');
        assert(c as u8 == b);
        let begins = (97 <= b && b <= 122) || (65 <= b && b <= 90) || (48 <= b && b <= 57);
        let ok = begins || b == 45 || b == 46 || b == 95;
        assert(begins == letter_or_digit(c));
        assert(ok == plain_char(c));
        if !ok || (i == 0 && !begins) {
            return false;
        }
        i += 1;
    }
    true
}

/// The texts of a list of strings, in order.
pub open spec fn texts(list: Seq<String>) -> Seq<Seq<char>> {
    list.map_values(|s: String| s@)
}

/// The text of an optional string.
pub open spec fn optional_text(value: Option<String>) -> Option<Seq<char>> {
    match value {
        Some(s) => Some(s@),
        None => None,
    }
}

/// The text of an optional string slice.
pub open spec fn optional_str_text(value: Option<&str>) -> Option<Seq<char>> {
    match value {
        Some(s) => Some(s@),
        None => None,
    }
}

/// Whether a list holds a string with the text of `wanted`.
pub fn contains_text(list: &Vec<String>, wanted: &str) -> (found: bool)
    ensures
        found == texts(list@).contains(wanted@),
{
    let mut i: usize = 0;
    while i < list.len()
        invariant
            i <= list.len(),
            forall|j: int| 0 <= j < i ==> (#[trigger] texts(list@)[j]) != wanted@,
        decreases list.len() - i,
    {
        assert(texts(list@)[i as int] == list@[i as int]@);
        if same_text(list[i].as_str(), wanted) {
            return true;
        }
        i += 1;
    }
    false
}

} // verus!
