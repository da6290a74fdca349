//! Identifier validity, as `proc_macro2::Ident::new` checks it.

use vstd::prelude::*;
use vstd::string::*;

verus! {

/// Whether `c` has the Unicode property `XID_Start`.
pub uninterp spec fn xid_start(c: char) -> bool;

/// Whether `c` has the Unicode property `XID_Continue`.
pub uninterp spec fn xid_continue(c: char) -> bool;

/// Relies on `unicode_ident::is_xid_start`: the Unicode table lookup, whose
/// ASCII part holds the letters alone.
#[verifier::external_body]
fn is_xid_start(c: char) -> (r: bool)
    ensures
        r == xid_start(c),
        (c as u32) < 128 ==> (r <==> is_ascii_letter(c)),
{
    unicode_ident::is_xid_start(c)
}

/// Relies on `unicode_ident::is_xid_continue`: the Unicode table lookup,
/// whose ASCII part holds the letters, the digits and `_`.
#[verifier::external_body]
fn is_xid_continue(c: char) -> (r: bool)
    ensures
        r == xid_continue(c),
        (c as u32) < 128 ==> (r <==> (is_ascii_letter(c) || is_digit(c) || c == '_')),
{
    unicode_ident::is_xid_continue(c)
}

pub open spec fn is_ascii_letter(c: char) -> bool {
    ('a' <= c && c <= 'z') || ('A' <= c && c <= 'Z')
}

pub open spec fn is_digit(c: char) -> bool {
    '0' <= c && c <= '9'
}

/// A text is an identifier when it is not empty, not made of digits alone,
/// starts with `_` or an `XID_Start` character and goes on with
/// `XID_Continue` characters.
pub open spec fn is_ident(s: Seq<char>) -> bool {
    &&& s.len() > 0
    &&& exists|i: int| 0 <= i < s.len() && !is_digit(#[trigger] s[i])
    &&& (s[0] == '_' || xid_start(s[0]))
    &&& forall|i: int| 1 <= i < s.len() ==> xid_continue(#[trigger] s[i])
}

/// Tells whether `s` can stand as an identifier.
pub fn is_valid_ident(s: &str) -> (r: bool)
    ensures
        r == is_ident(s@),
{
    let n = s.unicode_len();
    if n == 0 {
        return false;
    }
    let first = s.get_char(0);
    let mut start_ok = first == '_';
    if !start_ok {
        start_ok = is_xid_start(first);
    }
    let mut has_non_digit = !('0' <= first && first <= '9');
    let mut i: usize = 1;
    while i < n
        invariant
            n == s@.len(),
            1 <= i <= n,
            first == s@[0],
            has_non_digit <==> exists|j: int| 0 <= j < i && !is_digit(#[trigger] s@[j]),
            forall|j: int| 1 <= j < i ==> xid_continue(#[trigger] s@[j]),
        decreases n - i,
    {
        let c = s.get_char(i);
        if !is_xid_continue(c) {
            return false;
        }
        if !('0' <= c && c <= '9') {
            has_non_digit = true;
        }
        i = i + 1;
    }
    start_ok && has_non_digit
}

} // verus!
