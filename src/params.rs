//! Reads the text of one generic parameter: its name, and the parameter
//! without its default.

use vstd::prelude::*;
use vstd::string::*;

verus! {

/// A character that ends a parameter's name: blank space, the `:` before
/// bounds, or the `=` before a default.
pub open spec fn ends_name(c: char) -> bool {
    c == ' ' || c == '\t' || c == '\n' || c == '\r' || c == ':' || c == '='
}

/// Where the name that starts at or before `i` ends.
pub open spec fn name_end(s: Seq<char>, i: int) -> int
    decreases s.len() - i,
{
    if i >= s.len() || ends_name(s[i]) {
        i
    } else {
        name_end(s, i + 1)
    }
}

/// The leading identifier or lifetime of a parameter's text (`T` of
/// `T: Clone = u8`, `'a` of `'a: 'b`).
pub open spec fn param_name_of(s: Seq<char>) -> Seq<char> {
    s.subrange(0, name_end(s, 0))
}

pub open spec fn opens_group(c: char) -> bool {
    c == '<' || c == '(' || c == '[' || c == '{'
}

/// The character at `i` closes a group; the `>` of an arrow `->` does not.
pub open spec fn closes_group(s: Seq<char>, i: int) -> bool {
    ||| (s[i] == '>' && !(i > 0 && s[i - 1] == '-'))
    ||| s[i] == ')'
    ||| s[i] == ']'
    ||| s[i] == '}'
}

/// Where the default of a parameter starts: the first `=` outside any
/// brackets, from position `i` on at bracket depth `depth`; the text's end
/// when there is none.
pub open spec fn default_start(s: Seq<char>, i: int, depth: int) -> int
    decreases s.len() - i,
{
    if i >= s.len() {
        i
    } else if depth == 0 && s[i] == '=' {
        i
    } else if opens_group(s[i]) {
        default_start(s, i + 1, depth + 1)
    } else if closes_group(s, i) {
        default_start(s, i + 1, if depth > 0 { depth - 1 } else { 0 })
    } else {
        default_start(s, i + 1, depth)
    }
}

/// A parameter's text up to its default (`T: Iterator<Item = u8> ` of
/// `T: Iterator<Item = u8> = I`).
pub open spec fn without_default_of(s: Seq<char>) -> Seq<char> {
    s.subrange(0, default_start(s, 0, 0))
}

/// The name of the generic parameter written as `p`.
pub fn param_name(p: &str) -> (r: String)
    ensures
        r@ == param_name_of(p@),
{
    let n = p.unicode_len();
    let mut i: usize = 0;
    let mut stop = false;
    while !stop && i < n
        invariant
            n == p@.len(),
            0 <= i <= n,
            name_end(p@, 0) == name_end(p@, i as int),
            stop ==> i < n && ends_name(p@[i as int]),
        decreases n - i + if stop { 0int } else { 1int },
    {
        let c = p.get_char(i);
        if c == ' ' || c == '\t' || c == '\n' || c == '\r' || c == ':' || c == '=' {
            stop = true;
        } else {
            i = i + 1;
        }
    }
    String::from_str(p.substring_char(0, i))
}

/// The generic parameter written as `p`, without its default.
pub fn without_default(p: &str) -> (r: String)
    ensures
        r@ == without_default_of(p@),
{
    let n = p.unicode_len();
    let mut i: usize = 0;
    let mut depth: usize = 0;
    let mut stop = false;
    while !stop && i < n
        invariant
            n == p@.len(),
            0 <= i <= n,
            depth <= i,
            default_start(p@, 0, 0) == default_start(p@, i as int, depth as int),
            stop ==> i < n && depth == 0 && p@[i as int] == '=',
        decreases n - i + if stop { 0int } else { 1int },
    {
        let c = p.get_char(i);
        if depth == 0 && c == '=' {
            stop = true;
        } else {
            let after_dash = i > 0 && p.get_char(i - 1) == '-';
            if c == '<' || c == '(' || c == '[' || c == '{' {
                depth = depth + 1;
            } else if (c == '>' && !after_dash) || c == ')' || c == ']' || c == '}' {
                if depth > 0 {
                    depth = depth - 1;
                }
            }
            i = i + 1;
        }
    }
    String::from_str(p.substring_char(0, i))
}

/// The names of the parameters written in `ps`, in order.
pub fn param_names(ps: &Vec<String>) -> (r: Vec<String>)
    ensures
        r.deep_view() == ps.deep_view().map_values(|p: Seq<char>| param_name_of(p)),
{
    let mut r: Vec<String> = Vec::new();
    let mut i: usize = 0;
    while i < ps.len()
        invariant
            0 <= i <= ps.len(),
            r.deep_view() == ps.deep_view().take(i as int).map_values(
                |p: Seq<char>| param_name_of(p),
            ),
        decreases ps.len() - i,
    {
        let ghost prev = r.deep_view();
        r.push(param_name(ps[i].as_str()));
        proof {
            assert(r.deep_view() =~= prev.push(param_name_of(ps[i as int]@)));
            assert(ps.deep_view().take(i + 1).map_values(|p: Seq<char>| param_name_of(p))
                =~= prev.push(param_name_of(ps[i as int]@)));
        }
        i = i + 1;
    }
    proof {
        assert(ps.deep_view().take(ps.len() as int) =~= ps.deep_view());
    }
    r
}

/// The parameters written in `ps` without their defaults, in order.
pub fn without_defaults(ps: &Vec<String>) -> (r: Vec<String>)
    ensures
        r.deep_view() == ps.deep_view().map_values(|p: Seq<char>| without_default_of(p)),
{
    let mut r: Vec<String> = Vec::new();
    let mut i: usize = 0;
    while i < ps.len()
        invariant
            0 <= i <= ps.len(),
            r.deep_view() == ps.deep_view().take(i as int).map_values(
                |p: Seq<char>| without_default_of(p),
            ),
        decreases ps.len() - i,
    {
        let ghost prev = r.deep_view();
        r.push(without_default(ps[i].as_str()));
        proof {
            assert(r.deep_view() =~= prev.push(without_default_of(ps[i as int]@)));
            assert(ps.deep_view().take(i + 1).map_values(|p: Seq<char>| without_default_of(p))
                =~= prev.push(without_default_of(ps[i as int]@)));
        }
        i = i + 1;
    }
    proof {
        assert(ps.deep_view().take(ps.len() as int) =~= ps.deep_view());
    }
    r
}

} // verus!
