//! Character-level helpers shared by the parsers and renderers.

use vstd::prelude::*;
use vstd::string::*;

verus! {

/// The characters that count as blank when text is trimmed.
pub open spec fn is_space(c: char) -> bool {
    c == ' ' || c == '\t' || c == '\n' || c == '\r'
}

/// How many blank characters `s` starts with.
pub open spec fn leading_spaces(s: Seq<char>) -> nat
    decreases s.len(),
{
    if s.len() > 0 && is_space(s[0]) {
        1 + leading_spaces(s.skip(1))
    } else {
        0
    }
}

/// How many blank characters `s` ends with.
pub open spec fn trailing_spaces(s: Seq<char>) -> nat
    decreases s.len(),
{
    if s.len() > 0 && is_space(s.last()) {
        1 + trailing_spaces(s.drop_last())
    } else {
        0
    }
}

/// `s` without its leading and trailing blanks.
pub open spec fn trim(s: Seq<char>) -> Seq<char> {
    let t = s.skip(leading_spaces(s) as int);
    t.take(t.len() - trailing_spaces(t))
}

/// Whether `s` begins with `p`.
pub open spec fn has_prefix(s: Seq<char>, p: Seq<char>) -> bool {
    p.len() <= s.len() && s.take(p.len() as int) == p
}

pub fn is_space_char(c: char) -> (r: bool)
    ensures
        r == is_space(c),
{
    c == ' ' || c == '\t' || c == '\n' || c == '\r'
}

/// Appends one character to a string, by `String::push`: the text afterwards
/// is the text before followed by `c`.
#[verifier::external_body]
pub(crate) fn push_char(s: &mut String, c: char)
    ensures
        final(s)@ == old(s)@.push(c),
{
    s.push(c)
}

/// The characters of `s`, in order.
pub fn to_chars(s: &str) -> (v: Vec<char>)
    ensures
        v@ == s@,
{
    let n: usize = s.unicode_len();
    let mut v: Vec<char> = Vec::new();
    let mut i: usize = 0;
    while i < n
        invariant
            n == s@.len(),
            i <= n,
            v@ == s@.take(i as int),
        decreases n - i,
    {
        let c = s.get_char(i);
        v.push(c);
        i = i + 1;
        assert(v@ =~= s@.take(i as int));
    }
    assert(s@.take(n as int) =~= s@);
    v
}

/// The text made of the characters of `v` from `from` up to `to`.
pub fn text_of(v: &Vec<char>, from: usize, to: usize) -> (s: String)
    requires
        from <= to <= v@.len(),
    ensures
        s@ == v@.subrange(from as int, to as int),
{
    let mut s = String::new();
    let mut i: usize = from;
    while i < to
        invariant
            from <= i <= to <= v@.len(),
            s@ == v@.subrange(from as int, i as int),
        decreases to - i,
    {
        push_char(&mut s, v[i]);
        i = i + 1;
        assert(s@ =~= v@.subrange(from as int, i as int));
    }
    s
}

/// The bounds of the trimmed part of `v[from..to]`.
pub fn trim_bounds(v: &Vec<char>, from: usize, to: usize) -> (r: (usize, usize))
    requires
        from <= to <= v@.len(),
    ensures
        from <= r.0 <= r.1 <= to,
        r.0 - from == leading_spaces(v@.subrange(from as int, to as int)),
        v@.subrange(r.0 as int, r.1 as int) == trim(v@.subrange(from as int, to as int)),
{
    let ghost whole = v@.subrange(from as int, to as int);
    let mut a: usize = from;
    assert(whole.skip(0) =~= whole);
    while a < to && is_space_char(v[a])
        invariant
            from <= a <= to <= v@.len(),
            whole == v@.subrange(from as int, to as int),
            leading_spaces(whole) == (a - from) + leading_spaces(whole.skip(a - from)),
        decreases to - a,
    {
        assert(whole.skip(a - from).skip(1) =~= whole.skip(a + 1 - from));
        a = a + 1;
    }
    let ghost rest = whole.skip(a - from);
    assert(rest =~= v@.subrange(a as int, to as int));
    assert(leading_spaces(rest) == 0);
    let mut b: usize = to;
    assert(rest.take(b - a) =~= rest);
    while b > a && is_space_char(v[b - 1])
        invariant
            a <= b <= to <= v@.len(),
            rest == v@.subrange(a as int, to as int),
            trailing_spaces(rest) == (to - b) + trailing_spaces(rest.take(b - a)),
        decreases b - a,
    {
        assert(rest.take(b - a).drop_last() =~= rest.take(b - 1 - a));
        b = b - 1;
    }
    assert(trailing_spaces(rest.take(b - a)) == 0);
    assert(v@.subrange(a as int, b as int) =~= rest.take(rest.len() - trailing_spaces(rest)));
    (a, b)
}

/// Whether the characters of `v` from `from` up to `to` spell `lit`.
pub fn range_equals(v: &Vec<char>, from: usize, to: usize, lit: &str) -> (r: bool)
    requires
        from <= to <= v@.len(),
    ensures
        r == (v@.subrange(from as int, to as int) == lit@),
{
    let n: usize = lit.unicode_len();
    if to - from != n {
        return false;
    }
    let mut i: usize = 0;
    while i < n
        invariant
            n == lit@.len(),
            from + n == to,
            to <= v@.len(),
            i <= n,
            v@.subrange(from as int, from + i) == lit@.take(i as int),
        decreases n - i,
    {
        if v[from + i] != lit.get_char(i) {
            assert(v@.subrange(from as int, to as int)[i as int] != lit@[i as int]);
            return false;
        }
        i = i + 1;
        assert(v@.subrange(from as int, from + i) =~= lit@.take(i as int)) by {
            assert(v@.subrange(from as int, from + i) =~= v@.subrange(from as int, from + i - 1).push(v@[from + i - 1]));
            assert(lit@.take(i as int) =~= lit@.take(i - 1).push(lit@[i - 1]));
        }
    }
    assert(lit@.take(n as int) =~= lit@);
    true
}

/// Whether `v[from..to]` begins with `lit`.
pub fn range_starts_with(v: &Vec<char>, from: usize, to: usize, lit: &str) -> (r: bool)
    requires
        from <= to <= v@.len(),
    ensures
        r == has_prefix(v@.subrange(from as int, to as int), lit@),
{
    let n: usize = lit.unicode_len();
    if to - from < n {
        return false;
    }
    let r = range_equals(v, from, from + n, lit);
    assert(v@.subrange(from as int, to as int).take(n as int) =~= v@.subrange(from as int, from + n));
    r
}

/// The characters of `s` without its leading and trailing blanks.
pub fn trimmed_chars(s: &str) -> (t: Vec<char>)
    ensures
        t@ == trim(s@),
{
    let v = to_chars(s);
    let n: usize = v.len();
    assert(v@.subrange(0, n as int) =~= s@);
    let (a, b) = trim_bounds(&v, 0, n);
    let mut t: Vec<char> = Vec::new();
    let mut i: usize = a;
    while i < b
        invariant
            a <= i <= b <= v@.len(),
            t@ == v@.subrange(a as int, i as int),
        decreases b - i,
    {
        t.push(v[i]);
        i = i + 1;
        assert(t@ =~= v@.subrange(a as int, i as int));
    }
    t
}

/// The text of the characters of `v[from..to]` without leading and trailing
/// blanks.
pub fn trimmed_text(v: &Vec<char>, from: usize, to: usize) -> (s: String)
    requires
        from <= to <= v@.len(),
    ensures
        s@ == trim(v@.subrange(from as int, to as int)),
{
    let (a, b) = trim_bounds(v, from, to);
    text_of(v, a, b)
}

} // verus!
