//! Character-level helpers used to build the strings the service sends:
//! decimal numerals, path separators normalised to `/`, and suffixes.
use vstd::prelude::*;

verus! {

/// The ASCII digit for a value below ten.
pub open spec fn digit_char(d: nat) -> char {
    ((48 + d) as u8) as char
}

/// The decimal numeral of `n`, without sign or leading zeros.
pub open spec fn decimal(n: nat) -> Seq<char>
    decreases n,
{
    if n < 10 {
        seq![digit_char(n)]
    } else {
        decimal(n / 10).push(digit_char(n % 10))
    }
}

/// `s` with every backslash replaced by a forward slash.
pub open spec fn forward_slashes(s: Seq<char>) -> Seq<char> {
    s.map_values(|c: char| if c == '\\' { '/' } else { c })
}

/// Appends one character (`String::push`).
#[verifier::external_body]
pub(crate) fn push_char(s: &mut String, c: char)
    ensures
        final(s)@ == old(s)@.push(c),
{
    s.push(c)
}

fn digit(d: u64) -> (c: char)
    requires
        d < 10,
    ensures
        c == digit_char(d as nat),
{
    let b: u8 = 48u8 + (d as u8);
    b as char
}

/// Appends the decimal numeral of `n` to `s`.
pub fn append_decimal(s: &mut String, n: u64)
    ensures
        final(s)@ == old(s)@ + decimal(n as nat),
    decreases n,
{
    if n >= 10 {
        append_decimal(s, n / 10);
    }
    let c = digit(n % 10);
    push_char(s, c);
}

/// The decimal numeral of `n` as a new string.
pub fn decimal_string(n: u64) -> (r: String)
    ensures
        r@ == decimal(n as nat),
{
    let mut s = String::new();
    append_decimal(&mut s, n);
    assert(s@ =~= decimal(n as nat));
    s
}

/// A copy of `s` in which every `\` became `/`.
pub fn replace_backslashes(s: &str) -> (r: String)
    ensures
        r@ == forward_slashes(s@),
{
    let mut out = String::new();
    let n = s.unicode_len();
    for i in 0..n
        invariant
            n == s@.len(),
            out@ == forward_slashes(s@.take(i as int)),
    {
        let c = s.get_char(i);
        let d = if c == '\\' { '/' } else { c };
        push_char(&mut out, d);
        assert(forward_slashes(s@.take(i + 1)) =~= forward_slashes(s@.take(i as int)).push(d));
    }
    assert(s@.take(n as int) =~= s@);
    out
}

/// The characters of `s` from position `from` on.
pub fn suffix_from(s: &str, from: usize) -> (r: String)
    requires
        from <= s@.len(),
    ensures
        r@ == s@.skip(from as int),
{
    let mut out = String::new();
    let n = s.unicode_len();
    for i in from..n
        invariant
            n == s@.len(),
            from <= i <= n,
            out@ == s@.subrange(from as int, i as int),
    {
        let c = s.get_char(i);
        push_char(&mut out, c);
        assert(s@.subrange(from as int, i + 1) =~= s@.subrange(from as int, i as int).push(c));
    }
    assert(s@.subrange(from as int, n as int) =~= s@.skip(from as int));
    out
}

/// Whether two strings hold the same characters.
pub fn same_text(a: &str, b: &str) -> (r: bool)
    ensures
        r == (a@ == b@),
{
    let x = String::from_str(a);
    let y = String::from_str(b);
    x == y
}

/// A new string holding the characters of `a` followed by those of `b`.
pub fn join2(a: &str, b: &str) -> (r: String)
    ensures
        r@ == a@ + b@,
{
    let mut s = String::from_str(a);
    s.append(b);
    s
}

/// The first `to` characters of `s`.
pub fn prefix_to(s: &str, to: usize) -> (r: String)
    requires
        to <= s@.len(),
    ensures
        r@ == s@.take(to as int),
{
    let mut out = String::new();
    for i in 0..to
        invariant
            to <= s@.len(),
            out@ == s@.take(i as int),
    {
        let c = s.get_char(i);
        push_char(&mut out, c);
        assert(s@.take(i + 1) =~= s@.take(i as int).push(c));
    }
    out
}

} // verus!
