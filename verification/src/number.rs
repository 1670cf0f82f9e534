//! Reading a decimal `i32` from text, with the same outcomes and messages as
//! the standard library's `str::parse::<i32>`.
use vstd::prelude::*;
use crate::text::{decimal, digit_char};

verus! {

/// Why a text is not an `i32`.
#[derive(Clone, Copy, Debug, PartialEq, Eq, Structural)]
pub enum IntErrorKind {
    Empty,
    InvalidDigit,
    PosOverflow,
    NegOverflow,
}

pub open spec fn is_digit(c: char) -> bool {
    '0' <= c && c <= '9'
}

pub open spec fn digit_value(c: char) -> int {
    c as int - '0' as int
}

/// Reads `digits` left to right onto `acc`, subtracting when `negative`;
/// the first character that is not a digit, or the first step that leaves
/// the `i32` range, decides the error.
pub open spec fn scan_digits(digits: Seq<char>, negative: bool, acc: int) -> Result<int, IntErrorKind>
    decreases digits.len(),
{
    if digits.len() == 0 {
        Ok(acc)
    } else if !is_digit(digits[0]) {
        Err(IntErrorKind::InvalidDigit)
    } else {
        let next = if negative {
            acc * 10 - digit_value(digits[0])
        } else {
            acc * 10 + digit_value(digits[0])
        };
        if next > i32::MAX {
            Err(IntErrorKind::PosOverflow)
        } else if next < i32::MIN {
            Err(IntErrorKind::NegOverflow)
        } else {
            scan_digits(digits.drop_first(), negative, next)
        }
    }
}

/// The value of a text read as an `i32`: an optional `+` or `-` sign, then
/// one or more decimal digits.
pub open spec fn parsed_i32(s: Seq<char>) -> Result<int, IntErrorKind> {
    if s.len() == 0 {
        Err(IntErrorKind::Empty)
    } else if (s[0] == '+' || s[0] == '-') && s.len() == 1 {
        Err(IntErrorKind::InvalidDigit)
    } else if s[0] == '+' {
        scan_digits(s.drop_first(), false, 0)
    } else if s[0] == '-' {
        scan_digits(s.drop_first(), true, 0)
    } else {
        scan_digits(s, false, 0)
    }
}

/// How each error reads.
pub open spec fn int_error_message(k: IntErrorKind) -> Seq<char> {
    match k {
        IntErrorKind::Empty => "cannot parse integer from empty string"@,
        IntErrorKind::InvalidDigit => "invalid digit found in string"@,
        IntErrorKind::PosOverflow => "number too large to fit in target type"@,
        IntErrorKind::NegOverflow => "number too small to fit in target type"@,
    }
}

fn error_message(k: IntErrorKind) -> (r: String)
    ensures
        r@ == int_error_message(k),
{
    match k {
        IntErrorKind::Empty => String::from_str("cannot parse integer from empty string"),
        IntErrorKind::InvalidDigit => String::from_str("invalid digit found in string"),
        IntErrorKind::PosOverflow => String::from_str("number too large to fit in target type"),
        IntErrorKind::NegOverflow => String::from_str("number too small to fit in target type"),
    }
}

proof fn lemma_scan_in_range(digits: Seq<char>, negative: bool, acc: int)
    requires
        i32::MIN <= acc <= i32::MAX,
    ensures
        scan_digits(digits, negative, acc) matches Ok(v) ==> i32::MIN <= v <= i32::MAX,
    decreases digits.len(),
{
    if digits.len() > 0 && is_digit(digits[0]) {
        let next = if negative {
            acc * 10 - digit_value(digits[0])
        } else {
            acc * 10 + digit_value(digits[0])
        };
        if i32::MIN <= next <= i32::MAX {
            lemma_scan_in_range(digits.drop_first(), negative, next);
        }
    }
}

/// A value read from text lies within `i32`.
pub proof fn lemma_parsed_in_range(s: Seq<char>)
    ensures
        parsed_i32(s) matches Ok(v) ==> i32::MIN <= v <= i32::MAX,
{
    if s.len() > 0 {
        lemma_scan_in_range(s.drop_first(), false, 0);
        lemma_scan_in_range(s.drop_first(), true, 0);
        lemma_scan_in_range(s, false, 0);
    }
}

/// Reads `digits[from..]` onto `acc`.
fn scan(s: &str, from: usize, negative: bool) -> (r: Result<i32, IntErrorKind>)
    requires
        from <= s@.len(),
    ensures
        match scan_digits(s@.skip(from as int), negative, 0) {
            Ok(v) => r == Ok::<i32, IntErrorKind>(v as i32),
            Err(k) => r == Err::<i32, IntErrorKind>(k),
        },
{
    let n = s.unicode_len();
    let mut acc: i64 = 0;
    let mut i = from;
    while i < n
        invariant
            n == s@.len(),
            from <= i <= n,
            i32::MIN <= acc <= i32::MAX,
            scan_digits(s@.skip(from as int), negative, 0) == scan_digits(s@.skip(i as int), negative, acc as int),
        decreases n - i,
    {
        let c = s.get_char(i);
        let ghost rest = s@.skip(i as int);
        assert(rest[0] == c);
        assert(rest.drop_first() =~= s@.skip(i + 1));
        if !('0' <= c && c <= '9') {
            return Err(IntErrorKind::InvalidDigit);
        }
        let d = (c as u32 - '0' as u32) as i64;
        assert(d == digit_value(c));
        let next: i64 = if negative { acc * 10 - d } else { acc * 10 + d };
        if next > i32::MAX as i64 {
            return Err(IntErrorKind::PosOverflow);
        }
        if next < i32::MIN as i64 {
            return Err(IntErrorKind::NegOverflow);
        }
        acc = next;
        i = i + 1;
    }
    assert(s@.skip(i as int).len() == 0);
    Ok(acc as i32)
}

/// `s` read as an `i32`, or the message of the reason it is not one.
pub fn parse_i32(s: &str) -> (r: Result<i32, String>)
    ensures
        match parsed_i32(s@) {
            Ok(v) => r == Ok::<i32, String>(v as i32),
            Err(k) => r matches Err(m) && m@ == int_error_message(k),
        },
{
    let n = s.unicode_len();
    let outcome = if n == 0 {
        Err(IntErrorKind::Empty)
    } else {
        let c = s.get_char(0);
        if (c == '+' || c == '-') && n == 1 {
            Err(IntErrorKind::InvalidDigit)
        } else if c == '+' {
            assert(s@.skip(1) =~= s@.drop_first());
            scan(s, 1, false)
        } else if c == '-' {
            assert(s@.skip(1) =~= s@.drop_first());
            scan(s, 1, true)
        } else {
            assert(s@.skip(0) =~= s@);
            scan(s, 0, false)
        }
    };
    match outcome {
        Ok(v) => Ok(v),
        Err(k) => Err(error_message(k)),
    }
}

/// The decimal numeral of an integer: a `-` before the digits of a negative
/// one.
pub open spec fn numeral(n: int) -> Seq<char> {
    if n < 0 {
        seq!['-'] + decimal((-n) as nat)
    } else {
        decimal(n as nat)
    }
}

/// One more digit read onto `acc`.
pub open spec fn scan_one(acc: int, c: char, negative: bool) -> Result<int, IntErrorKind> {
    scan_digits(seq![c], negative, acc)
}

proof fn lemma_scan_push(s: Seq<char>, c: char, negative: bool, acc: int)
    ensures
        scan_digits(s.push(c), negative, acc) == match scan_digits(s, negative, acc) {
            Ok(v) => scan_one(v, c, negative),
            Err(k) => Err(k),
        },
    decreases s.len(),
{
    let t = s.push(c);
    if s.len() == 0 {
        assert(t =~= seq![c]);
    } else {
        assert(t[0] == s[0]);
        assert(t.drop_first() =~= s.drop_first().push(c));
        if is_digit(s[0]) {
            let next = if negative {
                acc * 10 - digit_value(s[0])
            } else {
                acc * 10 + digit_value(s[0])
            };
            lemma_scan_push(s.drop_first(), c, negative, next);
        }
    }
}

proof fn lemma_digit_char(d: nat)
    requires
        d < 10,
    ensures
        is_digit(digit_char(d)),
        digit_value(digit_char(d)) == d,
{
    assert(digit_char(d) as int == 48 + d);
}

proof fn lemma_decimal_digits(m: nat)
    ensures
        forall|i: int| 0 <= i < decimal(m).len() ==> is_digit(#[trigger] decimal(m)[i]),
        decimal(m).len() > 0,
    decreases m,
{
    if m < 10 {
        lemma_digit_char(m);
    } else {
        lemma_decimal_digits(m / 10);
        lemma_digit_char(m % 10);
        let s = decimal(m / 10);
        assert forall|i: int| 0 <= i < decimal(m).len() implies is_digit(#[trigger] decimal(m)[i]) by {
            if i < s.len() {
                assert(decimal(m)[i] == s[i]);
            }
        }
    }
}

proof fn lemma_scan_decimal(m: nat, negative: bool)
    requires
        negative ==> m <= 0x8000_0000,
        !negative ==> m <= 0x7fff_ffff,
    ensures
        scan_digits(decimal(m), negative, 0) == Ok::<int, IntErrorKind>(if negative { -m } else { m as int }),
    decreases m,
{
    reveal_with_fuel(scan_digits, 2);
    if m < 10 {
        lemma_digit_char(m);
        let c = digit_char(m);
        assert(decimal(m) =~= seq![c]);
        assert(seq![c].drop_first() =~= Seq::<char>::empty());
    } else {
        let q = m / 10;
        let r = m % 10;
        assert(q * 10 + r == m && r < 10 && q < m) by (nonlinear_arith)
            requires
                q == m / 10,
                r == m % 10,
                m >= 10,
        ;
        lemma_scan_decimal(q, negative);
        lemma_digit_char(r);
        let c = digit_char(r);
        lemma_scan_push(decimal(q), c, negative, 0);
        assert(decimal(m) == decimal(q).push(c));
        assert(seq![c].drop_first() =~= Seq::<char>::empty());
        let v: int = if negative { -q } else { q as int };
        assert(seq![c][0] == c);
        assert(scan_one(v, c, negative) == Ok::<int, IntErrorKind>(if negative { -m } else { m as int }));
    }
}

/// Reading back the decimal numeral of any `i32` gives that number, as
/// `str::parse::<i32>` does: each digit counts for its own value.
pub proof fn lemma_parse_numeral(n: int)
    requires
        i32::MIN <= n <= i32::MAX,
    ensures
        parsed_i32(numeral(n)) == Ok::<int, IntErrorKind>(n),
{
    if n < 0 {
        let d = decimal((-n) as nat);
        lemma_decimal_digits((-n) as nat);
        lemma_scan_decimal((-n) as nat, true);
        let s = numeral(n);
        assert(s[0] == '-');
        assert(s.drop_first() =~= d);
    } else {
        lemma_decimal_digits(n as nat);
        lemma_scan_decimal(n as nat, false);
        let s = numeral(n);
        assert(is_digit(s[0]));
    }
}

} // verus!
