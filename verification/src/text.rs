//! Decimal text conversions for unsigned integers.
//!
//! Snowflake identifiers travel as decimal strings on the wire, and query
//! parameters are built from numbers, so the library needs both directions
//! with exact contracts.

use vstd::prelude::*;
use vstd::string::StrSliceExecFns;
use vstd::string::StringExecFns;

verus! {

/// The character for a single decimal digit.
pub open spec fn digit_char(d: int) -> char {
    if d == 0 {
        '0'
    } else if d == 1 {
        '1'
    } else if d == 2 {
        '2'
    } else if d == 3 {
        '3'
    } else if d == 4 {
        '4'
    } else if d == 5 {
        '5'
    } else if d == 6 {
        '6'
    } else if d == 7 {
        '7'
    } else if d == 8 {
        '8'
    } else {
        '9'
    }
}

/// The value of a decimal digit character, or -1 for any other character.
pub open spec fn digit_of(c: char) -> int {
    if c == '0' {
        0
    } else if c == '1' {
        1
    } else if c == '2' {
        2
    } else if c == '3' {
        3
    } else if c == '4' {
        4
    } else if c == '5' {
        5
    } else if c == '6' {
        6
    } else if c == '7' {
        7
    } else if c == '8' {
        8
    } else if c == '9' {
        9
    } else {
        -1
    }
}

pub open spec fn is_digit(c: char) -> bool {
    digit_of(c) >= 0
}

/// The decimal representation of a nonnegative integer, most significant
/// digit first.
pub open spec fn dec_digits(n: int) -> Seq<char>
    decreases n,
{
    if n < 10 {
        seq![digit_char(n)]
    } else {
        dec_digits(n / 10) + seq![digit_char(n % 10)]
    }
}

/// The number denoted by a sequence of decimal digit characters, or `None`
/// if any character is not a digit. The empty sequence denotes 0.
pub open spec fn digits_val(s: Seq<char>) -> Option<int>
    decreases s.len(),
{
    if s.len() == 0 {
        Some(0)
    } else if digit_of(s.last()) < 0 {
        None
    } else {
        match digits_val(s.drop_last()) {
            Some(v) => Some(v * 10 + digit_of(s.last())),
            None => None,
        }
    }
}

/// What parsing a decimal string as a `u64` yields: the denoted number if
/// the string is nonempty, all digits, and the value fits.
pub open spec fn parsed_u64(s: Seq<char>) -> Option<u64> {
    if s.len() == 0 {
        None
    } else {
        match digits_val(s) {
            Some(v) => if v <= u64::MAX {
                Some(v as u64)
            } else {
                None
            },
            None => None,
        }
    }
}

/// A denoted number is never negative.
proof fn lemma_digits_val_nonneg(s: Seq<char>)
    requires
        digits_val(s) is Some,
    ensures
        digits_val(s)->Some_0 >= 0,
    decreases s.len(),
{
    if s.len() > 0 {
        lemma_digits_val_nonneg(s.drop_last());
    }
}

/// A non-digit character anywhere makes the whole sequence denote nothing.
proof fn lemma_digits_val_nondigit(s: Seq<char>, i: int)
    requires
        0 <= i < s.len(),
        !is_digit(s[i]),
    ensures
        digits_val(s) is None,
    decreases s.len(),
{
    if i < s.len() - 1 {
        lemma_digits_val_nondigit(s.drop_last(), i);
    }
}

/// Every prefix of a sequence that denotes a number denotes a number no
/// larger than the whole.
proof fn lemma_digits_val_prefix(s: Seq<char>, i: int)
    requires
        0 <= i <= s.len(),
        digits_val(s) is Some,
    ensures
        digits_val(s.take(i)) is Some,
        digits_val(s.take(i))->Some_0 <= digits_val(s)->Some_0,
    decreases s.len() - i,
{
    if i == s.len() {
        assert(s.take(i) =~= s);
    } else {
        lemma_digits_val_prefix(s, i + 1);
        let t = s.take(i + 1);
        assert(t.drop_last() =~= s.take(i));
        assert(digits_val(t) is Some);
        lemma_digits_val_nonneg(s.take(i));
    }
}

/// The decimal digits of a number denote the number.
proof fn lemma_dec_digits_val(n: u64)
    ensures
        dec_digits(n as int).len() >= 1,
        digits_val(dec_digits(n as int)) == Some(n as int),
    decreases n,
{
    let s = dec_digits(n as int);
    if n < 10 {
        assert(s =~= seq![digit_char(n as int)]);
        assert(s.len() == 1 && s.last() == digit_char(n as int));
        assert(digit_of(s.last()) == n as int);
        assert(s.drop_last() =~= Seq::<char>::empty());
        assert(digits_val(s.drop_last()) == Some(0int));
        assert(digits_val(s) == Some(0int * 10 + digit_of(s.last())));
    } else {
        lemma_dec_digits_val(n / 10);
        assert(s.drop_last() =~= dec_digits(n as int / 10));
        assert(s.last() == digit_char(n as int % 10));
        assert(digit_of(s.last()) == n as int % 10);
        assert(digits_val(s.drop_last()) == Some(n as int / 10));
        assert(digits_val(s) == Some((n as int / 10) * 10 + n as int % 10));
    }
}

/// Round trip: parsing the decimal text of any number gives the number
/// back, which ties `u64_to_string` and `parse_u64` together.
pub proof fn lemma_decimal_round_trip(n: u64)
    ensures
        parsed_u64(dec_digits(n as int)) == Some(n),
{
    lemma_dec_digits_val(n);
}

/// The single-character string for one decimal digit.
fn digit_str(d: u64) -> (r: &'static str)
    requires
        d < 10,
    ensures
        r@ =~= seq![digit_char(d as int)],
{
    proof {
        reveal_strlit("0");
        reveal_strlit("1");
        reveal_strlit("2");
        reveal_strlit("3");
        reveal_strlit("4");
        reveal_strlit("5");
        reveal_strlit("6");
        reveal_strlit("7");
        reveal_strlit("8");
        reveal_strlit("9");
    }
    if d == 0 {
        "0"
    } else if d == 1 {
        "1"
    } else if d == 2 {
        "2"
    } else if d == 3 {
        "3"
    } else if d == 4 {
        "4"
    } else if d == 5 {
        "5"
    } else if d == 6 {
        "6"
    } else if d == 7 {
        "7"
    } else if d == 8 {
        "8"
    } else {
        "9"
    }
}

/// Renders a number as its decimal digits.
pub fn u64_to_string(n: u64) -> (r: String)
    ensures
        r@ == dec_digits(n as int),
    decreases n,
{
    if n < 10 {
        let mut r = String::new();
        r.append(digit_str(n));
        assert(r@ =~= dec_digits(n as int));
        r
    } else {
        let mut r = u64_to_string(n / 10);
        r.append(digit_str(n % 10));
        assert(r@ =~= dec_digits(n as int));
        r
    }
}

/// The words query parameters spell booleans with.
pub fn bool_to_string(b: bool) -> (r: String)
    ensures
        r@ == (if b {
            "true"@
        } else {
            "false"@
        }),
{
    if b {
        "true".to_owned()
    } else {
        "false".to_owned()
    }
}

/// Whether two string slices hold the same characters.
pub fn str_eq(a: &str, b: &str) -> (r: bool)
    ensures
        r == (a@ == b@),
{
    let s1: String = a.to_owned();
    let s2: String = b.to_owned();
    s1 == s2
}

/// Copies an optional string, field by field.
pub fn clone_opt_string(o: &Option<String>) -> (r: Option<String>)
    ensures
        r == *o,
{
    match o {
        None => None,
        Some(s) => Some(s.clone()),
    }
}

/// The value of a digit character, or `None` for any other character.
fn digit_value(c: char) -> (r: Option<u64>)
    ensures
        match r {
            Some(d) => is_digit(c) && d == digit_of(c),
            None => !is_digit(c),
        },
{
    if c == '0' {
        Some(0)
    } else if c == '1' {
        Some(1)
    } else if c == '2' {
        Some(2)
    } else if c == '3' {
        Some(3)
    } else if c == '4' {
        Some(4)
    } else if c == '5' {
        Some(5)
    } else if c == '6' {
        Some(6)
    } else if c == '7' {
        Some(7)
    } else if c == '8' {
        Some(8)
    } else if c == '9' {
        Some(9)
    } else {
        None
    }
}

/// Parses a nonempty all-digit decimal string into a `u64`, refusing
/// anything else and any value that does not fit.
pub fn parse_u64(s: &str) -> (r: Option<u64>)
    ensures
        r == parsed_u64(s@),
{
    let len = s.unicode_len();
    if len == 0 {
        return None;
    }
    let mut acc: u64 = 0;
    let mut i: usize = 0;
    while i < len
        invariant
            0 < len == s@.len(),
            0 <= i <= len,
            digits_val(s@.take(i as int)) == Some(acc as int),
        decreases len - i,
    {
        let c = s.get_char(i);
        match digit_value(c) {
            None => {
                proof {
                    lemma_digits_val_nondigit(s@, i as int);
                }
                return None;
            },
            Some(d) => {
                proof {
                    assert(s@.take(i + 1).drop_last() =~= s@.take(i as int));
                    assert(digits_val(s@.take(i + 1)) == Some(acc * 10 + d));
                }
                let max_tenth: u64 = 1844674407370955161;
                if acc > max_tenth || (acc == max_tenth && d > 5) {
                    proof {
                        if digits_val(s@) is Some && digits_val(s@)->Some_0 <= u64::MAX {
                            lemma_digits_val_prefix(s@, i + 1);
                        }
                    }
                    return None;
                }
                acc = acc * 10 + d;
            },
        }
        i = i + 1;
    }
    proof {
        assert(s@.take(len as int) =~= s@);
    }
    Some(acc)
}

} // verus!

