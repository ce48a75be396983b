//! Small verified text helpers: decimal rendering of slot indices for the
//! directory listing, decimal parsing of device-path indices, and character
//! string comparison.

use vstd::prelude::*;

verus! {

/// The decimal digit character for a value `0..=9`.
pub open spec fn digit_char(d: int) -> char {
    if d == 0 {
        '0'
    } else if d == 1 {
        '1'
    } else if d == 2 {
        '2'
    } else if d == 3 {
        '3'
    } else if d == 4 {
        '4'
    } else if d == 5 {
        '5'
    } else if d == 6 {
        '6'
    } else if d == 7 {
        '7'
    } else if d == 8 {
        '8'
    } else {
        '9'
    }
}

/// Whether `c` is an ASCII decimal digit.
pub open spec fn spec_is_ascii_digit(c: char) -> bool {
    48 <= c as u32 <= 57
}

/// The numeric value of an ASCII digit character.
pub open spec fn digit_val(c: char) -> int
    recommends
        spec_is_ascii_digit(c),
{
    c as u32 - 48
}

/// The decimal digits of a non-negative number, most significant first, with
/// no leading zeros (a single `'0'` for zero).
pub open spec fn dec_digits(n: int) -> Seq<char>
    recommends
        n >= 0,
    decreases n,
{
    if n < 10 {
        seq![digit_char(n)]
    } else {
        dec_digits(n / 10).push(digit_char(n % 10))
    }
}

/// Whether every character of `s` is an ASCII decimal digit.
pub open spec fn all_digits(s: Seq<char>) -> bool {
    forall|i: int| 0 <= i < s.len() ==> spec_is_ascii_digit(#[trigger] s[i])
}

/// The numeric value of a digit string, most significant first.
pub open spec fn dec_value(s: Seq<char>) -> int
    recommends
        all_digits(s),
    decreases s.len(),
{
    if s.len() == 0 {
        0
    } else {
        dec_value(s.drop_last()) * 10 + digit_val(s.last())
    }
}

/// The position of the first ASCII digit in `s`, or `s.len()` when `s` holds
/// none.
pub open spec fn first_digit_pos(s: Seq<char>) -> int
    decreases s.len(),
{
    if s.len() == 0 {
        0
    } else if spec_is_ascii_digit(s[0]) {
        0
    } else {
        1 + first_digit_pos(s.skip(1))
    }
}

/// `first_digit_pos` is exactly the position with no digit before it and a
/// digit (or the end) at it.
pub proof fn lemma_first_digit_pos_at(s: Seq<char>, d: int)
    requires
        0 <= d <= s.len(),
        forall|i: int| 0 <= i < d ==> !spec_is_ascii_digit(#[trigger] s[i]),
        d < s.len() ==> spec_is_ascii_digit(s[d]),
    ensures
        first_digit_pos(s) == d,
    decreases s.len(),
{
    if d == 0 {
    } else {
        lemma_first_digit_pos_at(s.skip(1), d - 1);
    }
}

/// `first_digit_pos` stays within the string.
pub proof fn lemma_first_digit_pos_bounds(s: Seq<char>)
    ensures
        0 <= first_digit_pos(s) <= s.len(),
        first_digit_pos(s) < s.len() ==> spec_is_ascii_digit(s[first_digit_pos(s)]),
        forall|i: int| 0 <= i < first_digit_pos(s) ==> !spec_is_ascii_digit(#[trigger] s[i]),
    decreases s.len(),
{
    if s.len() == 0 {
    } else if spec_is_ascii_digit(s[0]) {
    } else {
        lemma_first_digit_pos_bounds(s.skip(1));
        assert forall|i: int| 0 <= i < first_digit_pos(s) implies !spec_is_ascii_digit(
            #[trigger] s[i],
        ) by {
            if i >= 1 {
                assert(s[i] == s.skip(1)[i - 1]);
            }
        }
    }
}

/// Whether `c` is an ASCII decimal digit.
pub fn is_ascii_digit(c: char) -> (r: bool)
    ensures
        r == spec_is_ascii_digit(c),
{
    let u = c as u32;
    48 <= u && u <= 57
}

/// A one-character string slice holding the digit character for `d`.
fn digit_str(d: u64) -> (r: &'static str)
    requires
        d < 10,
    ensures
        r@ == seq![digit_char(d as int)],
{
    proof {
        reveal_strlit("0");
        reveal_strlit("1");
        reveal_strlit("2");
        reveal_strlit("3");
        reveal_strlit("4");
        reveal_strlit("5");
        reveal_strlit("6");
        reveal_strlit("7");
        reveal_strlit("8");
        reveal_strlit("9");
    }
    let r = if d == 0 {
        "0"
    } else if d == 1 {
        "1"
    } else if d == 2 {
        "2"
    } else if d == 3 {
        "3"
    } else if d == 4 {
        "4"
    } else if d == 5 {
        "5"
    } else if d == 6 {
        "6"
    } else if d == 7 {
        "7"
    } else if d == 8 {
        "8"
    } else {
        "9"
    };
    proof {
        assert(r@ =~= seq![digit_char(d as int)]);
    }
    r
}

/// Appends the decimal rendering of `n` to `s`, most significant digit first.
pub fn push_decimal(s: &mut String, n: u64)
    ensures
        final(s)@ == old(s)@ + dec_digits(n as int),
    decreases n,
{
    if n >= 10 {
        push_decimal(s, n / 10);
    }
    s.append(digit_str(n % 10));
    proof {
        assert(final(s)@ =~= old(s)@ + dec_digits(n as int));
    }
}

/// Whether two string slices hold the same characters.
pub fn str_eq(a: &str, b: &str) -> (r: bool)
    ensures
        r <==> a@ == b@,
{
    let n = a.unicode_len();
    if n != b.unicode_len() {
        return false;
    }
    let mut i: usize = 0;
    while i < n
        invariant
            n == a@.len(),
            n == b@.len(),
            i <= n,
            forall|k: int| 0 <= k < i ==> a@[k] == b@[k],
        decreases n - i,
    {
        if a.get_char(i) != b.get_char(i) {
            return false;
        }
        i += 1;
    }
    proof {
        assert(a@ =~= b@);
    }
    true
}

} // verus!
