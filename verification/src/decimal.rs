//! Unsigned numbers as decimal text, the form in which attributes hold them.

use vstd::prelude::*;
use vstd::string::*;

verus! {

/// The character that writes the digit `d`.
pub open spec fn digit_char(d: nat) -> char {
    (48 + d) as char
}

/// Whether `c` is one of `0` to `9`.
pub open spec fn is_digit(c: char) -> bool {
    48 <= c as int <= 57
}

/// The digit that `c` writes.
pub open spec fn digit_value(c: char) -> nat {
    (c as int - 48) as nat
}

/// The decimal text of `n`: its digits from the most significant one, with no
/// sign and no leading zero; `0` for zero.
pub open spec fn decimal_text(n: nat) -> Seq<char>
    decreases n,
{
    if n < 10 {
        seq![digit_char(n)]
    } else {
        decimal_text(n / 10).push(digit_char(n % 10))
    }
}

/// The number that a run of digits writes, the first digit being the most
/// significant; zero for the empty run.
pub open spec fn decimal_value(s: Seq<char>) -> nat
    decreases s.len(),
{
    if s.len() == 0 {
        0
    } else {
        decimal_value(s.drop_last()) * 10 + digit_value(s.last())
    }
}

/// Whether `s` is made of digits only.
pub open spec fn all_digits(s: Seq<char>) -> bool {
    forall|i: int| 0 <= i < s.len() ==> is_digit(#[trigger] s[i])
}

/// Where the digits of `s` begin: behind a leading `+`, if there is one.
pub open spec fn digits_start(s: Seq<char>) -> int {
    if s.len() > 0 && s[0] == '+' {
        1
    } else {
        0
    }
}

/// The number that `s` writes: an optional `+`, then one digit or more and
/// nothing else. Text of any other shape writes no number.
pub open spec fn decimal_number(s: Seq<char>) -> Option<nat> {
    let digits = s.subrange(digits_start(s), s.len() as int);
    if digits.len() > 0 && all_digits(digits) {
        Some(decimal_value(digits))
    } else {
        None
    }
}

/// The `u64` that `s` writes, if it writes a number and that number fits.
pub open spec fn decimal_u64(s: Seq<char>) -> Option<u64> {
    match decimal_number(s) {
        Some(n) => if n <= u64::MAX {
            Some(n as u64)
        } else {
            None
        },
        None => None,
    }
}

/// A run of digits writes no less than any of its prefixes does.
pub proof fn lemma_decimal_value_prefix(s: Seq<char>, k: int)
    requires
        0 <= k <= s.len(),
    ensures
        decimal_value(s.subrange(0, k)) <= decimal_value(s),
    decreases s.len(),
{
    if k == s.len() {
        assert(s.subrange(0, k) =~= s);
    } else {
        lemma_decimal_value_prefix(s.drop_last(), k);
        assert(s.drop_last().subrange(0, k) =~= s.subrange(0, k));
    }
}

/// The decimal text of a number is made of digits, begins with one, and
/// writes that number.
pub proof fn lemma_decimal_text(n: nat)
    ensures
        decimal_text(n).len() > 0,
        all_digits(decimal_text(n)),
        decimal_value(decimal_text(n)) == n,
    decreases n,
{
    let t = decimal_text(n);
    if n < 10 {
        assert(t.drop_last() =~= Seq::<char>::empty());
        assert(decimal_value(t.drop_last()) == 0);
    } else {
        lemma_decimal_text(n / 10);
        assert(t.drop_last() =~= decimal_text(n / 10));
    }
}

/// Reading the decimal text of a number gives the number back.
pub proof fn lemma_decimal_round_trip(n: nat)
    ensures
        decimal_number(decimal_text(n)) == Some(n),
        n <= u64::MAX ==> decimal_u64(decimal_text(n)) == Some(n as u64),
{
    let t = decimal_text(n);
    lemma_decimal_text(n);
    assert(is_digit(t[0]));
    assert(t.subrange(0, t.len() as int) =~= t);
}

/// The text of one digit.
fn digit_str(d: u64) -> (s: &'static str)
    requires
        d < 10,
    ensures
        s@ == seq![digit_char(d as nat)],
{
    proof {
        reveal_strlit("0");
        reveal_strlit("1");
        reveal_strlit("2");
        reveal_strlit("3");
        reveal_strlit("4");
        reveal_strlit("5");
        reveal_strlit("6");
        reveal_strlit("7");
        reveal_strlit("8");
        reveal_strlit("9");
    }
    let s = match d {
        0 => "0",
        1 => "1",
        2 => "2",
        3 => "3",
        4 => "4",
        5 => "5",
        6 => "6",
        7 => "7",
        8 => "8",
        _ => "9",
    };
    assert(s@ =~= seq![digit_char(d as nat)]);
    s
}

/// Appends the decimal text of `n` to `out`.
pub fn append_decimal(out: &mut String, n: u64)
    ensures
        final(out)@ == old(out)@ + decimal_text(n as nat),
    decreases n,
{
    if n >= 10 {
        append_decimal(out, n / 10);
    }
    out.append(digit_str(n % 10));
    assert(out@ =~= old(out)@ + decimal_text(n as nat));
}

/// The decimal text of `n`.
pub fn to_decimal(n: u64) -> (s: String)
    ensures
        s@ == decimal_text(n as nat),
        decimal_u64(s@) == Some(n),
{
    let mut s = String::new();
    append_decimal(&mut s, n);
    proof {
        assert(s@ =~= decimal_text(n as nat));
        lemma_decimal_round_trip(n as nat);
    }
    s
}

/// Reads an unsigned number from its decimal text: `None` where the text
/// writes no number, or one that does not fit.
pub fn parse_decimal(s: &str) -> (r: Option<u64>)
    ensures
        r == decimal_u64(s@),
{
    let ghost start = digits_start(s@);
    let ghost digits = s@.subrange(start, s@.len() as int);
    let mut value: u64 = 0;
    let mut at_start: bool = true;
    let mut seen_digit: bool = false;
    for c in it: s.chars()
        invariant
            it.seq() == s@,
            start == digits_start(s@),
            digits == s@.subrange(start, s@.len() as int),
            at_start <==> it.index() == 0,
            !at_start ==> start <= it.index(),
            seen_digit <==> it.index() > start,
            at_start ==> value == 0,
            !at_start ==> value == decimal_value(s@.subrange(start, it.index())),
            !at_start ==> all_digits(s@.subrange(start, it.index())),
    {
        let ghost i = it.index();
        if at_start && c == '+' {
            at_start = false;
            assert(s@.subrange(start, i + 1) =~= Seq::<char>::empty());
        } else {
            at_start = false;
            let ghost read = s@.subrange(start, i);
            let ghost next = s@.subrange(start, i + 1);
            assert(read =~= next.drop_last());
            assert(next.last() == c);
            assert(digits[i - start] == c);
            if !(c >= '0' && c <= '9') {
                assert(!is_digit(digits[i - start]));
                return None;
            }
            let d: u64 = (c as u64) - 48;
            assert(decimal_value(next) == value * 10 + d);
            proof {
                if all_digits(digits) {
                    lemma_decimal_value_prefix(digits, i + 1 - start);
                    assert(digits.subrange(0, i + 1 - start) =~= next);
                }
            }
            let scaled = match value.checked_mul(10) {
                Some(v) => v,
                None => {
                    return None;
                },
            };
            value = match scaled.checked_add(d) {
                Some(v) => v,
                None => {
                    return None;
                },
            };
            seen_digit = true;
            assert(all_digits(next));
        }
    }
    assert(s@.subrange(start, s@.len() as int) =~= digits);
    if seen_digit {
        Some(value)
    } else {
        None
    }
}

} // verus!
