//! The VM's decimal number ⇄ text coercion routines.
//!
//! The VM coerces numbers to their decimal text form and numeric-looking
//! text back to numbers. Both directions are implemented here and proved
//! against a mathematical grammar of numeric text: an optional leading
//! `'-'` followed by one or more decimal digits.

use vstd::prelude::*;

verus! {

/// The decimal digit character for `d` (meaningful for `0 <= d < 10`).
pub open spec fn digit_char(d: int) -> char {
    if d == 0 {
        '0'
    } else if d == 1 {
        '1'
    } else if d == 2 {
        '2'
    } else if d == 3 {
        '3'
    } else if d == 4 {
        '4'
    } else if d == 5 {
        '5'
    } else if d == 6 {
        '6'
    } else if d == 7 {
        '7'
    } else if d == 8 {
        '8'
    } else {
        '9'
    }
}

/// The numeric value of a decimal digit character, `-1` when `c` is no digit.
pub open spec fn digit_val(c: char) -> int {
    if c == '0' {
        0
    } else if c == '1' {
        1
    } else if c == '2' {
        2
    } else if c == '3' {
        3
    } else if c == '4' {
        4
    } else if c == '5' {
        5
    } else if c == '6' {
        6
    } else if c == '7' {
        7
    } else if c == '8' {
        8
    } else if c == '9' {
        9
    } else {
        -1
    }
}

/// `c` is a decimal digit character.
pub open spec fn is_digit(c: char) -> bool {
    digit_val(c) >= 0
}

/// The decimal representation of `n`: most significant digit first, no sign,
/// and no leading zero except for `n == 0` itself.
pub open spec fn dec_rep(n: nat) -> Seq<char>
    decreases n,
{
    if n < 10 {
        seq![digit_char(n as int)]
    } else {
        dec_rep(n / 10).push(digit_char((n % 10) as int))
    }
}

/// The decimal text of the integer `v`: a leading `'-'` for negative values.
pub open spec fn int_text(v: int) -> Seq<char> {
    if v < 0 {
        seq!['-'] + dec_rep((-v) as nat)
    } else {
        dec_rep(v as nat)
    }
}

/// Every character of `s` is a decimal digit.
pub open spec fn all_digits(s: Seq<char>) -> bool {
    forall|i: int| 0 <= i < s.len() ==> is_digit(s[i])
}

/// The value of a sequence of decimal digits, most significant digit first.
pub open spec fn digits_val(s: Seq<char>) -> int
    decreases s.len(),
{
    if s.len() == 0 {
        0
    } else {
        digits_val(s.drop_last()) * 10 + digit_val(s.last())
    }
}

/// The VM's numeric-text grammar: an optional leading `'-'`, then one or
/// more decimal digits. Yields the mathematical value of such text,
/// `None` for any other text.
pub open spec fn numeric_text_val(s: Seq<char>) -> Option<int> {
    if s.len() > 0 && all_digits(s) {
        Some(digits_val(s))
    } else if s.len() >= 2 && s[0] == '-' && all_digits(s.skip(1)) {
        Some(-digits_val(s.skip(1)))
    } else {
        None
    }
}

/// The VM's text→integer coercion: the value of numeric text when it fits
/// the VM's native integer width, `None` otherwise.
pub open spec fn text_to_int(s: Seq<char>) -> Option<i64> {
    match numeric_text_val(s) {
        Some(m) => if i64::MIN <= m <= i64::MAX {
            Some(m as i64)
        } else {
            None
        },
        None => None,
    }
}

/// The one-character text of the digit `d`.
fn digit_str(d: u64) -> (r: &'static str)
    requires
        d < 10,
    ensures
        r@.len() == 1,
        r@[0] == digit_char(d as int),
{
    proof {
        reveal_strlit("0");
        reveal_strlit("1");
        reveal_strlit("2");
        reveal_strlit("3");
        reveal_strlit("4");
        reveal_strlit("5");
        reveal_strlit("6");
        reveal_strlit("7");
        reveal_strlit("8");
        reveal_strlit("9");
    }
    if d == 0 {
        "0"
    } else if d == 1 {
        "1"
    } else if d == 2 {
        "2"
    } else if d == 3 {
        "3"
    } else if d == 4 {
        "4"
    } else if d == 5 {
        "5"
    } else if d == 6 {
        "6"
    } else if d == 7 {
        "7"
    } else if d == 8 {
        "8"
    } else {
        "9"
    }
}

/// Appends the decimal representation of `n` to `out`.
fn append_dec(out: &mut String, n: u64)
    ensures
        final(out)@ == old(out)@ + dec_rep(n as nat),
    decreases n,
{
    if n >= 10 {
        append_dec(out, n / 10);
        let d: &str = digit_str(n % 10);
        out.append(d);
        proof {
            assert(out@ =~= old(out)@ + dec_rep(n as nat));
        }
    } else {
        let d: &str = digit_str(n);
        out.append(d);
        proof {
            assert(out@ =~= old(out)@ + dec_rep(n as nat));
        }
    }
}

/// The VM's number→text coercion: the decimal text of `v`.
pub fn int_to_text(v: i64) -> (r: String)
    ensures
        r@ == int_text(v as int),
{
    let mut out: String = String::new();
    if v < 0 {
        out.append("-");
        let m: u64 = (-(v as i128)) as u64;
        append_dec(&mut out, m);
        proof {
            reveal_strlit("-");
            assert(out@ =~= int_text(v as int));
        }
    } else {
        append_dec(&mut out, v as u64);
        proof {
            assert(out@ =~= int_text(v as int));
        }
    }
    out
}

/// The digit value of `c`, or `10` when `c` is no decimal digit.
fn digit_of(c: char) -> (r: u64)
    ensures
        r <= 10,
        is_digit(c) <==> r < 10,
        r < 10 ==> r == digit_val(c),
{
    match c {
        '0' => 0u64,
        '1' => 1u64,
        '2' => 2u64,
        '3' => 3u64,
        '4' => 4u64,
        '5' => 5u64,
        '6' => 6u64,
        '7' => 7u64,
        '8' => 8u64,
        '9' => 9u64,
        _ => 10u64,
    }
}

/// The VM's text→integer coercion on native text.
pub fn text_int_value(s: &str) -> (r: Option<i64>)
    ensures
        r == text_to_int(s@),
{
    let n: usize = s.unicode_len();
    if n == 0 {
        return None;
    }
    let c0: char = s.get_char(0);
    let neg: bool = c0 == '-';
    let start: usize = if neg {
        1
    } else {
        0
    };
    if n == start {
        return None;
    }
    let mut mag: u64 = 0;
    let mut over: bool = false;
    let mut i: usize = start;
    while i < n
        invariant
            start <= i <= n,
            n == s@.len(),
            n > start,
            start == (if neg { 1int } else { 0int }),
            neg <==> s@[0] == '-',
            forall|j: int| start <= j < i ==> is_digit(s@[j]),
            !over ==> mag == digits_val(s@.subrange(start as int, i as int)),
            over ==> digits_val(s@.subrange(start as int, i as int)) > u64::MAX,
        decreases n - i,
    {
        let c: char = s.get_char(i);
        let d: u64 = digit_of(c);
        if d >= 10 {
            proof {
                assert(!is_digit(s@[i as int]));
                assert(!all_digits(s@));
                if neg {
                    assert(s@.skip(1)[i as int - 1] == s@[i as int]);
                    assert(!all_digits(s@.skip(1)));
                }
            }
            return None;
        }
        let ghost prefix: Seq<char> = s@.subrange(start as int, i as int);
        let ghost extended: Seq<char> = s@.subrange(start as int, i as int + 1);
        proof {
            assert(extended.drop_last() =~= prefix);
            assert(extended.last() == s@[i as int]);
        }
        if !over {
            if mag <= (u64::MAX - d) / 10 {
                proof {
                    let q: int = ((u64::MAX - d) / 10) as int;
                    assert(mag * 10 <= q * 10);
                    assert(q * 10 <= u64::MAX - d);
                }
                mag = mag * 10 + d;
            } else {
                proof {
                    let q: int = ((u64::MAX - d) / 10) as int;
                    assert(mag >= q + 1);
                    assert(mag * 10 >= (q + 1) * 10);
                    assert(q * 10 + 10 > u64::MAX - d);
                    assert(digits_val(extended) == mag * 10 + d);
                }
                over = true;
            }
        } else {
            proof {
                assert(digits_val(extended) == digits_val(prefix) * 10 + d);
                assert(digits_val(prefix) * 10 >= digits_val(prefix) + 9 * digits_val(prefix));
            }
        }
        i = i + 1;
    }
    proof {
        if neg {
            assert(s@.subrange(1int, n as int) =~= s@.skip(1));
        } else {
            assert(s@.subrange(0int, n as int) =~= s@);
        }
    }
    if over {
        return None;
    }
    if neg {
        if mag <= i64::MAX as u64 {
            Some(-(mag as i64))
        } else if mag == 9223372036854775808u64 {
            Some(i64::MIN)
        } else {
            None
        }
    } else {
        if mag <= i64::MAX as u64 {
            Some(mag as i64)
        } else {
            None
        }
    }
}

} // verus!
