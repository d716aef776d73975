//! Plain-text rendering of integers and column padding, with exact
//! specifications: the disassembler's output format is stated over these
//! spec functions character by character.

use vstd::prelude::*;

verus! {

/// The decimal digit character for `d` (meaningful for `0 <= d <= 9`).
pub open spec fn digit_char(d: int) -> char {
    if d == 0 {
        '0'
    } else if d == 1 {
        '1'
    } else if d == 2 {
        '2'
    } else if d == 3 {
        '3'
    } else if d == 4 {
        '4'
    } else if d == 5 {
        '5'
    } else if d == 6 {
        '6'
    } else if d == 7 {
        '7'
    } else if d == 8 {
        '8'
    } else {
        '9'
    }
}

/// The decimal digit string of a non-negative integer, most significant
/// digit first; `0` renders as `"0"`.
pub open spec fn dec_digits(n: int) -> Seq<char>
    decreases n,
{
    if n < 10 {
        seq![digit_char(n)]
    } else {
        dec_digits(n / 10).push(digit_char(n % 10))
    }
}

/// The decimal rendering of any integer: a leading `-` for negatives.
pub open spec fn int_digits(v: int) -> Seq<char> {
    if v < 0 {
        seq!['-'] + dec_digits(-v)
    } else {
        dec_digits(v)
    }
}

/// `n` copies of the character `c` (empty when `n <= 0`).
pub open spec fn repeat_char(c: char, n: int) -> Seq<char>
    decreases n,
{
    if n <= 0 {
        Seq::empty()
    } else {
        repeat_char(c, n - 1).push(c)
    }
}

/// `s` left-padded with `'0'` to width `w` (unchanged when already wider).
pub open spec fn zero_pad(s: Seq<char>, w: int) -> Seq<char> {
    repeat_char('0', w - s.len()) + s
}

/// `s` left-padded with spaces to width `w` (right-aligned text).
pub open spec fn space_pad_left(s: Seq<char>, w: int) -> Seq<char> {
    repeat_char(' ', w - s.len()) + s
}

/// `s` right-padded with spaces to width `w` (left-aligned text).
pub open spec fn space_pad_right(s: Seq<char>, w: int) -> Seq<char> {
    s + repeat_char(' ', w - s.len())
}

/// How many digits `dec_digits` produces, for the width ranges the
/// four-column layout distinguishes.
pub proof fn lemma_dec_digits_len(n: int)
    requires
        0 <= n,
    ensures
        dec_digits(n).len() >= 1,
        n < 10 ==> dec_digits(n).len() == 1,
        10 <= n < 100 ==> dec_digits(n).len() == 2,
        100 <= n < 1000 ==> dec_digits(n).len() == 3,
        1000 <= n ==> dec_digits(n).len() >= 4,
    decreases n,
{
    if n >= 10 {
        lemma_dec_digits_len(n / 10);
    }
}

/// The decimal digit character of `d`.
fn digit_str(d: u64) -> (r: &'static str)
    requires
        d < 10,
    ensures
        r@ == seq![digit_char(d as int)],
{
    if d == 0 {
        proof {
            reveal_strlit("0");
            assert("0"@ =~= seq![digit_char(0)]);
        }
        "0"
    } else if d == 1 {
        proof {
            reveal_strlit("1");
            assert("1"@ =~= seq![digit_char(1)]);
        }
        "1"
    } else if d == 2 {
        proof {
            reveal_strlit("2");
            assert("2"@ =~= seq![digit_char(2)]);
        }
        "2"
    } else if d == 3 {
        proof {
            reveal_strlit("3");
            assert("3"@ =~= seq![digit_char(3)]);
        }
        "3"
    } else if d == 4 {
        proof {
            reveal_strlit("4");
            assert("4"@ =~= seq![digit_char(4)]);
        }
        "4"
    } else if d == 5 {
        proof {
            reveal_strlit("5");
            assert("5"@ =~= seq![digit_char(5)]);
        }
        "5"
    } else if d == 6 {
        proof {
            reveal_strlit("6");
            assert("6"@ =~= seq![digit_char(6)]);
        }
        "6"
    } else if d == 7 {
        proof {
            reveal_strlit("7");
            assert("7"@ =~= seq![digit_char(7)]);
        }
        "7"
    } else if d == 8 {
        proof {
            reveal_strlit("8");
            assert("8"@ =~= seq![digit_char(8)]);
        }
        "8"
    } else {
        proof {
            reveal_strlit("9");
            assert("9"@ =~= seq![digit_char(9)]);
        }
        "9"
    }
}

/// Appends the decimal rendering of `n` to `s`.
pub fn push_dec(s: &mut String, n: u64)
    ensures
        final(s)@ == old(s)@ + dec_digits(n as int),
    decreases n,
{
    if n < 10 {
        s.append(digit_str(n));
        proof {
            assert(s@ =~= old(s)@ + dec_digits(n as int));
        }
    } else {
        push_dec(s, n / 10);
        s.append(digit_str(n % 10));
        proof {
            assert(s@ =~= old(s)@ + dec_digits(n as int));
        }
    }
}

/// Appends the decimal rendering of `n`, zero-padded to four columns.
pub fn push_dec_padded4(s: &mut String, n: u64)
    ensures
        final(s)@ == old(s)@ + zero_pad(dec_digits(n as int), 4),
{
    proof {
        lemma_dec_digits_len(n as int);
        reveal_strlit("000");
        reveal_strlit("00");
        reveal_strlit("0");
        reveal_with_fuel(repeat_char, 4);
    }
    if n < 10 {
        proof {
            assert("000"@ =~= repeat_char('0', 3));
        }
        s.append("000");
    } else if n < 100 {
        proof {
            assert("00"@ =~= repeat_char('0', 2));
        }
        s.append("00");
    } else if n < 1000 {
        proof {
            assert("0"@ =~= repeat_char('0', 1));
        }
        s.append("0");
    } else {
        proof {
            assert(Seq::<char>::empty() =~= repeat_char('0', 4 - dec_digits(n as int).len()));
        }
    }
    push_dec(s, n);
    proof {
        assert(s@ =~= old(s)@ + zero_pad(dec_digits(n as int), 4));
    }
}

/// Appends the decimal rendering of `v`, with a leading `-` for negatives.
pub fn push_int(s: &mut String, v: i64)
    ensures
        final(s)@ == old(s)@ + int_digits(v as int),
{
    if v < 0 {
        proof {
            reveal_strlit("-");
            assert("-"@ =~= seq!['-']);
        }
        s.append("-");
        let mag: u64 = (-(v as i128)) as u64;
        push_dec(s, mag);
        proof {
            assert(s@ =~= old(s)@ + int_digits(v as int));
        }
    } else {
        push_dec(s, v as u64);
    }
}

/// Appends the decimal rendering of `v`, right-aligned to four columns
/// with spaces.
pub fn push_int_padded4(s: &mut String, v: i64)
    ensures
        final(s)@ == old(s)@ + space_pad_left(int_digits(v as int), 4),
{
    proof {
        reveal_strlit("   ");
        reveal_strlit("  ");
        reveal_strlit(" ");
        reveal_with_fuel(repeat_char, 4);
    }
    let width: u64 = if v < 0 {
        let mag: u64 = (-(v as i128)) as u64;
        proof {
            lemma_dec_digits_len(mag as int);
        }
        if mag < 10 {
            2
        } else if mag < 100 {
            3
        } else {
            4
        }
    } else {
        proof {
            lemma_dec_digits_len(v as int);
        }
        if v < 10 {
            1
        } else if v < 100 {
            2
        } else if v < 1000 {
            3
        } else {
            4
        }
    };
    proof {
        assert(v < 0 ==> int_digits(v as int).len() == 1 + dec_digits(-(v as int)).len());
        if width < 4 {
            assert(width == int_digits(v as int).len());
        } else {
            assert(int_digits(v as int).len() >= 4);
        }
    }
    if width == 1 {
        proof {
            assert("   "@ =~= repeat_char(' ', 3));
        }
        s.append("   ");
    } else if width == 2 {
        proof {
            assert("  "@ =~= repeat_char(' ', 2));
        }
        s.append("  ");
    } else if width == 3 {
        proof {
            assert(" "@ =~= repeat_char(' ', 1));
        }
        s.append(" ");
    } else {
        proof {
            assert(Seq::<char>::empty() =~= repeat_char(' ', 4 - int_digits(v as int).len()));
        }
    }
    push_int(s, v);
    proof {
        assert(s@ =~= old(s)@ + space_pad_left(int_digits(v as int), 4));
    }
}

} // verus!
