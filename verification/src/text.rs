//! Textual building blocks of the dump: the indentation prefix, decimal
//! rendering of the integer fields, the playback-rate rendering, and the
//! boolean rendering. Each exec function returns exactly the sequence of
//! characters its spec-level counterpart describes.

use vstd::prelude::*;

verus! {

/// The indentation prefix at a given depth: four spaces per level.
pub open spec fn indent_spec(depth: nat) -> Seq<char> {
    Seq::new(4 * depth, |i: int| ' ')
}

/// `l` carries exactly `k` leading spaces: its first `k` characters are
/// spaces and the character right after them is not.
pub open spec fn exact_leading_spaces(l: Seq<char>, k: nat) -> bool {
    &&& k < l.len()
    &&& (forall|j: int| 0 <= j < k ==> l[j] == ' ')
    &&& l[k as int] != ' '
}

/// The character for a single decimal digit.
pub open spec fn digit_char(d: nat) -> char {
    if d == 0 {
        '0'
    } else if d == 1 {
        '1'
    } else if d == 2 {
        '2'
    } else if d == 3 {
        '3'
    } else if d == 4 {
        '4'
    } else if d == 5 {
        '5'
    } else if d == 6 {
        '6'
    } else if d == 7 {
        '7'
    } else if d == 8 {
        '8'
    } else {
        '9'
    }
}

/// The decimal rendering of a natural number, most significant digit first,
/// with no sign, no padding and no leading zero except for zero itself.
pub open spec fn dec_str(n: nat) -> Seq<char>
    decreases n,
{
    if n < 10 {
        seq![digit_char(n)]
    } else {
        dec_str(n / 10).push(digit_char(n % 10))
    }
}

/// The decimal rendering of an integer: a leading minus sign when negative.
pub open spec fn int_dec_str(n: int) -> Seq<char> {
    if n < 0 {
        seq!['-'] + dec_str((-n) as nat)
    } else {
        dec_str(n as nat)
    }
}

/// A fraction of a hundred rendered as exactly two digits, zero-padded.
pub open spec fn two_digit_str(f: nat) -> Seq<char> {
    if f < 10 {
        seq!['0'] + dec_str(f)
    } else {
        dec_str(f)
    }
}

/// The rendering of a playback rate held as a signed count of hundredths:
/// optional minus sign, whole part, a dot, and the fractional part padded to
/// two digits, as the host formats a rate with two decimal places.
pub open spec fn rate_str(hundredths: int) -> Seq<char> {
    let mag = if hundredths < 0 {
        -hundredths
    } else {
        hundredths
    };
    let sign: Seq<char> = if hundredths < 0 {
        seq!['-']
    } else {
        Seq::<char>::empty()
    };
    sign + dec_str((mag / 100) as nat) + seq!['.'] + two_digit_str((mag % 100) as nat)
}

/// The rendering of a boolean flag.
pub open spec fn bool_str(b: bool) -> Seq<char> {
    if b {
        "true"@
    } else {
        "false"@
    }
}

/// Prepending the indentation prefix to a body with exactly `k` leading
/// spaces gives a line with exactly `4 * d + k` leading spaces.
pub proof fn lemma_prefixed_line(d: nat, body: Seq<char>, k: nat)
    requires
        exact_leading_spaces(body, k),
    ensures
        exact_leading_spaces(indent_spec(d) + body, 4 * d + k),
{
    let l = indent_spec(d) + body;
    assert forall|j: int| 0 <= j < 4 * d + k implies l[j] == ' ' by {
        if j < 4 * d {
            assert(l[j] == indent_spec(d)[j]);
        } else {
            assert(l[j] == body[j - 4 * (d as int)]);
        }
    }
    assert(l[4 * (d as int) + k] == body[k as int]);
}

/// Builds the indentation prefix for a depth.
pub fn indent_string(depth: usize) -> (s: String)
    requires
        4 * depth <= usize::MAX,
    ensures
        s@ == indent_spec(depth as nat),
{
    let n: usize = 4 * depth;
    let mut s = String::new();
    let mut i: usize = 0;
    while i < n
        invariant
            i <= n,
            n == 4 * depth,
            s@ == Seq::new(i as nat, |j: int| ' '),
        decreases n - i,
    {
        s.append(" ");
        proof {
            reveal_strlit(" ");
            assert(s@ =~= Seq::new((i + 1) as nat, |j: int| ' '));
        }
        i = i + 1;
    }
    proof {
        assert(s@ =~= indent_spec(depth as nat));
    }
    s
}

/// The literal for a single decimal digit.
fn digit_str(d: u128) -> (s: &'static str)
    requires
        d < 10,
    ensures
        s@ == seq![digit_char(d as nat)],
{
    let s: &'static str = if d == 0 {
        "0"
    } else if d == 1 {
        "1"
    } else if d == 2 {
        "2"
    } else if d == 3 {
        "3"
    } else if d == 4 {
        "4"
    } else if d == 5 {
        "5"
    } else if d == 6 {
        "6"
    } else if d == 7 {
        "7"
    } else if d == 8 {
        "8"
    } else {
        "9"
    };
    proof {
        reveal_strlit("0");
        reveal_strlit("1");
        reveal_strlit("2");
        reveal_strlit("3");
        reveal_strlit("4");
        reveal_strlit("5");
        reveal_strlit("6");
        reveal_strlit("7");
        reveal_strlit("8");
        reveal_strlit("9");
        assert(s@ =~= seq![digit_char(d as nat)]);
    }
    s
}

/// Appends the decimal rendering of `n` to `s`.
fn append_dec(s: &mut String, n: u128)
    ensures
        final(s)@ == old(s)@ + dec_str(n as nat),
    decreases n,
{
    if n >= 10 {
        append_dec(s, n / 10);
        let d = digit_str(n % 10);
        s.append(d);
        proof {
            assert(s@ =~= old(s)@ + dec_str(n as nat));
        }
    } else {
        let d = digit_str(n);
        s.append(d);
        proof {
            assert(s@ =~= old(s)@ + dec_str(n as nat));
        }
    }
}

/// The decimal rendering of an unsigned 128-bit count, as a string.
pub fn u128_to_string(n: u128) -> (s: String)
    ensures
        s@ == dec_str(n as nat),
{
    let mut s = String::new();
    append_dec(&mut s, n);
    proof {
        assert(s@ =~= dec_str(n as nat));
    }
    s
}

/// The decimal rendering of an unsigned 64-bit count, as a string.
pub fn u64_to_string(n: u64) -> (s: String)
    ensures
        s@ == dec_str(n as nat),
{
    u128_to_string(n as u128)
}

/// The decimal rendering of a signed 64-bit value, as a string.
pub fn i64_to_string(n: i64) -> (s: String)
    ensures
        s@ == int_dec_str(n as int),
{
    if n < 0 {
        let mag: u128 = (-(n as i128)) as u128;
        proof {
            assert(mag as int == -(n as int));
        }
        let mut s = String::from_str("-");
        proof {
            reveal_strlit("-");
            assert(s@ =~= seq!['-']);
        }
        append_dec(&mut s, mag);
        proof {
            assert(s@ =~= int_dec_str(n as int));
        }
        s
    } else {
        let s = u128_to_string(n as u128);
        s
    }
}

/// The decimal rendering of a signed 32-bit value, as a string.
pub fn i32_to_string(n: i32) -> (s: String)
    ensures
        s@ == int_dec_str(n as int),
{
    i64_to_string(n as i64)
}

/// The rendering of a playback rate held as a signed count of hundredths.
pub fn rate_to_string(hundredths: i64) -> (s: String)
    ensures
        s@ == rate_str(hundredths as int),
{
    let mag: u128 = if hundredths < 0 {
        (-(hundredths as i128)) as u128
    } else {
        hundredths as u128
    };
    let mut s = if hundredths < 0 {
        let t = String::from_str("-");
        proof {
            reveal_strlit("-");
            assert(t@ =~= seq!['-']);
        }
        t
    } else {
        String::new()
    };
    append_dec(&mut s, mag / 100);
    s.append(".");
    proof {
        reveal_strlit(".");
    }
    if mag % 100 < 10 {
        s.append("0");
        proof {
            reveal_strlit("0");
        }
    }
    append_dec(&mut s, mag % 100);
    proof {
        assert(s@ =~= rate_str(hundredths as int));
    }
    s
}

/// The rendering of a boolean flag.
pub fn bool_to_str(b: bool) -> (s: &'static str)
    ensures
        s@ == bool_str(b),
{
    if b {
        "true"
    } else {
        "false"
    }
}

} // verus!
