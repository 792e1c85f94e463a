//! Verified helpers that append decimal, zero-padded and hexadecimal
//! renderings of integers to a `String`. Query text and calendar
//! formatting are built on these.

use vstd::prelude::*;

verus! {

/// Relies on std's `String::push`: appends exactly the one character.
#[verifier::external_body]
pub fn push_char(s: &mut String, c: char)
    ensures
        final(s)@ == old(s)@ + seq![c],
{
    s.push(c);
}

/// The character for one decimal digit.
pub open spec fn dec_digit(d: int) -> char {
    if d == 0 {
        '0'
    } else if d == 1 {
        '1'
    } else if d == 2 {
        '2'
    } else if d == 3 {
        '3'
    } else if d == 4 {
        '4'
    } else if d == 5 {
        '5'
    } else if d == 6 {
        '6'
    } else if d == 7 {
        '7'
    } else if d == 8 {
        '8'
    } else {
        '9'
    }
}

/// The usual decimal rendering of a non-negative integer, most
/// significant digit first, no leading zeros (except for 0 itself).
pub open spec fn dec_digits(n: int) -> Seq<char>
    decreases n,
{
    if n < 10 {
        seq![dec_digit(n)]
    } else {
        dec_digits(n / 10) + seq![dec_digit(n % 10)]
    }
}

/// The decimal rendering of `n`, left-padded with zeros to width `w`.
pub open spec fn dec_pad(n: int, w: int) -> Seq<char> {
    let ds = dec_digits(n);
    if ds.len() >= w {
        ds
    } else {
        Seq::new((w - ds.len()) as nat, |i: int| '0') + ds
    }
}

/// The decimal rendering of a signed integer: a minus sign, if any,
/// then the digits of the absolute value.
pub open spec fn dec_signed(n: int) -> Seq<char> {
    if n < 0 {
        seq!['-'] + dec_digits(-n)
    } else {
        dec_digits(n)
    }
}

pub open spec fn pow10(k: nat) -> int
    decreases k,
{
    if k == 0 {
        1
    } else {
        10 * pow10((k - 1) as nat)
    }
}

/// Bounds the number of decimal digits: below `pow10(k)` there are at
/// most `k` of them.
proof fn lemma_dec_digits_len(n: int, k: nat)
    requires
        1 <= k,
        0 <= n < pow10(k),
    ensures
        1 <= dec_digits(n).len() <= k,
    decreases k,
{
    if n < 10 {
    } else {
        assert(pow10(k) == 10 * pow10((k - 1) as nat));
        assert(n / 10 < pow10((k - 1) as nat)) by (nonlinear_arith)
            requires
                n >= 10,
                n < 10 * pow10((k - 1) as nat),
        ;
        assert(k >= 2) by {
            if k == 1 {
                assert(pow10(1) == 10);
            }
        }
        lemma_dec_digits_len(n / 10, (k - 1) as nat);
    }
}

fn digit_char(d: u64) -> (c: char)
    requires
        d < 10,
    ensures
        c == dec_digit(d as int),
{
    if d == 0 {
        '0'
    } else if d == 1 {
        '1'
    } else if d == 2 {
        '2'
    } else if d == 3 {
        '3'
    } else if d == 4 {
        '4'
    } else if d == 5 {
        '5'
    } else if d == 6 {
        '6'
    } else if d == 7 {
        '7'
    } else if d == 8 {
        '8'
    } else {
        '9'
    }
}

/// Appends the decimal rendering of `n`.
pub fn push_u64_dec(s: &mut String, n: u64)
    ensures
        final(s)@ == old(s)@ + dec_digits(n as int),
    decreases n,
{
    if n >= 10 {
        push_u64_dec(s, n / 10);
    }
    push_char(s, digit_char(n % 10));
    assert(s@ =~= old(s)@ + dec_digits(n as int));
}

/// The number of decimal digits of `n`.
fn dec_len(n: u64) -> (l: usize)
    ensures
        l == dec_digits(n as int).len(),
    decreases n,
{
    proof {
        assert(pow10(20) == 100000000000000000000int) by {
            reveal_with_fuel(pow10, 21);
        }
        lemma_dec_digits_len(n as int, 20);
    }
    if n < 10 {
        1
    } else {
        let l0 = dec_len(n / 10);
        proof {
            lemma_dec_digits_len((n / 10) as int, 20);
        }
        l0 + 1
    }
}

/// Appends the decimal rendering of `n`, left-padded with zeros to
/// width `w`.
pub fn push_u64_pad(s: &mut String, n: u64, w: usize)
    requires
        w <= 8,
    ensures
        final(s)@ == old(s)@ + dec_pad(n as int, w as int),
{
    let l = dec_len(n);
    let mut i: usize = l;
    while i < w
        invariant
            l == dec_digits(n as int).len(),
            l <= i <= w || (i == l && i >= w),
            w <= 8,
            s@ == old(s)@ + Seq::new((i - l) as nat, |j: int| '0'),
        decreases w - i,
    {
        push_char(s, '0');
        proof {
            assert(old(s)@ + Seq::new((i + 1 - l) as nat, |j: int| '0') =~= (old(s)@ + Seq::new(
                (i - l) as nat,
                |j: int| '0',
            )) + seq!['0']);
        }
        i = i + 1;
    }
    push_u64_dec(s, n);
    assert(s@ =~= old(s)@ + dec_pad(n as int, w as int));
}

/// Appends the decimal rendering of a signed 32-bit integer.
pub fn push_i32_dec(s: &mut String, n: i32)
    ensures
        final(s)@ == old(s)@ + dec_signed(n as int),
{
    if n < 0 {
        push_char(s, '-');
        let m: u64 = (-(n as i64)) as u64;
        push_u64_dec(s, m);
        assert(s@ =~= old(s)@ + dec_signed(n as int));
    } else {
        push_u64_dec(s, n as u64);
    }
}

/// The character for one hexadecimal digit, lower case.
pub open spec fn hex_digit(d: int) -> char {
    if d < 10 {
        dec_digit(d)
    } else if d == 10 {
        'a'
    } else if d == 11 {
        'b'
    } else if d == 12 {
        'c'
    } else if d == 13 {
        'd'
    } else if d == 14 {
        'e'
    } else {
        'f'
    }
}

/// The two lower-case hexadecimal digits of one byte.
pub open spec fn byte_hex(b: int) -> Seq<char> {
    seq![hex_digit(b / 16), hex_digit(b % 16)]
}

fn hex_digit_char(d: u8) -> (c: char)
    requires
        d < 16,
    ensures
        c == hex_digit(d as int),
{
    if d < 10 {
        digit_char(d as u64)
    } else if d == 10 {
        'a'
    } else if d == 11 {
        'b'
    } else if d == 12 {
        'c'
    } else if d == 13 {
        'd'
    } else if d == 14 {
        'e'
    } else {
        'f'
    }
}

/// Appends the two hexadecimal digits of one byte.
pub fn push_byte_hex(s: &mut String, b: u8)
    ensures
        final(s)@ == old(s)@ + byte_hex(b as int),
{
    push_char(s, hex_digit_char(b / 16));
    push_char(s, hex_digit_char(b % 16));
    assert(s@ =~= old(s)@ + byte_hex(b as int));
}

} // verus!
