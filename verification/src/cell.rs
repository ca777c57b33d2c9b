//! The text drawn in the grid: each cell shows its four exponents, each as
//! at least two decimal digits after a minus sign when negative, or a mark
//! for a note-off or an empty cell.

use vstd::prelude::*;

use crate::song::Note;

verus! {

/// `std::string::String::push`: appends one character to the string.
#[verifier::external_body]
pub(crate) fn push_char(s: &mut String, c: char)
    ensures
        final(s)@ == old(s)@.push(c),
{
    s.push(c)
}

/// The character of a decimal digit.
pub open spec fn digit_char(d: nat) -> char {
    (d + 48) as char
}

/// The decimal digits of `n`, most significant first, without leading zeros.
pub open spec fn decimal(n: nat) -> Seq<char>
    decreases n,
{
    if n < 10 {
        seq![digit_char(n)]
    } else {
        decimal(n / 10).push(digit_char(n % 10))
    }
}

/// The decimal digits of `n`, with a leading zero when there is only one.
pub open spec fn two_digits(n: nat) -> Seq<char> {
    if n < 10 {
        seq!['0'] + decimal(n)
    } else {
        decimal(n)
    }
}

/// `v` written as at least two decimal digits, after a minus sign when negative:
/// `00`, `01`, `-01`, `12`, `-123`.
pub open spec fn padded_decimal(v: int) -> Seq<char> {
    if v < 0 {
        seq!['-'] + two_digits((-v) as nat)
    } else {
        two_digits(v as nat)
    }
}

/// The text of exponent `factor` of a cell.
pub open spec fn cell_text_of(note: Note, factor: int) -> Seq<char> {
    match note {
        Note::On(f) => padded_decimal(f[factor] as int),
        Note::Off => seq!['-', '-'],
        Note::Empty => seq!['.', ' ', '.'],
    }
}

/// An exponent between -99 and 99 is shown as exactly two digits, after a
/// minus sign when it is negative: 0 as `00`, 1 as `01`, -1 as `-01`.
pub proof fn lemma_two_digit_text(v: int)
    requires
        -100 < v < 100,
    ensures
        v >= 0 ==> padded_decimal(v) == seq![digit_char((v / 10) as nat), digit_char((v % 10) as nat)],
        v < 0 ==> padded_decimal(v) == seq!['-', digit_char((-v / 10) as nat), digit_char((-v % 10) as nat)],
{
    let m: int = if v < 0 { -v } else { v };
    if m >= 10 {
        assert(decimal((m / 10) as nat) == seq![digit_char((m / 10) as nat)]);
    }
    assert(padded_decimal(v) =~= if v < 0 {
        seq!['-', digit_char((m / 10) as nat), digit_char((m % 10) as nat)]
    } else {
        seq![digit_char((m / 10) as nat), digit_char((m % 10) as nat)]
    });
}

/// The number that a string of decimal digits stands for.
pub open spec fn digits_value(s: Seq<char>) -> int
    decreases s.len(),
{
    if s.len() == 0 {
        0
    } else {
        digits_value(s.drop_last()) * 10 + (s.last() as int - 48)
    }
}

/// `decimal(n)` is a string of decimal digits, without a leading zero
/// unless it is `0`, that stands for `n`.
pub proof fn lemma_decimal_value(n: nat)
    ensures
        decimal(n).len() >= 1,
        forall|i: int| 0 <= i < decimal(n).len() ==> '0' <= #[trigger] decimal(n)[i] <= '9',
        n > 0 ==> decimal(n)[0] != '0',
        digits_value(decimal(n)) == n,
    decreases n,
{
    if n >= 10 {
        lemma_decimal_value(n / 10);
        let s = decimal(n);
        assert(s.drop_last() =~= decimal(n / 10));
        assert(decimal(n / 10)[0] == s[0]);
        assert(digit_char(n % 10) as int == n % 10 + 48);
        assert(n == (n / 10) * 10 + n % 10) by (nonlinear_arith);
        assert(s.last() == digit_char(n % 10));
        assert(digits_value(s) == digits_value(s.drop_last()) * 10 + (s.last() as int - 48));
    } else {
        let s = decimal(n);
        assert(s.drop_last() =~= Seq::<char>::empty());
        assert(digit_char(n) as int == n + 48);
        assert(digits_value(s.drop_last()) == 0);
        assert(digits_value(s) == digits_value(s.drop_last()) * 10 + (s.last() as int - 48));
    }
}

/// Appends the decimal digits of `n`.
fn push_decimal(s: &mut String, n: u32)
    ensures
        final(s)@ == old(s)@ + decimal(n as nat),
    decreases n,
{
    if n >= 10 {
        push_decimal(s, n / 10);
    }
    let d: u32 = n % 10;
    let c: char = ((d as u8) + 48u8) as char;
    push_char(s, c);
    proof {
        if n < 10 {
            assert(n % 10 == n);
        }
    }
    assert(final(s)@ =~= old(s)@ + decimal(n as nat));
}

/// The text shown for exponent `factor` of a cell.
pub fn cell_text(note: Note, factor: usize) -> (s: String)
    requires
        factor < 4,
    ensures
        s@ == cell_text_of(note, factor as int),
{
    let mut s = String::new();
    match note {
        Note::On(f) => {
            let v: i32 = f[factor];
            let m: u32 = if v < 0 {
                push_char(&mut s, '-');
                (0i64 - (v as i64)) as u32
            } else {
                v as u32
            };
            if m < 10 {
                push_char(&mut s, '0');
            }
            push_decimal(&mut s, m);
        },
        Note::Off => {
            push_char(&mut s, '-');
            push_char(&mut s, '-');
        },
        Note::Empty => {
            push_char(&mut s, '.');
            push_char(&mut s, ' ');
            push_char(&mut s, '.');
        },
    }
    s
}

} // verus!
