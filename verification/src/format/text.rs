//! Decimal and hexadecimal renderings of integers, and padding.

use vstd::prelude::*;

verus! {

/// The lower-case digit for `d` in bases up to sixteen.
pub open spec fn digit_char(d: int) -> char {
    if d == 0 {
        '0'
    } else if d == 1 {
        '1'
    } else if d == 2 {
        '2'
    } else if d == 3 {
        '3'
    } else if d == 4 {
        '4'
    } else if d == 5 {
        '5'
    } else if d == 6 {
        '6'
    } else if d == 7 {
        '7'
    } else if d == 8 {
        '8'
    } else if d == 9 {
        '9'
    } else if d == 10 {
        'a'
    } else if d == 11 {
        'b'
    } else if d == 12 {
        'c'
    } else if d == 13 {
        'd'
    } else if d == 14 {
        'e'
    } else {
        'f'
    }
}

/// The digits of `n` in base `base`, most significant first, without leading zeros.
pub open spec fn digits(n: nat, base: nat) -> Seq<char>
    recommends
        2 <= base <= 16,
    decreases n,
{
    if base < 2 || n < base {
        seq![digit_char(n as int)]
    } else {
        proof {
            assert(n / base < n) by (nonlinear_arith)
                requires
                    base >= 2,
                    n >= base,
            ;
        }
        digits(n / base, base).push(digit_char((n % base) as int))
    }
}

/// `n` in decimal.
pub open spec fn decimal(n: nat) -> Seq<char> {
    digits(n, 10)
}

/// `v` in decimal, with a leading minus sign when negative.
pub open spec fn signed_decimal(v: int) -> Seq<char> {
    if v < 0 {
        seq!['-'] + decimal((-v) as nat)
    } else {
        decimal(v as nat)
    }
}

/// `n` in lower-case hexadecimal.
pub open spec fn hex(n: nat) -> Seq<char> {
    digits(n, 16)
}

/// `s` with zeros in front up to `width` characters.
pub open spec fn zero_padded(s: Seq<char>, width: nat) -> Seq<char> {
    if s.len() < width {
        Seq::new((width - s.len()) as nat, |i: int| '0') + s
    } else {
        s
    }
}

/// `s` with spaces after it up to `width` characters.
pub open spec fn left_aligned(s: Seq<char>, width: nat) -> Seq<char> {
    if s.len() < width {
        s + Seq::new((width - s.len()) as nat, |i: int| ' ')
    } else {
        s
    }
}

/// `n` in lower-case hexadecimal, at least four digits wide.
pub open spec fn hex4(n: nat) -> Seq<char> {
    zero_padded(hex(n), 4)
}

/// The bits of `v` read as an unsigned 32-bit number.
pub open spec fn bits_of(v: i32) -> nat {
    if v < 0 {
        (v + 0x1_0000_0000) as nat
    } else {
        v as nat
    }
}

/// Appends a character to a string.
///
/// Trusted: calls `String::push`, which std documents as appending the character to the end.
#[verifier::external_body]
fn push_char(s: &mut String, c: char)
    ensures
        final(s)@ == old(s)@.push(c),
{
    s.push(c)
}

fn digit(d: u64) -> (c: char)
    requires
        d < 16,
    ensures
        c == digit_char(d as int),
{
    match d {
        0 => '0',
        1 => '1',
        2 => '2',
        3 => '3',
        4 => '4',
        5 => '5',
        6 => '6',
        7 => '7',
        8 => '8',
        9 => '9',
        10 => 'a',
        11 => 'b',
        12 => 'c',
        13 => 'd',
        14 => 'e',
        _ => 'f',
    }
}

fn digits_text(n: u64, base: u64) -> (text: String)
    requires
        2 <= base <= 16,
    ensures
        text@ == digits(n as nat, base as nat),
    decreases n,
{
    if n < base {
        let mut text = String::new();
        push_char(&mut text, digit(n));
        proof {
            assert(text@ =~= seq![digit_char(n as int)]);
        }
        text
    } else {
        assert(n / base < n) by (nonlinear_arith)
            requires
                base >= 2,
                n >= base,
        ;
        let mut text = digits_text(n / base, base);
        push_char(&mut text, digit(n % base));
        text
    }
}

/// Renders `n` in decimal.
pub fn decimal_text(n: u64) -> (text: String)
    ensures
        text@ == decimal(n as nat),
{
    digits_text(n, 10)
}

/// Renders `v` in decimal with a minus sign when negative.
pub fn signed_text(v: i64) -> (text: String)
    ensures
        text@ == signed_decimal(v as int),
{
    if v < 0 {
        let magnitude: u64 = if v == i64::MIN {
            0x8000_0000_0000_0000u64
        } else {
            (-v) as u64
        };
        let digits = decimal_text(magnitude);
        let mut text = String::from_str("-");
        proof {
            reveal_strlit("-");
        }
        text.append(digits.as_str());
        text
    } else {
        decimal_text(v as u64)
    }
}

/// Renders `n` in lower-case hexadecimal, padded with zeros to at least four digits.
pub fn hex4_text(n: u64) -> (text: String)
    ensures
        text@ == hex4(n as nat),
{
    padded_hex_text(n, 4)
}

/// Renders `n` in lower-case hexadecimal, padded with zeros to at least `width` digits.
pub fn padded_hex_text(n: u64, width: usize) -> (text: String)
    ensures
        text@ == zero_padded(hex(n as nat), width as nat),
{
    let digits = digits_text(n, 16);
    let mut text = String::new();
    let len = digits.as_str().unicode_len();
    if len < width {
        let mut k: usize = 0;
        while k < width - len
            invariant
                len < width,
                k <= width - len,
                text@ =~= Seq::new(k as nat, |i: int| '0'),
            decreases width - len - k,
        {
            push_char(&mut text, '0');
            k = k + 1;
        }
    }
    text.append(digits.as_str());
    text
}

/// The bits of a 32-bit signed value as an unsigned number.
pub fn bits_text_value(v: i32) -> (n: u64)
    ensures
        n == bits_of(v),
{
    if v < 0 {
        (v as i64 + 0x1_0000_0000i64) as u64
    } else {
        v as u64
    }
}

/// Pads `s` with spaces after it up to `width` characters.
pub fn left_aligned_text(s: &str, width: usize) -> (text: String)
    ensures
        text@ == left_aligned(s@, width as nat),
{
    let mut text = String::from_str(s);
    let len = s.unicode_len();
    if len < width {
        let mut k: usize = 0;
        while k < width - len
            invariant
                len == s@.len(),
                len < width,
                k <= width - len,
                text@ =~= s@ + Seq::new(k as nat, |i: int| ' '),
            decreases width - len - k,
        {
            push_char(&mut text, ' ');
            k = k + 1;
        }
    }
    text
}

} // verus!
