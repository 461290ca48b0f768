//! Short generated names: a number written in a base-64 alphabet, least
//! significant digit first.

use vstd::prelude::*;

verus! {

/// The character that stands for the digit `d` (`0 <= d < 64`): the
/// alphabet `a..z`, then `A..Z`, then `0..9`, then `+` and `~`.
pub open spec fn digit_char(d: int) -> char {
    if d < 26 {
        (97 + d) as char
    } else if d < 52 {
        (65 + (d - 26)) as char
    } else if d < 62 {
        (48 + (d - 52)) as char
    } else if d == 62 {
        '+'
    } else {
        '~'
    }
}

/// The digits of `l` in base 64, least significant first; zero is one digit.
pub open spec fn base64_digits(l: nat) -> Seq<char>
    decreases l,
{
    let head = seq![digit_char((l % 64) as int)];
    if l / 64 == 0 {
        head
    } else {
        head + base64_digits(l / 64)
    }
}

/// The base-64 alphabet, digit 0 first.
pub open spec fn base64_alphabet() -> Seq<char> {
    seq!['a', 'b', 'c', 'd', 'e', 'f', 'g', 'h', 'i', 'j', 'k', 'l', 'm', 'n', 'o', 'p', 'q', 'r', 's', 't', 'u', 'v', 'w', 'x', 'y', 'z', 'A', 'B', 'C', 'D', 'E', 'F', 'G', 'H', 'I', 'J', 'K', 'L', 'M', 'N', 'O', 'P', 'Q', 'R', 'S', 'T', 'U', 'V', 'W', 'X', 'Y', 'Z', '0', '1', '2', '3', '4', '5', '6', '7', '8', '9', '+', '~']
}

/// Digit `d` is written as the `d`-th character of the alphabet `a..z`,
/// `A..Z`, `0..9`, `+`, `~`.
pub proof fn lemma_digit_char_is_alphabet(d: int)
    requires
        0 <= d < 64,
    ensures
        digit_char(d) == base64_alphabet()[d],
        base64_alphabet().len() == 64,
{
}

/// Different digits have different characters.
pub proof fn lemma_digit_char_injective(x: int, y: int)
    requires
        0 <= x < 64,
        0 <= y < 64,
        x != y,
    ensures
        digit_char(x) != digit_char(y),
{
    assert(digit_char(x) as int != digit_char(y) as int);
}

/// Every number has at least one digit.
pub proof fn lemma_base64_digits_nonempty(l: nat)
    ensures
        base64_digits(l).len() >= 1,
        base64_digits(l)[0] == digit_char((l % 64) as int),
    decreases l,
{
    if l / 64 != 0 {
        lemma_base64_digits_nonempty(l / 64);
    }
}

/// Different numbers are written differently: `base64` never gives two
/// numbers the same name.
pub proof fn lemma_base64_digits_injective(a: nat, b: nat)
    requires
        a != b,
    ensures
        base64_digits(a) != base64_digits(b),
    decreases a,
{
    let da = base64_digits(a);
    let db = base64_digits(b);
    lemma_base64_digits_nonempty(a);
    lemma_base64_digits_nonempty(b);
    if a % 64 != b % 64 {
        lemma_digit_char_injective((a % 64) as int, (b % 64) as int);
        assert(da[0] != db[0]);
    } else {
        assert(a / 64 != b / 64);
        if a / 64 == 0 {
            lemma_base64_digits_nonempty(b / 64);
            assert(da.len() == 1);
            assert(db.len() >= 2);
        } else if b / 64 == 0 {
            lemma_base64_digits_nonempty(a / 64);
            assert(db.len() == 1);
            assert(da.len() >= 2);
        } else {
            lemma_base64_digits_injective(a / 64, b / 64);
            if da == db {
                assert(da.subrange(1, da.len() as int) =~= base64_digits(a / 64));
                assert(db.subrange(1, db.len() as int) =~= base64_digits(b / 64));
            }
        }
    }
}

/// A name's first character is the alphabet's character for the number
/// modulo 64, and numbers below 64 are written with that one character.
pub proof fn lemma_base64_first_digit(l: nat)
    ensures
        base64_digits(l)[0] == base64_alphabet()[(l % 64) as int],
        l < 64 ==> base64_digits(l) == seq![base64_alphabet()[l as int]],
{
    lemma_base64_digits_nonempty(l);
    lemma_digit_char_is_alphabet((l % 64) as int);
}

/// `String::push`: appends one character.
#[verifier::external_body]
fn push_char(s: &mut String, c: char)
    ensures
        final(s)@ == old(s)@.push(c),
{
    s.push(c);
}

/// The character of one base-64 digit.
fn digit(d: usize) -> (c: char)
    requires
        d < 64,
    ensures
        c == digit_char(d as int),
{
    let d: u8 = d as u8;
    if d < 26 {
        (97u8 + d) as char
    } else if d < 52 {
        (65u8 + (d - 26)) as char
    } else if d < 62 {
        (48u8 + (d - 52)) as char
    } else if d == 62 {
        '+'
    } else {
        '~'
    }
}

/// Appends the base-64 digits of `l` to `s`.
pub fn base64(l: usize, s: String) -> (r: String)
    ensures
        r@ == s@ + base64_digits(l as nat),
    decreases l,
{
    let ghost s0 = s@;
    let mut s = s;
    assert(l & 63 == l % 64) by (bit_vector);
    assert(l >> 6 == l / 64) by (bit_vector);
    let ch = digit(l & 63);
    push_char(&mut s, ch);
    let next = l >> 6;
    if next == 0 {
        s
    } else {
        let r = base64(next, s);
        assert(r@ =~= s0 + base64_digits(l as nat));
        r
    }
}

} // verus!
