//! Numbers written in decimal, as they appear in the names of state keys and
//! of parameters.

use vstd::arithmetic::div_mod::{lemma_fundamental_div_mod, lemma_fundamental_div_mod_converse};
use vstd::prelude::*;
use vstd::string::StringExecFns;

verus! {

/// The bytes of a text, as it is stored and sent.
pub open spec fn utf8(text: Seq<char>) -> Seq<u8> {
    vstd::utf8::encode_utf8(text)
}

/// The character of a decimal digit; `'0'` for what is no digit.
pub open spec fn digit_char(digit: int) -> char {
    if digit == 1 {
        '1'
    } else if digit == 2 {
        '2'
    } else if digit == 3 {
        '3'
    } else if digit == 4 {
        '4'
    } else if digit == 5 {
        '5'
    } else if digit == 6 {
        '6'
    } else if digit == 7 {
        '7'
    } else if digit == 8 {
        '8'
    } else if digit == 9 {
        '9'
    } else {
        '0'
    }
}

/// The decimal digits of `n`, most significant first, without leading
/// zeros; `"0"` for zero.
pub open spec fn decimal(n: nat) -> Seq<char>
    decreases n,
{
    if n < 10 {
        seq![digit_char(n as int)]
    } else {
        decimal(n / 10).push(digit_char((n % 10) as int))
    }
}

/// Different digits have different characters.
proof fn lemma_digit_char_injective(x: int, y: int)
    requires
        0 <= x < 10,
        0 <= y < 10,
        digit_char(x) == digit_char(y),
    ensures
        x == y,
{
}

/// The digits of a number below 1000, as `decimal` writes them.
proof fn lemma_decimal_digits(n: nat)
    requires
        n < 1000,
    ensures
        n < 10 ==> decimal(n) == seq![digit_char(n as int)],
        10 <= n < 100 ==> decimal(n) == seq![
            digit_char(n as int / 10),
            digit_char(n as int % 10),
        ],
        100 <= n ==> decimal(n) == seq![
            digit_char(n as int / 100),
            digit_char((n as int / 10) % 10),
            digit_char(n as int % 10),
        ],
{
    reveal_with_fuel(decimal, 3);
    let tens: int = n as int / 10;
    lemma_fundamental_div_mod(n as int, 10);
    lemma_fundamental_div_mod(tens, 10);
    lemma_fundamental_div_mod_converse(n as int, 100, tens / 10, 10 * (tens % 10) + n as int % 10);
    if n < 10 {
    } else if n < 100 {
        assert(decimal(n) =~= seq![digit_char(n as int / 10), digit_char(n as int % 10)]);
    } else {
        assert(decimal(n) =~= seq![
            digit_char(n as int / 100),
            digit_char((n as int / 10) % 10),
            digit_char(n as int % 10),
        ]);
    }
}

/// Different numbers below 256 are written differently.
pub proof fn lemma_decimal_injective(a: u8, b: u8)
    requires
        decimal(a as nat) == decimal(b as nat),
    ensures
        a == b,
{
    lemma_decimal_digits(a as nat);
    lemma_decimal_digits(b as nat);
    let da = decimal(a as nat);
    let db = decimal(b as nat);
    let x: int = a as int;
    let y: int = b as int;
    assert(da.len() == db.len());
    lemma_fundamental_div_mod(x, 10);
    lemma_fundamental_div_mod(y, 10);
    lemma_fundamental_div_mod(x / 10, 10);
    lemma_fundamental_div_mod(y / 10, 10);
    lemma_fundamental_div_mod_converse(x, 100, (x / 10) / 10, 10 * ((x / 10) % 10) + x % 10);
    lemma_fundamental_div_mod_converse(y, 100, (y / 10) / 10, 10 * ((y / 10) % 10) + y % 10);
    if a < 10 {
        assert(da[0] == db[0]);
        lemma_digit_char_injective(x, y);
    } else if a < 100 {
        assert(da[0] == db[0]);
        assert(da[1] == db[1]);
        lemma_digit_char_injective(x / 10, y / 10);
        lemma_digit_char_injective(x % 10, y % 10);
    } else {
        assert(da[0] == db[0]);
        assert(da[1] == db[1]);
        assert(da[2] == db[2]);
        lemma_digit_char_injective(x / 100, y / 100);
        lemma_digit_char_injective((x / 10) % 10, (y / 10) % 10);
        lemma_digit_char_injective(x % 10, y % 10);
    }
}

/// The one-character text of a decimal digit.
fn digit_str(digit: u8) -> (text: &'static str)
    requires
        digit < 10,
    ensures
        text@ == seq![digit_char(digit as int)],
{
    proof {
        reveal_strlit("0");
        reveal_strlit("1");
        reveal_strlit("2");
        reveal_strlit("3");
        reveal_strlit("4");
        reveal_strlit("5");
        reveal_strlit("6");
        reveal_strlit("7");
        reveal_strlit("8");
        reveal_strlit("9");
    }
    let text = if digit == 0 {
        "0"
    } else if digit == 1 {
        "1"
    } else if digit == 2 {
        "2"
    } else if digit == 3 {
        "3"
    } else if digit == 4 {
        "4"
    } else if digit == 5 {
        "5"
    } else if digit == 6 {
        "6"
    } else if digit == 7 {
        "7"
    } else if digit == 8 {
        "8"
    } else {
        "9"
    };
    assert(text@ =~= seq![digit_char(digit as int)]);
    text
}

/// Appends `n`, written in decimal, to `text`.
pub fn push_decimal(text: &mut String, n: u8)
    ensures
        final(text)@ == old(text)@ + decimal(n as nat),
{
    proof {
        lemma_decimal_digits(n as nat);
    }
    if n >= 100 {
        text.append(digit_str(n / 100));
    }
    if n >= 10 {
        text.append(digit_str((n / 10) % 10));
    }
    text.append(digit_str(n % 10));
    assert(text@ =~= old(text)@ + decimal(n as nat));
}

/// `n` written in decimal.
pub fn decimal_string(n: u8) -> (text: String)
    ensures
        text@ == decimal(n as nat),
{
    let mut text = String::new();
    push_decimal(&mut text, n);
    assert(text@ =~= decimal(n as nat));
    text
}

} // verus!
