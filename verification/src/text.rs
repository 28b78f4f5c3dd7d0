//! Text helpers: comparing against ASCII words and writing numbers and
//! identifiers in the forms used on the wire.

use vstd::prelude::*;
use vstd::string::*;

verus! {

/// Whether `text` holds exactly the characters of the ASCII word `word`.
pub(crate) fn is_word(text: &str, word: &str) -> (r: bool)
    requires
        word.is_ascii(),
    ensures
        r == (text@ == word@),
{
    if !text.is_ascii() {
        return false;
    }
    proof {
        is_ascii_spec_bytes(text);
        is_ascii_spec_bytes(word);
    }
    let given = text.as_bytes();
    let wanted = word.as_bytes();
    if given.len() != wanted.len() {
        return false;
    }
    let n: usize = given.len();
    let mut i: usize = 0;
    while i < n
        invariant
            text.is_ascii(),
            word.is_ascii(),
            given@ == text.spec_bytes(),
            wanted@ == word.spec_bytes(),
            n == text@.len(),
            n == word@.len(),
            i <= n,
            forall|j: int| 0 <= j < i ==> text@[j] == word@[j],
        decreases n - i,
    {
        proof {
            is_ascii_spec_bytes(text);
            is_ascii_spec_bytes(word);
        }
        if given[i] != wanted[i] {
            return false;
        }
        i = i + 1;
    }
    assert(text@ =~= word@);
    true
}

/// The character that writes the digit `v` in bases up to sixteen, in lower case.
pub open spec fn digit(v: int) -> char {
    if v == 0 {
        '0'
    } else if v == 1 {
        '1'
    } else if v == 2 {
        '2'
    } else if v == 3 {
        '3'
    } else if v == 4 {
        '4'
    } else if v == 5 {
        '5'
    } else if v == 6 {
        '6'
    } else if v == 7 {
        '7'
    } else if v == 8 {
        '8'
    } else if v == 9 {
        '9'
    } else if v == 10 {
        'a'
    } else if v == 11 {
        'b'
    } else if v == 12 {
        'c'
    } else if v == 13 {
        'd'
    } else if v == 14 {
        'e'
    } else {
        'f'
    }
}

/// The decimal digits of `n`, most significant first, without leading zeros.
pub open spec fn decimal_digits(n: nat) -> Seq<char>
    decreases n,
{
    if n < 10 {
        seq![digit(n as int)]
    } else {
        decimal_digits(n / 10).push(digit((n % 10) as int))
    }
}

/// The decimal form of `n`: a minus sign for a negative number, then its digits.
pub open spec fn decimal(n: int) -> Seq<char> {
    if n < 0 {
        seq!['-'] + decimal_digits((-n) as nat)
    } else {
        decimal_digits(n as nat)
    }
}

/// The lowest `count` hexadecimal digits of `v`, most significant first.
pub open spec fn hex_digits(v: nat, count: nat) -> Seq<char>
    decreases count,
{
    if count == 0 {
        Seq::empty()
    } else {
        hex_digits(v / 16, (count - 1) as nat).push(digit((v % 16) as int))
    }
}

/// The hyphenated form of a 128-bit identifier: its thirty-two hexadecimal digits
/// in lower case, in groups of eight, four, four, four and twelve.
pub open spec fn hyphenated(id: u128) -> Seq<char> {
    hex_digits(id as nat / 0x1_0000_0000_0000_0000_0000_0000, 8) + seq!['-'] + hex_digits(
        id as nat / 0x1_0000_0000_0000_0000_0000,
        4,
    ) + seq!['-'] + hex_digits(id as nat / 0x1_0000_0000_0000_0000, 4) + seq!['-'] + hex_digits(
        id as nat / 0x1_0000_0000_0000,
        4,
    ) + seq!['-'] + hex_digits(id as nat, 12)
}

fn digit_str(v: u8) -> (r: &'static str)
    requires
        v < 16,
    ensures
        r@ == seq![digit(v as int)],
{
    proof {
        reveal_strlit("0");
        reveal_strlit("1");
        reveal_strlit("2");
        reveal_strlit("3");
        reveal_strlit("4");
        reveal_strlit("5");
        reveal_strlit("6");
        reveal_strlit("7");
        reveal_strlit("8");
        reveal_strlit("9");
        reveal_strlit("a");
        reveal_strlit("b");
        reveal_strlit("c");
        reveal_strlit("d");
        reveal_strlit("e");
        reveal_strlit("f");
    }
    let r = if v == 0 {
        "0"
    } else if v == 1 {
        "1"
    } else if v == 2 {
        "2"
    } else if v == 3 {
        "3"
    } else if v == 4 {
        "4"
    } else if v == 5 {
        "5"
    } else if v == 6 {
        "6"
    } else if v == 7 {
        "7"
    } else if v == 8 {
        "8"
    } else if v == 9 {
        "9"
    } else if v == 10 {
        "a"
    } else if v == 11 {
        "b"
    } else if v == 12 {
        "c"
    } else if v == 13 {
        "d"
    } else if v == 14 {
        "e"
    } else {
        "f"
    };
    r
}

fn push_decimal_digits(out: &mut String, n: u64)
    ensures
        final(out)@ == old(out)@ + decimal_digits(n as nat),
    decreases n,
{
    if n >= 10 {
        push_decimal_digits(out, n / 10);
    }
    out.append(digit_str((n % 10) as u8));
}

fn push_hex_digits(out: &mut String, v: u128, count: u8)
    ensures
        final(out)@ == old(out)@ + hex_digits(v as nat, count as nat),
    decreases count,
{
    if count > 0 {
        push_hex_digits(out, v / 16, count - 1);
        out.append(digit_str((v % 16) as u8));
    }
}

/// Appends the decimal form of `n` to `out`.
pub fn push_decimal(out: &mut String, n: i32)
    ensures
        final(out)@ == old(out)@ + decimal(n as int),
{
    if n < 0 {
        out.append("-");
        proof {
            reveal_strlit("-");
        }
        let magnitude: i64 = -(n as i64);
        push_decimal_digits(out, magnitude as u64);
    } else {
        push_decimal_digits(out, n as u64);
    }
}

/// Appends the hyphenated form of `id` to `out`.
pub fn push_hyphenated(out: &mut String, id: u128)
    ensures
        final(out)@ == old(out)@ + hyphenated(id),
{
    proof {
        reveal_strlit("-");
    }
    push_hex_digits(out, id / 0x1_0000_0000_0000_0000_0000_0000, 8);
    out.append("-");
    push_hex_digits(out, id / 0x1_0000_0000_0000_0000_0000, 4);
    out.append("-");
    push_hex_digits(out, id / 0x1_0000_0000_0000_0000, 4);
    out.append("-");
    push_hex_digits(out, id / 0x1_0000_0000_0000, 4);
    out.append("-");
    push_hex_digits(out, id, 12);
}

/// The decimal form of `n`.
pub fn decimal_string(n: i32) -> (r: String)
    ensures
        r@ == decimal(n as int),
{
    let mut out = String::new();
    push_decimal(&mut out, n);
    out
}

/// The hyphenated form of `id`.
pub fn hyphenated_string(id: u128) -> (r: String)
    ensures
        r@ == hyphenated(id),
{
    let mut out = String::new();
    push_hyphenated(&mut out, id);
    out
}

} // verus!
