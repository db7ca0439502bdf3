//! Writing numbers as text, for the disassembler and the error messages:
//! decimal, upper-case hexadecimal and binary, optionally padded with zeros.
use vstd::prelude::*;

verus! {

/// The character for digit `d` (0-9, then upper-case A-F).
pub open spec fn digit_char(d: nat) -> char {
    if d < 10 {
        ((d + 48) as u8) as char
    } else {
        ((d - 10 + 65) as u8) as char
    }
}

/// The digits of `n` in base `radix`, most significant first, without
/// leading zeros (zero is the single digit `0`).
pub open spec fn digits(n: nat, radix: nat) -> Seq<char>
    recommends
        2 <= radix <= 16,
    decreases n,
{
    if radix < 2 || n < radix {
        seq![digit_char(n)]
    } else {
        proof {
            lemma_div_smaller(n, radix);
        }
        digits(n / radix, radix).push(digit_char(n % radix))
    }
}

/// `s` with zeros in front until it is at least `width` characters long.
pub open spec fn zero_padded(s: Seq<char>, width: nat) -> Seq<char> {
    if s.len() >= width {
        s
    } else {
        Seq::new((width - s.len()) as nat, |i: int| '0') + s
    }
}

/// `n` in decimal.
pub open spec fn decimal(n: nat) -> Seq<char> {
    digits(n, 10)
}

/// `n` in upper-case hexadecimal, padded with zeros to `width` digits.
pub open spec fn hex(n: nat, width: nat) -> Seq<char> {
    zero_padded(digits(n, 16), width)
}

/// `n` in binary, padded with zeros to `width` digits.
pub open spec fn binary(n: nat, width: nat) -> Seq<char> {
    zero_padded(digits(n, 2), width)
}

/// `true` or `false`.
pub open spec fn bool_text(b: bool) -> Seq<char> {
    if b {
        "true"@
    } else {
        "false"@
    }
}

/// The one-character string for digit `d`.
fn digit_str(d: u64) -> (r: &'static str)
    requires
        d < 16,
    ensures
        r@ == seq![digit_char(d as nat)],
{
    proof {
        reveal_strlit("0");
        reveal_strlit("1");
        reveal_strlit("2");
        reveal_strlit("3");
        reveal_strlit("4");
        reveal_strlit("5");
        reveal_strlit("6");
        reveal_strlit("7");
        reveal_strlit("8");
        reveal_strlit("9");
        reveal_strlit("A");
        reveal_strlit("B");
        reveal_strlit("C");
        reveal_strlit("D");
        reveal_strlit("E");
        reveal_strlit("F");
    }
    match d {
        0 => "0",
        1 => "1",
        2 => "2",
        3 => "3",
        4 => "4",
        5 => "5",
        6 => "6",
        7 => "7",
        8 => "8",
        9 => "9",
        10 => "A",
        11 => "B",
        12 => "C",
        13 => "D",
        14 => "E",
        _ => "F",
    }
}

/// Appends the digits of `n` in base `radix`.
fn push_digits(s: &mut String, n: u64, radix: u64)
    requires
        2 <= radix <= 16,
    ensures
        final(s)@ == old(s)@ + digits(n as nat, radix as nat),
    decreases n,
{
    if n >= radix {
        proof {
            lemma_div_smaller(n as nat, radix as nat);
        }
        push_digits(s, n / radix, radix);
    }
    let ghost mid = s@;
    s.append(digit_str(n % radix));
    proof {
        let d = digits(n as nat, radix as nat);
        if n >= radix {
            assert(mid == old(s)@ + digits((n / radix) as nat, radix as nat));
            assert(d == digits((n / radix) as nat, radix as nat).push(
                digit_char((n % radix) as nat),
            ));
        } else {
            assert(mid == old(s)@);
            assert(d == seq![digit_char(n as nat)]);
            vstd::arithmetic::div_mod::lemma_small_mod(n as nat, radix as nat);
        }
        assert(s@ =~= old(s)@ + d);
    }
}

/// Dividing by a base of at least two makes a number of at least the base smaller.
pub proof fn lemma_div_smaller(n: nat, radix: nat)
    requires
        2 <= radix <= n,
    ensures
        n / radix < n,
        n / radix <= n / 2,
{
    assert(n / radix < n) by (nonlinear_arith)
        requires
            2 <= radix <= n,
    ;
    assert(n / radix <= n / 2) by (nonlinear_arith)
        requires
            2 <= radix <= n,
    ;
}

/// A number has at most one digit more than its value.
proof fn lemma_digits_len_bound(n: nat, radix: nat)
    requires
        2 <= radix <= 16,
    ensures
        1 <= digits(n, radix).len() <= n + 1,
    decreases n,
{
    if n >= radix {
        lemma_div_smaller(n, radix);
        lemma_digits_len_bound(n / radix, radix);
    }
}

/// The number of digits of `n` in base `radix`.
fn count_digits(n: u64, radix: u64) -> (r: u64)
    requires
        2 <= radix <= 16,
    ensures
        r == digits(n as nat, radix as nat).len(),
    decreases n,
{
    proof {
        lemma_digits_len_bound(n as nat, radix as nat);
    }
    if n >= radix {
        proof {
            lemma_div_smaller(n as nat, radix as nat);
            lemma_digits_len_bound((n / radix) as nat, radix as nat);
        }
        count_digits(n / radix, radix) + 1
    } else {
        1
    }
}

/// Appends `n` in base `radix`, padded with zeros to `width` digits.
pub fn push_number(s: &mut String, n: u64, radix: u64, width: u64)
    requires
        2 <= radix <= 16,
    ensures
        final(s)@ == old(s)@ + zero_padded(digits(n as nat, radix as nat), width as nat),
{
    let count = count_digits(n, radix);
    let mut i: u64 = count;
    let ghost zeros: Seq<char> = Seq::empty();
    while i < width
        invariant
            count == digits(n as nat, radix as nat).len(),
            count <= i,
            i <= width || i == count,
            s@ == old(s)@ + Seq::new((i - count) as nat, |j: int| '0'),
        decreases width - i,
    {
        proof {
            reveal_strlit("0");
        }
        s.append("0");
        proof {
            assert(s@ =~= old(s)@ + Seq::new((i + 1 - count) as nat, |j: int| '0'));
        }
        i = i + 1;
    }
    let ghost before = s@;
    push_digits(s, n, radix);
    proof {
        let ds = digits(n as nat, radix as nat);
        if ds.len() >= width {
            assert(i == count);
            assert(before =~= old(s)@);
        } else {
            assert(i == width);
            assert(s@ =~= old(s)@ + (Seq::new((width - ds.len()) as nat, |j: int| '0') + ds));
        }
    }
}

/// Appends `n` in decimal.
pub fn push_decimal(s: &mut String, n: u32)
    ensures
        final(s)@ == old(s)@ + decimal(n as nat),
{
    push_digits(s, n as u64, 10);
}

/// Appends a `usize` in decimal.
pub fn push_decimal_usize(s: &mut String, n: usize)
    ensures
        final(s)@ == old(s)@ + decimal(n as nat),
{
    push_digits(s, n as u64, 10);
}

/// Appends `n` in upper-case hexadecimal, padded with zeros to `width` digits.
pub fn push_hex(s: &mut String, n: u32, width: u64)
    ensures
        final(s)@ == old(s)@ + hex(n as nat, width as nat),
{
    push_number(s, n as u64, 16, width);
}

/// Appends `n` in binary, padded with zeros to `width` digits.
pub fn push_binary(s: &mut String, n: u32, width: u64)
    ensures
        final(s)@ == old(s)@ + binary(n as nat, width as nat),
{
    push_number(s, n as u64, 2, width);
}

/// Appends `true` or `false`.
pub fn push_bool(s: &mut String, b: bool)
    ensures
        final(s)@ == old(s)@ + bool_text(b),
{
    if b {
        s.append("true");
    } else {
        s.append("false");
    }
}

} // verus!
