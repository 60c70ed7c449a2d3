//! Text helpers shared by the rest of the crate: comparing and joining
//! texts, and rendering numbers in hexadecimal and decimal digits.

use vstd::prelude::*;
use vstd::string::*;

verus! {

/// The views of a sequence of values.
pub open spec fn views<T: View>(items: Seq<T>) -> Seq<T::V> {
    Seq::new(items.len(), |i: int| items[i]@)
}

/// The texts of a sequence of strings.
pub open spec fn texts(items: Seq<String>) -> Seq<Seq<char>> {
    views(items)
}

/// Whether two texts are the same.
pub fn same_text(a: &str, b: &str) -> (out: bool)
    ensures
        out == (a@ == b@),
{
    String::from_str(a) == String::from_str(b)
}

/// `a` and `b`, one after the other.
pub fn concat2(a: &str, b: &str) -> (out: String)
    ensures
        out@ == a@ + b@,
{
    let mut out = String::from_str(a);
    out.append(b);
    out
}

/// The lower-case hexadecimal digit for `n`, `0 <= n < 16`; below 10 it is
/// the decimal digit.
pub open spec fn hex_digit(n: int) -> char {
    "0123456789abcdef"@[n]
}

/// Two lower-case hexadecimal digits for one byte, high nibble first.
pub open spec fn hex_pair(b: u8) -> Seq<char> {
    seq![hex_digit(b as int / 16), hex_digit(b as int % 16)]
}

/// Appends the two hexadecimal digits of `b` to `out`.
pub fn push_hex_pair(out: &mut String, b: u8)
    ensures
        final(out)@ == old(out)@ + hex_pair(b),
{
    let digits = "0123456789abcdef";
    proof {
        reveal_strlit("0123456789abcdef");
    }
    let high: usize = (b / 16) as usize;
    let low: usize = (b % 16) as usize;
    let ghost before = out@;
    out.append(digits.substring_char(high, high + 1));
    out.append(digits.substring_char(low, low + 1));
    assert(out@ =~= before + hex_pair(b));
}

/// `n` in decimal digits, without leading zeroes.
pub open spec fn decimal_text(n: nat) -> Seq<char>
    decreases n,
{
    if n < 10 {
        seq![hex_digit(n as int)]
    } else {
        decimal_text(n / 10) + seq![hex_digit((n % 10) as int)]
    }
}

/// `n` in decimal digits, without leading zeroes.
pub fn decimal(n: u64) -> (out: String)
    ensures
        out@ == decimal_text(n as nat),
    decreases n,
{
    let digits = "0123456789abcdef";
    proof {
        reveal_strlit("0123456789abcdef");
    }
    if n < 10 {
        let d: usize = n as usize;
        let out = String::from_str(digits.substring_char(d, d + 1));
        assert(out@ =~= seq![hex_digit(n as int)]);
        out
    } else {
        let mut out = decimal(n / 10);
        let d: usize = (n % 10) as usize;
        let ghost before = out@;
        out.append(digits.substring_char(d, d + 1));
        assert(out@ =~= before + seq![hex_digit((n % 10) as int)]);
        out
    }
}

} // verus!
