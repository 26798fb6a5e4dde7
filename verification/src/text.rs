//! Text helpers: string comparison and number formatting.

use vstd::prelude::*;
use vstd::string::StrSliceExecFns;
use vstd::string::StringExecFns;

verus! {

broadcast use vstd::string::group_string_axioms;

/// Equality of two string slices, as the standard library computes it.
#[verifier::external_body]
pub fn str_eq(a: &str, b: &str) -> (r: bool)
    ensures
        r == (a@ == b@),
{
    a == b
}

/// Whether `s` begins with the character `c`.
pub fn starts_with_char(s: &str, c: char) -> (r: bool)
    ensures
        r == (s@.len() > 0 && s@[0] == c),
{
    let n = s.unicode_len();
    if n == 0 {
        false
    } else {
        s.get_char(0) == c
    }
}

/// The text of `s` without its first character.
pub fn drop_first_char(s: &str) -> (r: String)
    requires
        s@.len() > 0,
    ensures
        r@ == s@.drop_first(),
{
    let n = s.unicode_len();
    let rest = s.substring_char(1, n);
    let r = rest.to_string();
    assert(r@ =~= s@.drop_first());
    r
}

/// The digit character for a value below sixteen, lowercase.
pub open spec fn digit_char(d: nat) -> char {
    if d == 0 { '0' }
    else if d == 1 { '1' }
    else if d == 2 { '2' }
    else if d == 3 { '3' }
    else if d == 4 { '4' }
    else if d == 5 { '5' }
    else if d == 6 { '6' }
    else if d == 7 { '7' }
    else if d == 8 { '8' }
    else if d == 9 { '9' }
    else if d == 10 { 'a' }
    else if d == 11 { 'b' }
    else if d == 12 { 'c' }
    else if d == 13 { 'd' }
    else if d == 14 { 'e' }
    else { 'f' }
}

/// A run of `k` copies of the character `c`.
pub open spec fn repeat_char(c: char, k: nat) -> Seq<char> {
    Seq::new(k, |i: int| c)
}

/// Digits of `n` in the given base, most significant first, left-padded to
/// `width` characters with `pad` (no padding when the digits are wider).
pub open spec fn padded_digits(n: nat, base: nat, width: nat, pad: char) -> Seq<char>
    recommends
        base >= 2,
    decreases n,
{
    if base < 2 {
        Seq::empty()
    } else if n < base {
        repeat_char(pad, if width > 1 { (width - 1) as nat } else { 0 }).push(digit_char(n))
    } else {
        proof {
            assert(n / base < n) by (nonlinear_arith)
                requires
                    base >= 2,
                    n >= base,
            ;
        }
        padded_digits(n / base, base, if width > 1 { (width - 1) as nat } else { 0 }, pad).push(
            digit_char(n % base),
        )
    }
}

/// Decimal text of a natural number.
pub open spec fn decimal(n: nat) -> Seq<char> {
    padded_digits(n, 10, 0, ' ')
}

/// Decimal text of an integer, with a leading minus sign when negative.
pub open spec fn signed_decimal(n: int) -> Seq<char> {
    if n < 0 {
        seq!['-'] + decimal((-n) as nat)
    } else {
        decimal(n as nat)
    }
}

fn digit_str(d: u64) -> (r: &'static str)
    requires
        d < 16,
    ensures
        r@ == seq![digit_char(d as nat)],
{
    proof {
        reveal_strlit("0");
        reveal_strlit("1");
        reveal_strlit("2");
        reveal_strlit("3");
        reveal_strlit("4");
        reveal_strlit("5");
        reveal_strlit("6");
        reveal_strlit("7");
        reveal_strlit("8");
        reveal_strlit("9");
        reveal_strlit("a");
        reveal_strlit("b");
        reveal_strlit("c");
        reveal_strlit("d");
        reveal_strlit("e");
        reveal_strlit("f");
    }
    let r = if d == 0 { "0" }
    else if d == 1 { "1" }
    else if d == 2 { "2" }
    else if d == 3 { "3" }
    else if d == 4 { "4" }
    else if d == 5 { "5" }
    else if d == 6 { "6" }
    else if d == 7 { "7" }
    else if d == 8 { "8" }
    else if d == 9 { "9" }
    else if d == 10 { "a" }
    else if d == 11 { "b" }
    else if d == 12 { "c" }
    else if d == 13 { "d" }
    else if d == 14 { "e" }
    else { "f" };
    assert(r@ =~= seq![digit_char(d as nat)]);
    r
}

fn pad_str(pad: char) -> (r: String)
    requires
        pad == '0' || pad == ' ',
    ensures
        r@ == seq![pad],
{
    proof {
        reveal_strlit("0");
        reveal_strlit(" ");
    }
    if pad == '0' {
        let r = String::from_str("0");
        assert(r@ =~= seq![pad]);
        r
    } else {
        let r = String::from_str(" ");
        assert(r@ =~= seq![pad]);
        r
    }
}

fn push_repeat(out: &mut String, pad: char, k: u64)
    requires
        pad == '0' || pad == ' ',
    ensures
        final(out)@ == old(out)@ + repeat_char(pad, k as nat),
{
    let p = pad_str(pad);
    let mut i: u64 = 0;
    while i < k
        invariant
            i <= k,
            p@ == seq![pad],
            out@ == old(out)@ + repeat_char(pad, i as nat),
        decreases k - i,
    {
        out.append(p.as_str());
        i = i + 1;
        assert(out@ =~= old(out)@ + repeat_char(pad, i as nat));
    }
}

/// Appends the digits of `n` in base `base`, left-padded to `width`.
pub fn push_padded_digits(out: &mut String, n: u64, base: u64, width: u64, pad: char)
    requires
        2 <= base <= 16,
        pad == '0' || pad == ' ',
    ensures
        final(out)@ == old(out)@ + padded_digits(n as nat, base as nat, width as nat, pad),
    decreases n,
{
    let w = if width > 1 { width - 1 } else { 0 };
    if n < base {
        push_repeat(out, pad, w);
        out.append(digit_str(n));
        assert(out@ =~= old(out)@ + padded_digits(n as nat, base as nat, width as nat, pad));
    } else {
        assert(n / base < n) by (nonlinear_arith)
            requires
                base >= 2,
                n >= base,
        ;
        push_padded_digits(out, n / base, base, w, pad);
        out.append(digit_str(n % base));
        assert(out@ =~= old(out)@ + padded_digits(n as nat, base as nat, width as nat, pad));
    }
}

/// Appends the decimal text of an unsigned number.
pub fn push_decimal(out: &mut String, n: u64)
    ensures
        final(out)@ == old(out)@ + decimal(n as nat),
{
    push_padded_digits(out, n, 10, 0, ' ');
}

/// Appends the decimal text of a signed number.
pub fn push_signed_decimal(out: &mut String, n: i64)
    ensures
        final(out)@ == old(out)@ + signed_decimal(n as int),
{
    proof {
        reveal_strlit("-");
    }
    if n < 0 {
        out.append("-");
        let m: u64 = if n == i64::MIN { 9223372036854775808u64 } else { (-n) as u64 };
        push_decimal(out, m);
        assert(out@ =~= old(out)@ + signed_decimal(n as int));
    } else {
        push_decimal(out, n as u64);
    }
}

} // verus!
