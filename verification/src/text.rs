use vstd::prelude::*;

verus! {

/// The decimal digit character for `d` (`0 <= d < 10`).
pub open spec fn digit_char(d: nat) -> char {
    (48 + d) as char
}

/// The decimal representation of `n`, without sign or leading zeros.
pub open spec fn decimal(n: nat) -> Seq<char>
    decreases n,
{
    if n < 10 {
        seq![digit_char(n)]
    } else {
        decimal(n / 10).push(digit_char(n % 10))
    }
}

/// Whether `c` is one of the digits `0` to `9`.
pub open spec fn is_digit(c: char) -> bool {
    48 <= (c as int) <= 57
}

/// The value of a digit character.
pub open spec fn digit_value(c: char) -> int {
    (c as int) - 48
}

/// The number that a string of decimal digits denotes, read from the most
/// significant digit to the least.
pub open spec fn numeral_value(s: Seq<char>) -> int
    decreases s.len(),
{
    if s.len() == 0 {
        0
    } else {
        numeral_value(s.drop_last()) * 10 + digit_value(s.last())
    }
}

/// Ten to the power `k`.
pub open spec fn pow10(k: nat) -> nat
    decreases k,
{
    if k == 0 {
        1
    } else {
        10 * pow10((k - 1) as nat)
    }
}

/// `decimal(n)` is the base-ten numeral of `n`: it is made of digits only,
/// reading them back gives `n`, it has no leading zero, and it has exactly as
/// many digits as `n` needs (`10^(len-1) <= n < 10^len` for more than one
/// digit).
pub proof fn lemma_decimal_is_base_ten_numeral(n: nat)
    ensures
        decimal(n).len() >= 1,
        forall|i: int| 0 <= i < decimal(n).len() ==> is_digit(#[trigger] decimal(n)[i]),
        numeral_value(decimal(n)) == n,
        decimal(n).len() > 1 ==> decimal(n)[0] != '0',
        n < pow10(decimal(n).len()),
        decimal(n).len() > 1 ==> pow10((decimal(n).len() - 1) as nat) <= n,
    decreases n,
{
    if n < 10 {
        let s = decimal(n);
        assert(s.drop_last() =~= Seq::<char>::empty());
        assert(numeral_value(Seq::<char>::empty()) == 0);
        assert(s.last() == digit_char(n));
        assert(digit_value(digit_char(n)) == n);
        assert(numeral_value(s) == numeral_value(s.drop_last()) * 10 + digit_value(s.last()));
        assert(pow10(1) == 10) by {
            assert(pow10(0) == 1);
        }
    } else {
        let m = n / 10;
        let r = n % 10;
        lemma_decimal_is_base_ten_numeral(m);
        let dm = decimal(m);
        let s = decimal(n);
        assert(s == dm.push(digit_char(r)));
        assert(s.drop_last() =~= dm);
        assert(digit_value(digit_char(r)) == r);
        assert(s.last() == digit_char(r));
        assert(numeral_value(s) == numeral_value(dm) * 10 + r);
        assert(n == m * 10 + r) by (nonlinear_arith)
            requires m == n / 10, r == n % 10;
        assert(m >= 1) by (nonlinear_arith)
            requires m == n / 10, n >= 10;
        assert forall|i: int| 0 <= i < s.len() implies is_digit(#[trigger] s[i]) by {
            if i < dm.len() {
                assert(s[i] == dm[i]);
            }
        }
        assert(s[0] == dm[0]);
        if dm.len() == 1 {
            assert(dm.drop_last() =~= Seq::<char>::empty());
            assert(numeral_value(Seq::<char>::empty()) == 0);
            assert(dm.last() == dm[0]);
            assert(numeral_value(dm) == numeral_value(dm.drop_last()) * 10 + digit_value(dm.last()));
            assert(numeral_value(dm) == digit_value(dm[0]));
        }
        let k = dm.len();
        assert(pow10(k + 1) == 10 * pow10(k));
        let pk = pow10(k);
        assert(n < pow10(k + 1)) by (nonlinear_arith)
            requires n == m * 10 + r, r < 10, m < pk, pow10(k + 1) == 10 * pk;
        if k > 1 {
            let pk1 = pow10((k - 1) as nat);
            assert(pow10(k) == 10 * pk1);
            assert(pow10(k) <= n) by (nonlinear_arith)
                requires n == m * 10 + r, r >= 0, pk1 <= m, pow10(k) == 10 * pk1;
        } else {
            assert(pow10(1) == 10) by {
                assert(pow10(0) == 1);
            }
        }
    }
}

/// `String::push`: appends one character at the end of the string.
#[verifier::external_body]
pub(crate) fn push_char(s: &mut String, c: char)
    ensures
        final(s)@ == old(s)@.push(c),
{
    s.push(c);
}

/// Appends the decimal representation of `n` to `out`.
pub fn push_decimal(out: &mut String, n: u32)
    ensures
        final(out)@ == old(out)@ + decimal(n as nat),
    decreases n,
{
    if n >= 10 {
        push_decimal(out, n / 10);
    }
    let d: u8 = (n % 10) as u8;
    let c: char = (48u8 + d) as char;
    push_char(out, c);
    proof {
        assert(c == digit_char((n % 10) as nat));
    }
}

} // verus!
