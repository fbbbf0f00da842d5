//! Text that the blog builds: decimal numbers and the paths that hold them.

use vstd::prelude::*;
use vstd::string::*;

verus! {

/// The character of a decimal digit `d` (0 through 9).
pub open spec fn digit_char(d: int) -> char {
    if d == 0 { '0' }
    else if d == 1 { '1' }
    else if d == 2 { '2' }
    else if d == 3 { '3' }
    else if d == 4 { '4' }
    else if d == 5 { '5' }
    else if d == 6 { '6' }
    else if d == 7 { '7' }
    else if d == 8 { '8' }
    else { '9' }
}

/// The decimal digits of a natural number, most significant first, with no
/// leading zero (zero itself is `"0"`).
pub open spec fn nat_decimal(n: nat) -> Seq<char>
    decreases n,
{
    if n < 10 {
        seq![digit_char(n as int)]
    } else {
        nat_decimal(n / 10) + seq![digit_char((n % 10) as int)]
    }
}

/// The decimal form of an integer: a `-` in front of the digits of its
/// magnitude when it is negative.
pub open spec fn int_decimal(i: int) -> Seq<char> {
    if i < 0 {
        seq!['-'] + nat_decimal((-i) as nat)
    } else {
        nat_decimal(i as nat)
    }
}

fn digit_str(d: u32) -> (s: &'static str)
    requires
        d < 10,
    ensures
        s@ == seq![digit_char(d as int)],
{
    if d == 0 {
        proof { reveal_strlit("0"); }
        "0"
    } else if d == 1 {
        proof { reveal_strlit("1"); }
        "1"
    } else if d == 2 {
        proof { reveal_strlit("2"); }
        "2"
    } else if d == 3 {
        proof { reveal_strlit("3"); }
        "3"
    } else if d == 4 {
        proof { reveal_strlit("4"); }
        "4"
    } else if d == 5 {
        proof { reveal_strlit("5"); }
        "5"
    } else if d == 6 {
        proof { reveal_strlit("6"); }
        "6"
    } else if d == 7 {
        proof { reveal_strlit("7"); }
        "7"
    } else if d == 8 {
        proof { reveal_strlit("8"); }
        "8"
    } else {
        proof { reveal_strlit("9"); }
        "9"
    }
}

/// Appends the decimal digits of `n` to `out`.
pub fn push_decimal(out: &mut String, n: u32)
    ensures
        final(out)@ == old(out)@ + nat_decimal(n as nat),
    decreases n,
{
    if n >= 10 {
        push_decimal(out, n / 10);
    }
    out.append(digit_str(n % 10));
    assert(final(out)@ =~= old(out)@ + nat_decimal(n as nat));
}

/// The decimal form of `i`, as `format!("{}", i)` writes it.
pub fn i32_to_decimal(i: i32) -> (s: String)
    ensures
        s@ == int_decimal(i as int),
{
    let mut out = String::new();
    if i < 0 {
        proof { reveal_strlit("-"); }
        out.append("-");
        let magnitude: u32 = if i == i32::MIN { 2147483648u32 } else { (-i) as u32 };
        push_decimal(&mut out, magnitude);
    } else {
        push_decimal(&mut out, i as u32);
    }
    out
}

/// The number that a string of decimal digits stands for, read in base 10,
/// each character worth its distance from `'0'`.
pub open spec fn decimal_value(s: Seq<char>) -> int
    decreases s.len(),
{
    if s.len() == 0 {
        0
    } else {
        decimal_value(s.drop_last()) * 10 + (s.last() as int - '0' as int)
    }
}

/// Each digit character is `'0'` plus the digit's value.
pub proof fn lemma_digit_char_value(d: int)
    requires
        0 <= d < 10,
    ensures
        digit_char(d) as int == '0' as int + d,
        '0' <= digit_char(d) <= '9',
{
}

/// The decimal form of a natural number is made of digit characters only,
/// starts with `0` only for zero itself, and, read back in base 10, gives the
/// number again.
pub proof fn lemma_nat_decimal_reads_back(n: nat)
    ensures
        decimal_value(nat_decimal(n)) == n,
        forall|k: int| 0 <= k < nat_decimal(n).len() ==> '0' <= #[trigger] nat_decimal(n)[k] <= '9',
        nat_decimal(n)[0] == '0' ==> n == 0,
    decreases n,
{
    if n < 10 {
        lemma_digit_char_value(n as int);
        assert(nat_decimal(n).drop_last() =~= Seq::<char>::empty());
        assert(decimal_value(Seq::<char>::empty()) == 0);
        assert(decimal_value(nat_decimal(n)) == 0 * 10 + (digit_char(n as int) as int - '0' as int));
    } else {
        lemma_nat_decimal_reads_back(n / 10);
        lemma_digit_char_value((n % 10) as int);
        assert(nat_decimal(n).drop_last() =~= nat_decimal(n / 10));
        assert(nat_decimal(n).last() == digit_char((n % 10) as int));
        assert(decimal_value(nat_decimal(n)) == (n / 10) as int * 10 + (n % 10) as int);
        assert(n == (n / 10) * 10 + n % 10);
    }
}

/// The decimal form of an integer means that integer: a non-negative one is
/// its digits, read back in base 10; a negative one is a `-` followed by the
/// digits of its magnitude.
pub proof fn lemma_int_decimal_reads_back(i: int)
    ensures
        i >= 0 ==> decimal_value(int_decimal(i)) == i,
        i < 0 ==> int_decimal(i)[0] == '-' && decimal_value(int_decimal(i).drop_first()) == -i,
        forall|k: int| (if i < 0 { 1int } else { 0int }) <= k < int_decimal(i).len() ==>
            '0' <= #[trigger] int_decimal(i)[k] <= '9',
{
    if i >= 0 {
        lemma_nat_decimal_reads_back(i as nat);
    } else {
        lemma_nat_decimal_reads_back((-i) as nat);
        let digits = nat_decimal((-i) as nat);
        assert(int_decimal(i).drop_first() =~= digits);
        assert forall|k: int| 1 <= k < int_decimal(i).len() implies '0' <= #[trigger] int_decimal(i)[k] <= '9' by {
            assert(int_decimal(i)[k] == digits[k - 1]);
        }
    }
}

proof fn lemma_digit_char_injective(a: int, b: int)
    requires
        0 <= a < 10,
        0 <= b < 10,
        digit_char(a) == digit_char(b),
    ensures
        a == b,
{
}

proof fn lemma_nat_decimal_shape(n: nat)
    ensures
        nat_decimal(n).len() >= 1,
        n < 10 <==> nat_decimal(n).len() == 1,
        nat_decimal(n)[0] != '-',
    decreases n,
{
    if n >= 10 {
        lemma_nat_decimal_shape(n / 10);
    }
}

proof fn lemma_nat_decimal_injective(n: nat, m: nat)
    requires
        nat_decimal(n) == nat_decimal(m),
    ensures
        n == m,
    decreases n,
{
    lemma_nat_decimal_shape(n);
    lemma_nat_decimal_shape(m);
    if n < 10 && m < 10 {
        assert(nat_decimal(n)[0] == digit_char(n as int));
        lemma_digit_char_injective(n as int, m as int);
    } else if n >= 10 && m >= 10 {
        let dn = nat_decimal(n);
        let dm = nat_decimal(m);
        assert(dn.last() == digit_char((n % 10) as int));
        assert(dm.last() == digit_char((m % 10) as int));
        lemma_digit_char_injective((n % 10) as int, (m % 10) as int);
        assert(dn.drop_last() =~= nat_decimal(n / 10));
        assert(dm.drop_last() =~= nat_decimal(m / 10));
        lemma_nat_decimal_injective(n / 10, m / 10);
    }
}

/// Two different integers never share a decimal form.
pub proof fn lemma_int_decimal_injective(a: int, b: int)
    requires
        a != b,
    ensures
        int_decimal(a) != int_decimal(b),
{
    if int_decimal(a) == int_decimal(b) {
        if a < 0 && b < 0 {
            assert(int_decimal(a).drop_first() =~= nat_decimal((-a) as nat));
            assert(int_decimal(b).drop_first() =~= nat_decimal((-b) as nat));
            lemma_nat_decimal_injective((-a) as nat, (-b) as nat);
        } else if a >= 0 && b >= 0 {
            lemma_nat_decimal_injective(a as nat, b as nat);
        } else if a < 0 {
            lemma_nat_decimal_shape(b as nat);
            assert(int_decimal(a)[0] == '-');
        } else {
            lemma_nat_decimal_shape(a as nat);
            assert(int_decimal(b)[0] == '-');
        }
    }
}

} // verus!
