//! Decimal text of integers, as `to_string` writes them.
use vstd::prelude::*;

verus! {

/// The ASCII character of a decimal digit.
pub open spec fn digit_char(d: nat) -> char
    recommends
        d < 10,
{
    ((d + 48) as u32) as char
}

/// The decimal digits of `n`, most significant first, with no leading zero.
pub open spec fn nat_decimal(n: nat) -> Seq<char>
    decreases n,
{
    if n < 10 {
        seq![digit_char(n)]
    } else {
        nat_decimal(n / 10).push(digit_char(n % 10))
    }
}

/// The decimal text of a signed integer: a minus sign before the digits of
/// its magnitude when it is negative.
pub open spec fn int_decimal(n: int) -> Seq<char> {
    if n < 0 {
        seq!['-'] + nat_decimal((-n) as nat)
    } else {
        nat_decimal(n as nat)
    }
}

/// The one-character text of a decimal digit.
fn digit_str(d: u64) -> (r: &'static str)
    requires
        d < 10,
    ensures
        r@ == seq![digit_char(d as nat)],
{
    proof {
        reveal_strlit("0");
        reveal_strlit("1");
        reveal_strlit("2");
        reveal_strlit("3");
        reveal_strlit("4");
        reveal_strlit("5");
        reveal_strlit("6");
        reveal_strlit("7");
        reveal_strlit("8");
        reveal_strlit("9");
    }
    if d == 0 {
        "0"
    } else if d == 1 {
        "1"
    } else if d == 2 {
        "2"
    } else if d == 3 {
        "3"
    } else if d == 4 {
        "4"
    } else if d == 5 {
        "5"
    } else if d == 6 {
        "6"
    } else if d == 7 {
        "7"
    } else if d == 8 {
        "8"
    } else {
        "9"
    }
}

/// Appends the decimal digits of `n` to `s`.
pub fn push_decimal(s: &mut String, n: u64)
    ensures
        final(s)@ == old(s)@ + nat_decimal(n as nat),
    decreases n,
{
    if n >= 10 {
        push_decimal(s, n / 10);
    }
    let ghost before = s@;
    s.append(digit_str(n % 10));
    proof {
        if n >= 10 {
            assert(old(s)@ + nat_decimal(n as nat) =~= before + seq![digit_char((n % 10) as nat)]);
        } else {
            assert(before == old(s)@);
        }
    }
}

/// The decimal text of `n`, as `n.to_string()` gives it.
pub fn u64_to_decimal(n: u64) -> (r: String)
    ensures
        r@ == nat_decimal(n as nat),
{
    let mut s = String::new();
    push_decimal(&mut s, n);
    assert(s@ =~= nat_decimal(n as nat));
    s
}

/// The decimal text of `n`, as `n.to_string()` gives it: a minus sign
/// before the digits of a negative number.
pub fn i32_to_decimal(n: i32) -> (r: String)
    ensures
        r@ == int_decimal(n as int),
{
    let mut s = String::new();
    if n < 0 {
        s.append("-");
        let magnitude: i64 = -(n as i64);
        push_decimal(&mut s, magnitude as u64);
        proof {
            reveal_strlit("-");
        }
        assert(s@ =~= int_decimal(n as int));
    } else {
        push_decimal(&mut s, n as u64);
        assert(s@ =~= int_decimal(n as int));
    }
    s
}

proof fn lemma_nat_decimal_shape(n: nat)
    ensures
        nat_decimal(n).len() >= 1,
        n >= 10 ==> nat_decimal(n).len() >= 2,
        forall|i: int| 0 <= i < nat_decimal(n).len() ==> '0' <= #[trigger] nat_decimal(n)[i] <= '9',
    decreases n,
{
    if n >= 10 {
        lemma_nat_decimal_shape(n / 10);
        let d = nat_decimal(n);
        assert forall|i: int| 0 <= i < d.len() implies '0' <= #[trigger] d[i] <= '9' by {
            if i < d.len() - 1 {
                assert(d[i] == nat_decimal(n / 10)[i]);
            }
        }
    }
}

proof fn lemma_digit_char_injective(a: nat, b: nat)
    requires
        a < 10,
        b < 10,
        digit_char(a) == digit_char(b),
    ensures
        a == b,
{
}

/// Different numbers have different decimal digits.
pub proof fn lemma_nat_decimal_injective(a: nat, b: nat)
    requires
        a != b,
    ensures
        nat_decimal(a) != nat_decimal(b),
    decreases a + b,
{
    lemma_nat_decimal_shape(a);
    lemma_nat_decimal_shape(b);
    if nat_decimal(a) == nat_decimal(b) {
        if a < 10 && b < 10 {
            assert(nat_decimal(a)[0] == nat_decimal(b)[0]);
            lemma_digit_char_injective(a, b);
        } else if a >= 10 && b >= 10 {
            let da = nat_decimal(a);
            let db = nat_decimal(b);
            assert(da.last() == db.last());
            assert(da.drop_last() =~= nat_decimal(a / 10));
            assert(db.drop_last() =~= nat_decimal(b / 10));
            lemma_digit_char_injective(a % 10, b % 10);
            if a / 10 != b / 10 {
                lemma_nat_decimal_injective(a / 10, b / 10);
            }
            assert(a == (a / 10) * 10 + a % 10);
            assert(b == (b / 10) * 10 + b % 10);
        }
    }
}

/// Different integers have different decimal texts.
pub proof fn lemma_int_decimal_injective(a: int, b: int)
    requires
        a != b,
    ensures
        int_decimal(a) != int_decimal(b),
{
    if a < 0 && b < 0 {
        lemma_nat_decimal_injective((-a) as nat, (-b) as nat);
        if int_decimal(a) == int_decimal(b) {
            assert(int_decimal(a).drop_first() =~= nat_decimal((-a) as nat));
            assert(int_decimal(b).drop_first() =~= nat_decimal((-b) as nat));
        }
    } else if a >= 0 && b >= 0 {
        lemma_nat_decimal_injective(a as nat, b as nat);
    } else if a < 0 {
        lemma_nat_decimal_shape(b as nat);
        assert(int_decimal(a)[0] == '-');
        assert('0' <= int_decimal(b)[0] <= '9');
    } else {
        lemma_nat_decimal_shape(a as nat);
        assert(int_decimal(b)[0] == '-');
        assert('0' <= int_decimal(a)[0] <= '9');
    }
}

} // verus!
