use vstd::prelude::*;
use vstd::string::StringExecFns;

verus! {

/// The character of one decimal digit.
pub open spec fn digit_char(d: int) -> char {
    if d == 0 {
        '0'
    } else if d == 1 {
        '1'
    } else if d == 2 {
        '2'
    } else if d == 3 {
        '3'
    } else if d == 4 {
        '4'
    } else if d == 5 {
        '5'
    } else if d == 6 {
        '6'
    } else if d == 7 {
        '7'
    } else if d == 8 {
        '8'
    } else {
        '9'
    }
}

/// The decimal numeral of a natural number, without leading zeros.
pub open spec fn decimal_nat(n: nat) -> Seq<char>
    decreases n,
{
    if n < 10 {
        seq![digit_char(n as int)]
    } else {
        decimal_nat(n / 10).push(digit_char((n % 10) as int))
    }
}

/// The decimal numeral of an integer, with a minus sign where it is negative.
pub open spec fn decimal(n: int) -> Seq<char> {
    if n < 0 {
        seq!['-'] + decimal_nat((-n) as nat)
    } else {
        decimal_nat(n as nat)
    }
}

/// A numeral is never empty, has two characters or more from ten on, and
/// holds digits only.
pub proof fn lemma_decimal_nat_digits(n: nat)
    ensures
        decimal_nat(n).len() >= 1,
        n >= 10 ==> decimal_nat(n).len() >= 2,
        forall|i: int| 0 <= i < decimal_nat(n).len() ==> '0' <= #[trigger] decimal_nat(n)[i] <= '9',
    decreases n,
{
    if n >= 10 {
        lemma_decimal_nat_digits(n / 10);
    }
}

/// Two natural numbers with the same numeral are the same number.
pub proof fn lemma_decimal_nat_injective(a: nat, b: nat)
    requires
        decimal_nat(a) == decimal_nat(b),
    ensures
        a == b,
    decreases a,
{
    lemma_decimal_nat_digits(a);
    lemma_decimal_nat_digits(b);
    if a < 10 || b < 10 {
        assert(decimal_nat(a).len() == 1);
        assert(a < 10 && b < 10);
        assert(decimal_nat(a)[0] == digit_char(a as int));
        assert(decimal_nat(b)[0] == digit_char(b as int));
    } else {
        let x = decimal_nat(a / 10);
        let y = decimal_nat(b / 10);
        let da = digit_char((a % 10) as int);
        let db = digit_char((b % 10) as int);
        assert(x.push(da).len() == y.push(db).len());
        assert(x.push(da).last() == y.push(db).last());
        assert(x.push(da).drop_last() =~= x);
        assert(y.push(db).drop_last() =~= y);
        assert(x == y);
        assert(da == db);
        lemma_decimal_nat_injective(a / 10, b / 10);
        assert(a % 10 == b % 10);
        assert(a == 10 * (a / 10) + a % 10);
        assert(b == 10 * (b / 10) + b % 10);
    }
}

/// Two integers with the same numeral are the same integer.
pub proof fn lemma_decimal_injective(a: int, b: int)
    requires
        decimal(a) == decimal(b),
    ensures
        a == b,
{
    let na = (if a < 0 { -a } else { a }) as nat;
    let nb = (if b < 0 { -b } else { b }) as nat;
    lemma_decimal_nat_digits(na);
    lemma_decimal_nat_digits(nb);
    if a < 0 && b < 0 {
        let s = seq!['-'] + decimal_nat(na);
        let t = seq!['-'] + decimal_nat(nb);
        assert(s.subrange(1, s.len() as int) =~= decimal_nat(na));
        assert(t.subrange(1, t.len() as int) =~= decimal_nat(nb));
        lemma_decimal_nat_injective(na, nb);
    } else if a < 0 {
        assert(decimal(a)[0] == '-');
        assert(decimal(b)[0] == decimal_nat(nb)[0]);
    } else if b < 0 {
        assert(decimal(b)[0] == '-');
        assert(decimal(a)[0] == decimal_nat(na)[0]);
    } else {
        lemma_decimal_nat_injective(na, nb);
    }
}

fn digit_str(d: u64) -> (s: &'static str)
    requires
        d < 10,
    ensures
        s@ == seq![digit_char(d as int)],
{
    proof {
        reveal_strlit("0");
        reveal_strlit("1");
        reveal_strlit("2");
        reveal_strlit("3");
        reveal_strlit("4");
        reveal_strlit("5");
        reveal_strlit("6");
        reveal_strlit("7");
        reveal_strlit("8");
        reveal_strlit("9");
    }
    let s = if d == 0 {
        "0"
    } else if d == 1 {
        "1"
    } else if d == 2 {
        "2"
    } else if d == 3 {
        "3"
    } else if d == 4 {
        "4"
    } else if d == 5 {
        "5"
    } else if d == 6 {
        "6"
    } else if d == 7 {
        "7"
    } else if d == 8 {
        "8"
    } else {
        "9"
    };
    assert(s@ =~= seq![digit_char(d as int)]);
    s
}

/// Writes a natural number as its decimal numeral.
pub fn natural_to_string(n: u64) -> (s: String)
    ensures
        s@ == decimal_nat(n as nat),
    decreases n,
{
    if n < 10 {
        String::from_str(digit_str(n))
    } else {
        let mut s = natural_to_string(n / 10);
        s.append(digit_str(n % 10));
        assert(decimal_nat((n / 10) as nat) + seq![digit_char((n % 10) as int)]
            =~= decimal_nat((n / 10) as nat).push(digit_char((n % 10) as int)));
        s
    }
}

/// Writes an integer as its decimal numeral.
pub fn integer_to_string(n: i64) -> (s: String)
    ensures
        s@ == decimal(n as int),
{
    if n < 0 {
        let magnitude: u64 = (0 - (n as i128)) as u64;
        let mut s = String::from_str("-");
        proof {
            reveal_strlit("-");
        }
        let digits = natural_to_string(magnitude);
        s.append(digits.as_str());
        assert(s@ =~= seq!['-'] + decimal_nat((-n) as nat));
        s
    } else {
        natural_to_string(n as u64)
    }
}

} // verus!
