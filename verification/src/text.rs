use vstd::prelude::*;

verus! {

/// The decimal digit character for `d < 10`.
pub open spec fn digit_char(d: nat) -> char {
    if d == 0 {
        '0'
    } else if d == 1 {
        '1'
    } else if d == 2 {
        '2'
    } else if d == 3 {
        '3'
    } else if d == 4 {
        '4'
    } else if d == 5 {
        '5'
    } else if d == 6 {
        '6'
    } else if d == 7 {
        '7'
    } else if d == 8 {
        '8'
    } else {
        '9'
    }
}

/// Decimal representation of `n`, most significant digit first, without leading zeros.
pub open spec fn decimal(n: nat) -> Seq<char>
    decreases n,
{
    if n < 10 {
        seq![digit_char(n)]
    } else {
        decimal(n / 10).push(digit_char(n % 10))
    }
}

fn digit_str(d: u64) -> (r: &'static str)
    requires
        d < 10,
    ensures
        r@ == seq![digit_char(d as nat)],
{
    if d == 0 {
        proof { reveal_strlit("0"); }
        "0"
    } else if d == 1 {
        proof { reveal_strlit("1"); }
        "1"
    } else if d == 2 {
        proof { reveal_strlit("2"); }
        "2"
    } else if d == 3 {
        proof { reveal_strlit("3"); }
        "3"
    } else if d == 4 {
        proof { reveal_strlit("4"); }
        "4"
    } else if d == 5 {
        proof { reveal_strlit("5"); }
        "5"
    } else if d == 6 {
        proof { reveal_strlit("6"); }
        "6"
    } else if d == 7 {
        proof { reveal_strlit("7"); }
        "7"
    } else if d == 8 {
        proof { reveal_strlit("8"); }
        "8"
    } else {
        proof { reveal_strlit("9"); }
        "9"
    }
}

/// The decimal representation of `n`.
pub fn decimal_string(n: u64) -> (r: String)
    ensures
        r@ == decimal(n as nat),
{
    wide_decimal_string(n as u128)
}

/// The decimal representation of a 128-bit `n`.
pub fn wide_decimal_string(n: u128) -> (r: String)
    ensures
        r@ == decimal(n as nat),
    decreases n,
{
    if n < 10 {
        String::from_str(digit_str(n as u64))
    } else {
        let mut s = wide_decimal_string(n / 10);
        s.append(digit_str((n % 10) as u64));
        s
    }
}

/// `prefix` followed by the decimal representation of `n`.
pub fn with_number(prefix: &str, n: u64) -> (r: String)
    ensures
        r@ == prefix@ + decimal(n as nat),
{
    let mut s = String::from_str(prefix);
    let digits = decimal_string(n);
    s.append(digits.as_str());
    s
}

/// The concatenation of `a` and `b`.
pub fn concat(a: &str, b: &str) -> (r: String)
    ensures
        r@ == a@ + b@,
{
    let mut s = String::from_str(a);
    s.append(b);
    s
}

/// `dims` as comma-separated decimals.
pub open spec fn joined(dims: Seq<usize>) -> Seq<char>
    decreases dims.len(),
{
    if dims.len() == 0 {
        Seq::empty()
    } else if dims.len() == 1 {
        decimal(dims[0] as nat)
    } else {
        joined(dims.drop_last()) + ", "@ + decimal(dims.last() as nat)
    }
}

/// `dims` written as a list, e.g. `[1, 3, 224, 224]`.
pub open spec fn dims_text(dims: Seq<usize>) -> Seq<char> {
    "["@ + joined(dims) + "]"@
}

/// Writes `dims` as a bracketed, comma-separated list.
pub fn format_dims(dims: &[usize]) -> (r: String)
    ensures
        r@ == dims_text(dims@),
{
    let mut s = String::from_str("[");
    let n = dims.len();
    for i in 0..n
        invariant
            n == dims@.len(),
            s@ == "["@ + joined(dims@.take(i as int)),
    {
        let ghost before = s@;
        if i > 0 {
            s.append(", ");
        }
        let d = decimal_string(dims[i] as u64);
        s.append(d.as_str());
        proof {
            let t = dims@.take(i + 1);
            assert(t.drop_last() =~= dims@.take(i as int));
            assert(t.last() == dims@[i as int]);
            if i == 0 {
                assert(t.len() == 1);
                assert(joined(dims@.take(0)) =~= Seq::<char>::empty());
                assert(s@ =~= "["@ + joined(t));
            } else {
                assert(s@ =~= "["@ + joined(t));
            }
        }
    }
    assert(dims@.take(n as int) =~= dims@);
    s.append("]");
    s
}

} // verus!
