//! Decimal numbers and padding as strings.

use vstd::prelude::*;
use vstd::string::StringExecFns;

verus! {

/// The decimal digit character of `d` (0–9).
pub open spec fn digit_char(d: int) -> char {
    if d == 0 {
        '0'
    } else if d == 1 {
        '1'
    } else if d == 2 {
        '2'
    } else if d == 3 {
        '3'
    } else if d == 4 {
        '4'
    } else if d == 5 {
        '5'
    } else if d == 6 {
        '6'
    } else if d == 7 {
        '7'
    } else if d == 8 {
        '8'
    } else {
        '9'
    }
}

/// Decimal digits of `n`, no leading zeros.
pub open spec fn decimal(n: nat) -> Seq<char>
    decreases n,
{
    if n < 10 {
        seq![digit_char(n as int)]
    } else {
        decimal(n / 10) + seq![digit_char((n % 10) as int)]
    }
}

/// Decimal form of a signed number: a `-` before the digits of a negative one.
pub open spec fn signed_decimal(n: int) -> Seq<char> {
    if n < 0 {
        seq!['-'] + decimal((-n) as nat)
    } else {
        decimal(n as nat)
    }
}

/// `n` spaces.
pub open spec fn spaces(n: nat) -> Seq<char> {
    Seq::new(n, |i: int| ' ')
}

fn digit_str(d: u32) -> (res: &'static str)
    requires
        d < 10,
    ensures
        res@ == seq![digit_char(d as int)],
{
    proof {
        reveal_strlit("0");
        reveal_strlit("1");
        reveal_strlit("2");
        reveal_strlit("3");
        reveal_strlit("4");
        reveal_strlit("5");
        reveal_strlit("6");
        reveal_strlit("7");
        reveal_strlit("8");
        reveal_strlit("9");
    }
    match d {
        0 => "0",
        1 => "1",
        2 => "2",
        3 => "3",
        4 => "4",
        5 => "5",
        6 => "6",
        7 => "7",
        8 => "8",
        _ => "9",
    }
}

/// Decimal digits of an unsigned number (what `to_string` writes).
pub fn u64_to_decimal(n: u64) -> (res: String)
    ensures
        res@ == decimal(n as nat),
{
    // digits from the least significant one
    let mut rev: Vec<u32> = Vec::new();
    let mut m = n;
    while m >= 10
        invariant
            m <= n,
            forall|i: int| 0 <= i < rev@.len() ==> rev@[i] < 10,
            decimal(n as nat) == if rev@.len() == 0 {
                decimal(n as nat)
            } else {
                decimal(m as nat) + Seq::new(rev@.len(), |i: int| digit_char(rev@[rev@.len() - 1 - i] as int))
            },
            rev@.len() > 0 ==> m >= 1,
            rev@.len() == 0 ==> m == n,
        decreases m,
    {
        let d = (m % 10) as u32;
        let ghost old_rev = rev@;
        rev.push(d);
        let ghost old_m = m;
        m = m / 10;
        proof {
            let tail_old = Seq::new(old_rev.len(), |i: int| digit_char(old_rev[old_rev.len() - 1 - i] as int));
            let tail_new = Seq::new(rev@.len(), |i: int| digit_char(rev@[rev@.len() - 1 - i] as int));
            assert(tail_new =~= seq![digit_char(d as int)] + tail_old);
            assert(decimal(old_m as nat) == decimal(m as nat) + seq![digit_char((old_m % 10) as int)]);
            assert((decimal(m as nat) + seq![digit_char(d as int)]) + tail_old =~= decimal(m as nat) + tail_new);
        }
    }
    let mut res = String::new();
    res.append(digit_str(m as u32));
    let mut k = rev.len();
    let ghost first = decimal(m as nat);
    assert(first == seq![digit_char(m as int)]);
    while k > 0
        invariant
            k <= rev@.len(),
            forall|i: int| 0 <= i < rev@.len() ==> rev@[i] < 10,
            decimal(n as nat) == if rev@.len() == 0 {
                decimal(n as nat)
            } else {
                first + Seq::new(rev@.len(), |i: int| digit_char(rev@[rev@.len() - 1 - i] as int))
            },
            rev@.len() == 0 ==> res@ == decimal(n as nat),
            res@ == first + Seq::new((rev@.len() - k) as nat, |i: int| digit_char(rev@[rev@.len() - 1 - i] as int)),
        decreases k,
    {
        k -= 1;
        let ghost before = res@;
        res.append(digit_str(rev[k]));
        proof {
            let cnt = (rev@.len() - k) as nat;
            assert(Seq::new(cnt, |i: int| digit_char(rev@[rev@.len() - 1 - i] as int)) =~= Seq::new(
                (cnt - 1) as nat,
                |i: int| digit_char(rev@[rev@.len() - 1 - i] as int),
            ) + seq![digit_char(rev@[k as int] as int)]);
        }
    }
    proof {
        if rev@.len() > 0 {
            assert(res@ =~= decimal(n as nat));
        }
    }
    res
}

/// Decimal form of a signed number.
pub fn i64_to_decimal(n: i64) -> (res: String)
    requires
        n > i64::MIN,
    ensures
        res@ == signed_decimal(n as int),
{
    if n < 0 {
        let mut res = String::new();
        res.append("-");
        proof {
            reveal_strlit("-");
        }
        let digits = u64_to_decimal((-n) as u64);
        res.append(digits.as_str());
        res
    } else {
        u64_to_decimal(n as u64)
    }
}

/// `n` spaces.
pub fn spaces_string(n: usize) -> (res: String)
    ensures
        res@ == spaces(n as nat),
{
    let mut res = String::new();
    let mut i: usize = 0;
    while i < n
        invariant
            i <= n,
            res@ == spaces(i as nat),
        decreases n - i,
    {
        res.append(" ");
        proof {
            reveal_strlit(" ");
        }
        i += 1;
        assert(res@ =~= spaces(i as nat));
    }
    res
}

} // verus!
