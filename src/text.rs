use vstd::prelude::*;
use vstd::string::StringExecFns;

use crate::strides::Strides;

verus! {

pub open spec fn digit_char(d: int) -> char {
    seq!['0', '1', '2', '3', '4', '5', '6', '7', '8', '9'][d]
}

/// Decimal digits of a natural number, most significant first, no leading zeros.
pub open spec fn decimal_nat(n: nat) -> Seq<char>
    decreases n,
{
    if n < 10 {
        seq![digit_char(n as int)]
    } else {
        decimal_nat(n / 10) + seq![digit_char((n % 10) as int)]
    }
}

/// Decimal text of an integer, with a leading `-` when it is negative.
pub open spec fn decimal(n: int) -> Seq<char> {
    if n < 0 {
        seq!['-'] + decimal_nat((-n) as nat)
    } else {
        decimal_nat(n as nat)
    }
}

/// `x` followed by each stride, for the strides after the first.
pub open spec fn tail_text(s: Seq<isize>) -> Seq<char>
    decreases s.len(),
{
    if s.len() == 0 {
        Seq::empty()
    } else {
        tail_text(s.drop_last()) + seq!['x'] + decimal(s.last() as int)
    }
}

/// Text of a stride vector: `[12x4x1]`; the empty vector reads `[0]`.
pub open spec fn strides_text(s: Seq<isize>) -> Seq<char> {
    if s.len() == 0 {
        seq!['['] + decimal(0) + seq![']']
    } else {
        seq!['['] + decimal(s[0] as int) + tail_text(s.drop_first()) + seq![']']
    }
}

fn digit_str(d: u64) -> (r: &'static str)
    requires
        d < 10,
    ensures
        r@ == seq![digit_char(d as int)],
{
    proof {
        reveal_strlit("0");
        reveal_strlit("1");
        reveal_strlit("2");
        reveal_strlit("3");
        reveal_strlit("4");
        reveal_strlit("5");
        reveal_strlit("6");
        reveal_strlit("7");
        reveal_strlit("8");
        reveal_strlit("9");
    }
    if d == 0 {
        "0"
    } else if d == 1 {
        "1"
    } else if d == 2 {
        "2"
    } else if d == 3 {
        "3"
    } else if d == 4 {
        "4"
    } else if d == 5 {
        "5"
    } else if d == 6 {
        "6"
    } else if d == 7 {
        "7"
    } else if d == 8 {
        "8"
    } else {
        "9"
    }
}

fn push_decimal(out: &mut String, n: u64)
    ensures
        final(out)@ == old(out)@ + decimal_nat(n as nat),
    decreases n,
{
    if n >= 10 {
        push_decimal(out, n / 10);
    }
    out.append(digit_str(n % 10));
    assert(final(out)@ =~= old(out)@ + decimal_nat(n as nat));
}

fn push_signed(out: &mut String, x: isize)
    ensures
        final(out)@ == old(out)@ + decimal(x as int),
{
    if x < 0 {
        proof {
            reveal_strlit("-");
        }
        out.append("-");
        push_decimal(out, (-(x as i128)) as u64);
        assert(final(out)@ =~= old(out)@ + decimal(x as int));
    } else {
        push_decimal(out, x as u64);
    }
}

impl Strides {
    /// The strides as text, separated by `x` inside brackets: `[12x4x1]`.
    pub fn describe(&self) -> (r: String)
        ensures
            r@ == strides_text(self@),
    {
        proof {
            reveal_strlit("[");
            reveal_strlit("]");
        }
        let n = self.rank();
        let ghost v = self@;
        let mut out = String::from_str("[");
        if n == 0 {
            push_signed(&mut out, 0);
        } else {
            push_signed(&mut out, self.get(0));
        }
        let ghost head = out@;
        let mut i: usize = 1;
        while i < n
            invariant
                1 <= i,
                n == v.len(),
                v == self@,
                i <= n || n == 0,
                n > 0 ==> out@ == head + tail_text(v.subrange(1, i as int)),
                n == 0 ==> out@ == head,
            decreases n - i,
        {
            let ghost before = out@;
            out.append("x");
            push_signed(&mut out, self.get(i));
            proof {
                let t = v.subrange(1, i + 1);
                assert(t.drop_last() =~= v.subrange(1, i as int));
                assert(t.last() == v[i as int]);
                assert(tail_text(t) == tail_text(t.drop_last()) + seq!['x'] + decimal(t.last() as int));
                reveal_strlit("x");
                assert(out@ =~= before + seq!['x'] + decimal(v[i as int] as int));
                assert(out@ =~= head + tail_text(t));
            }
            i = i + 1;
        }
        out.append("]");
        proof {
            if n > 0 {
                assert(v.subrange(1, n as int) =~= v.drop_first());
            }
            assert(out@ =~= strides_text(self@));
        }
        out
    }
}

} // verus!
