use vstd::prelude::*;

verus! {

/// The decimal digits of `n`, most significant first, as ASCII bytes.
pub open spec fn dec_digits(n: nat) -> Seq<u8>
    decreases n,
{
    if n < 10 {
        seq![(48 + n) as u8]
    } else {
        dec_digits(n / 10).push((48 + n % 10) as u8)
    }
}

/// Append the decimal digits of `n` to `out`, most significant first.
fn push_digits(n: u32, out: &mut Vec<u8>)
    ensures
        final(out)@ == old(out)@ + dec_digits(n as nat),
    decreases n,
{
    if n < 10 {
        out.push((48 + n) as u8);
        proof {
            assert(out@ =~= old(out)@ + dec_digits(n as nat));
        }
    } else {
        push_digits(n / 10, out);
        out.push((48 + n % 10) as u8);
        proof {
            assert(out@ =~= old(out)@ + dec_digits(n as nat));
        }
    }
}

/// The score rendered for the on-screen label: its decimal digits as ASCII
/// bytes, most significant first, with no sign and no leading zeroes.
pub fn score_label(score: u32) -> (r: Vec<u8>)
    ensures
        r@ == dec_digits(score as nat),
{
    let mut out: Vec<u8> = Vec::new();
    push_digits(score, &mut out);
    proof {
        assert(out@ =~= dec_digits(score as nat));
    }
    out
}

} // verus!
