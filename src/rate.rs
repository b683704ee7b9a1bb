//! Flow rates held as exact decimals, and their shortest decimal text.
use vstd::prelude::*;
use vstd::string::*;
use crate::numeral::{
    digit_count, digits_of, lemma_digits_len_bound, lemma_pow10_monotone, lemma_pow10_positive,
    pow10, pow10_u64, push_digits, push_zeros, zeros,
};

verus! {

/// A decimal number: `units / 10^scale`, negative where `negative` is set.
/// Infusion speeds are held this way, not as binary floating point, so that
/// the digits they print as are fixed by the value itself.
///
/// A value may be written in several ways (`15 / 10` and `150 / 100`); its
/// text does not depend on which one is held.
#[derive(Clone, Copy, Debug, PartialEq, Eq)]
pub struct Rate {
    pub negative: bool,
    pub units: u64,
    pub scale: u32,
}

/// The same decimal with trailing fractional zeros removed: the least scale
/// at which `units / 10^scale` is still written with whole units.
pub open spec fn trimmed(units: nat, scale: nat) -> (nat, nat)
    decreases scale,
{
    if scale > 0 && units % 10 == 0 {
        trimmed(units / 10, (scale - 1) as nat)
    } else {
        (units, scale)
    }
}

/// `units / 10^scale` in positional notation: the whole part, then, for a
/// positive scale, a point and exactly `scale` fractional digits.
pub open spec fn fixed_text(units: nat, scale: nat) -> Seq<char> {
    if scale == 0 {
        digits_of(units)
    } else {
        let frac = units % pow10(scale);
        digits_of(units / pow10(scale)) + seq!['.'] + zeros((scale - digits_of(frac).len()) as nat)
            + digits_of(frac)
    }
}

/// The text of a rate: its sign, then its digits with no trailing
/// fractional zero and no point where the value is whole (`1.5`, `2`, `0.05`).
pub open spec fn rate_text(r: Rate) -> Seq<char> {
    let t = trimmed(r.units as nat, r.scale as nat);
    (if r.negative {
        seq!['-']
    } else {
        Seq::empty()
    }) + fixed_text(t.0, t.1)
}

/// Drops trailing fractional zeros: the pair that `trimmed` gives.
fn trim(units: u64, scale: u64) -> (r: (u64, u64))
    ensures
        (r.0 as nat, r.1 as nat) == trimmed(units as nat, scale as nat),
{
    let mut u = units;
    let mut k = scale;
    while k > 0 && u % 10 == 0
        invariant
            trimmed(u as nat, k as nat) == trimmed(units as nat, scale as nat),
        decreases k,
    {
        u = u / 10;
        k = k - 1;
    }
    (u, k)
}

/// Appends the text of `r` to `s`.
pub fn push_rate(s: &mut String, r: &Rate)
    ensures
        final(s)@ == old(s)@ + rate_text(*r),
{
    let ghost start = s@;
    if r.negative {
        proof { reveal_strlit("-"); }
        s.append("-");
    }
    let ghost signed = s@;
    let (u, k) = trim(r.units, r.scale as u64);
    if k == 0 {
        push_digits(s, u);
    } else {
        let whole: u64;
        let frac: u64;
        if k >= 20 {
            proof {
                assert(pow10(20) == 100000000000000000000nat) by {
                    reveal_with_fuel(pow10, 21);
                }
                lemma_pow10_monotone(20, k as nat);
                vstd::arithmetic::div_mod::lemma_basic_div(u as int, pow10(k as nat) as int);
                vstd::arithmetic::div_mod::lemma_small_mod(u as nat, pow10(k as nat));
            }
            whole = 0;
            frac = u;
        } else {
            let p = pow10_u64(k);
            proof {
                lemma_pow10_positive(k as nat);
            }
            whole = u / p;
            frac = u % p;
        }
        proof {
            lemma_pow10_positive(k as nat);
            lemma_digits_len_bound(frac as nat, k as nat);
        }
        push_digits(s, whole);
        proof { reveal_strlit("."); }
        s.append(".");
        let n = digit_count(frac);
        push_zeros(s, k - n);
        push_digits(s, frac);
    }
    proof {
        assert(s@ =~= start + rate_text(*r));
    }
}

} // verus!
