//! Powers of two, as far as sizes are rounded to them.
use vstd::prelude::*;

verus! {

/// Two to the power `exponent`.
pub open spec fn two_to(exponent: nat) -> nat
    decreases exponent,
{
    if exponent == 0 {
        1
    } else {
        2 * two_to((exponent - 1) as nat)
    }
}

/// Whether `n` is a power of two.
pub open spec fn is_power_of_two(n: int) -> bool {
    exists|exponent: nat| n == #[trigger] two_to(exponent)
}

/// Whether `p` is the smallest power of two that is not below `n`.
pub open spec fn is_least_power_of_two_from(n: int, p: int) -> bool {
    &&& is_power_of_two(p)
    &&& n <= p
    &&& forall|q: int| is_power_of_two(q) && n <= q ==> p <= q
}

/// The smallest power of two that is not below `n`; 1 for `n` below 1.
pub open spec fn power_of_two_from(n: int) -> int
    decreases n,
{
    if n <= 1 {
        1
    } else {
        2 * power_of_two_from((n + 1) / 2)
    }
}

/// `usize::next_power_of_two`: the smallest power of two that is not below
/// `x`. The call is only made where a power of two from `x` on fits the type;
/// std panics or wraps to 0 where none does.
pub assume_specification[ usize::next_power_of_two ](x: usize) -> (p: usize)
    requires
        exists|q: int| is_power_of_two(q) && x <= q <= usize::MAX,
    ensures
        is_least_power_of_two_from(x as int, p as int),
;

/// Powers of two are positive.
pub proof fn lemma_two_to_positive(exponent: nat)
    ensures
        two_to(exponent) >= 1,
    decreases exponent,
{
    if exponent > 0 {
        lemma_two_to_positive((exponent - 1) as nat);
    }
}

/// [`power_of_two_from`] is what its name says: a power of two, not below `n`,
/// and no power of two lies between `n` and it.
pub proof fn lemma_power_of_two_from(n: int)
    ensures
        is_least_power_of_two_from(n, power_of_two_from(n)),
    decreases n,
{
    if n <= 1 {
        assert(two_to(0) == 1);
        assert forall|q: int| is_power_of_two(q) && n <= q implies 1 <= q by {
            let e = choose|e: nat| q == #[trigger] two_to(e);
            lemma_two_to_positive(e);
        }
    } else {
        let half = (n + 1) / 2;
        lemma_power_of_two_from(half);
        let p = power_of_two_from(half);
        let e = choose|e: nat| p == #[trigger] two_to(e);
        assert(2 * p == two_to(e + 1));
        assert forall|q: int| is_power_of_two(q) && n <= q implies 2 * p <= q by {
            let f = choose|f: nat| q == #[trigger] two_to(f);
            if f == 0 {
                assert(q == 1);
            } else {
                let r = two_to((f - 1) as nat) as int;
                assert(q == 2 * r);
                assert(is_power_of_two(r));
                assert(half <= r);
            }
        }
    }
}

/// Rounding up to a power of two less than doubles a positive number.
pub proof fn lemma_power_of_two_from_bounds(n: int)
    requires
        n >= 1,
    ensures
        n <= power_of_two_from(n) < 2 * n,
    decreases n,
{
    if n > 1 {
        lemma_power_of_two_from_bounds((n + 1) / 2);
    }
}

/// Rounds `x` up to a power of two.
pub fn round_up_to_power_of_two(x: usize) -> (p: usize)
    requires
        power_of_two_from(x as int) <= usize::MAX,
    ensures
        p == power_of_two_from(x as int),
{
    proof {
        lemma_power_of_two_from(x as int);
    }
    let p = x.next_power_of_two();
    proof {
        assert(power_of_two_from(x as int) <= p);
        assert(p <= power_of_two_from(x as int));
    }
    p
}

} // verus!
