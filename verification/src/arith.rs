//! Division that rounds up.
use vstd::prelude::*;

verus! {

/// `a / b`, rounded up.
pub open spec fn ceil_div(a: nat, b: nat) -> nat
    recommends
        b > 0,
{
    if a % b == 0 {
        a / b
    } else {
        a / b + 1
    }
}

/// `a / b`, rounded up.
pub fn div_ceil(a: u64, b: u64) -> (quotient: u64)
    requires
        b > 0,
    ensures
        quotient == ceil_div(a as nat, b as nat),
{
    let quotient: u64 = a / b;
    if a % b == 0 {
        quotient
    } else {
        proof {
            vstd::arithmetic::div_mod::lemma_fundamental_div_mod(a as int, b as int);
            assert(b as int * (a as int / b as int) >= a as int / b as int) by (nonlinear_arith)
                requires
                    b > 0,
                    a as int / b as int >= 0,
            ;
        }
        quotient + 1
    }
}

/// `n` times `b` reaches `a` exactly from the rounded-up quotient on.
pub proof fn ceil_div_is_least(a: nat, b: nat, n: nat)
    requires
        b > 0,
    ensures
        n * b >= a <==> n >= ceil_div(a, b),
{
    let q = a / b;
    let r = a % b;
    vstd::arithmetic::div_mod::lemma_fundamental_div_mod(a as int, b as int);
    assert(a == b * q + r);
    if n <= q {
        assert(n * b <= q * b) by (nonlinear_arith)
            requires
                n <= q,
        ;
        assert(q * b == b * q) by (nonlinear_arith);
        if n < q {
            assert(n * b + b <= q * b) by (nonlinear_arith)
                requires
                    n + 1 <= q,
            ;
        }
    } else {
        assert(n * b >= q * b + b) by (nonlinear_arith)
            requires
                n >= q + 1,
        ;
        assert(q * b == b * q) by (nonlinear_arith);
    }
}

} // verus!
