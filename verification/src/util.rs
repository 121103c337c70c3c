//! Small arithmetic helpers shared by the memory code.

use vstd::prelude::*;

verus! {

/// `x / y`, rounded up.
pub open spec fn spec_round_up_divide(x: nat, y: nat) -> nat {
    ((x + y - 1) / y as int) as nat
}

/// Divides `x` by `y`, rounding up.
pub fn round_up_divide(x: u64, y: u64) -> (quotient: u64)
    requires
        y > 0,
    ensures
        quotient == spec_round_up_divide(x as nat, y as nat),
        quotient * y >= x,
        x > 0 ==> (quotient - 1) * y < x,
{
    let q = x / y;
    let r = x % y;
    proof {
        vstd::arithmetic::div_mod::lemma_fundamental_div_mod(x as int, y as int);
        if r != 0 {
            assert(q < 0xffff_ffff_ffff_ffff) by (nonlinear_arith)
                requires
                    x == y * q + r,
                    0 < r < y,
                    x <= 0xffff_ffff_ffff_ffff,
            ;
        }
    }
    let result = if r == 0 {
        q
    } else {
        q + 1
    };
    proof {
        let t = x + y - 1;
        if r == 0 {
            assert(t == q * y + (y - 1)) by (nonlinear_arith)
                requires
                    x == y * q,
                    t == x + y - 1,
            ;
            vstd::arithmetic::div_mod::lemma_div_multiples_vanish_fancy(q as int, (y - 1) as int, y as int);
            vstd::arithmetic::mul::lemma_mul_is_commutative(q as int, y as int);
        } else {
            assert(t == (q + 1) * y + (r - 1)) by (nonlinear_arith)
                requires
                    x == y * q + r,
                    t == x + y - 1,
            ;
            vstd::arithmetic::div_mod::lemma_div_multiples_vanish_fancy(
                (q + 1) as int,
                (r - 1) as int,
                y as int,
            );
            vstd::arithmetic::mul::lemma_mul_is_commutative((q + 1) as int, y as int);
        }
        assert(result * y >= x) by (nonlinear_arith)
            requires
                x == y * q + r,
                r < y,
                result == (if r == 0 { q as int } else { q + 1 }),
        ;
        if x > 0 {
            assert((result - 1) * y < x) by (nonlinear_arith)
                requires
                    x == y * q + r,
                    r < y,
                    x > 0,
                    result == (if r == 0 { q as int } else { q + 1 }),
            ;
        }
    }
    result
}

} // verus!
