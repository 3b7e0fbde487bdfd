use vstd::prelude::*;
use vstd::arithmetic::div_mod::{lemma_fundamental_div_mod, lemma_fundamental_div_mod_converse};
use vstd::arithmetic::mul::lemma_mul_inequality;

verus! {

/// The royalty owed on a sale: `floor(sale_price * percentage / 100)`.
pub open spec fn royalty_of(sale_price: u128, percentage: u64) -> int {
    (sale_price as int) * (percentage as int) / 100
}

/// Computes `floor(sale_price * percentage / 100)` without widening past
/// `u128`: the quotient and remainder of the price by 100 are scaled
/// separately, which never overflows because the result is at most the price.
pub fn royalty_amount(sale_price: u128, percentage: u64) -> (r: u128)
    requires
        percentage <= 100,
    ensures
        r as int == royalty_of(sale_price, percentage),
        r <= sale_price,
{
    let q = sale_price / 100;
    let rem = sale_price % 100;
    let p = percentage as u128;
    proof {
        lemma_fundamental_div_mod(sale_price as int, 100);
        lemma_mul_inequality(p as int, 100, q as int);
        assert((q as int) * (p as int) == (p as int) * (q as int)) by (nonlinear_arith);
        assert((q as int) * 100 <= sale_price as int) by {
            lemma_fundamental_div_mod(sale_price as int, 100);
            assert(100 * (q as int) == (q as int) * 100) by (nonlinear_arith);
        }
        assert((rem as int) * (p as int) <= 99 * 100) by (nonlinear_arith)
            requires rem < 100 && p <= 100,
        ;
    }
    let scaled_rem = (rem * p) / 100;
    let scaled_quot = q * p;
    proof {
        lemma_fundamental_div_mod((rem * p) as int, 100);
        assert(scaled_rem as int <= rem as int) by {
            assert((rem as int) * (p as int) <= (rem as int) * 100) by (nonlinear_arith)
                requires p <= 100,
            ;
            assert((rem as int) * 100 / 100 == rem as int) by (nonlinear_arith);
            vstd::arithmetic::div_mod::lemma_div_is_ordered(
                (rem as int) * (p as int),
                (rem as int) * 100,
                100,
            );
        }
        // floor((100q + rem) * p / 100) == q * p + floor(rem * p / 100)
        let sp = sale_price as int;
        let pi = p as int;
        let qi = q as int;
        let ri = rem as int;
        assert(sp * pi == 100 * (qi * pi + (ri * pi) / 100) + (ri * pi) % 100) by {
            assert(sp * pi == (100 * qi + ri) * pi) by (nonlinear_arith)
                requires sp == 100 * qi + ri,
            ;
            assert((100 * qi + ri) * pi == 100 * (qi * pi) + ri * pi) by (nonlinear_arith);
            lemma_fundamental_div_mod(ri * pi, 100);
            assert(100 * (qi * pi + (ri * pi) / 100) == 100 * (qi * pi) + 100 * ((ri * pi) / 100))
                by (nonlinear_arith);
        }
        lemma_fundamental_div_mod_converse(
            sp * pi,
            100,
            qi * pi + (ri * pi) / 100,
            (ri * pi) % 100,
        );
    }
    scaled_quot + scaled_rem
}

} // verus!
