use vstd::prelude::*;
use crate::error::ContractError;
use crate::state::Coin;

verus! {

// The funds verifier: the attached payment, a multiset of coins, must cover
// `price * quantity` in the designated denomination. Amounts in any other
// denomination are ignored, never an error.

/// The sum, over the mathematical integers, of the attached amounts whose
/// denomination is `denom`.
pub open spec fn paid_amount(funds: Seq<Coin>, denom: Seq<char>) -> int
    decreases funds.len(),
{
    if funds.len() == 0 {
        0
    } else {
        (if funds.last().denom@ == denom {
            funds.last().amount as int
        } else {
            0
        }) + paid_amount(funds.drop_last(), denom)
    }
}

/// The total a tier mint costs: `price * quantity` over the integers.
pub open spec fn required_total(price: u128, quantity: u64) -> int {
    (price as int) * (quantity as int)
}

/// Whether an attached payment covers a required total: the total must be
/// representable (the overflow-checked multiplication must succeed) and the
/// matching amounts must sum to at least it.
pub open spec fn funds_cover(funds: Seq<Coin>, denom: Seq<char>, price: u128, quantity: u64) -> bool {
    &&& required_total(price, quantity) <= u128::MAX
    &&& paid_amount(funds, denom) >= required_total(price, quantity)
}

/// Checks the attached payment against `price * quantity` in `denom`,
/// failing `InsufficientFunds` exactly when it does not cover the total.
pub fn check_funds(funds: &Vec<Coin>, denom: &String, price: u128, quantity: u64) -> (r: Result<
    (),
    ContractError,
>)
    ensures
        funds_cover(funds@, denom@, price, quantity) ==> r == Ok::<(), ContractError>(()),
        !funds_cover(funds@, denom@, price, quantity) ==> r == Err::<(), ContractError>(
            ContractError::InsufficientFunds,
        ),
{
    let total = match price.checked_mul(quantity as u128) {
        Some(t) => t,
        None => {
            return Err(ContractError::InsufficientFunds);
        },
    };
    let mut sum: u128 = 0;
    let mut i: usize = 0;
    while i < funds.len()
        invariant
            0 <= i <= funds@.len(),
            sum as int == (if paid_amount(funds@.subrange(0, i as int), denom@) > u128::MAX {
                u128::MAX as int
            } else {
                paid_amount(funds@.subrange(0, i as int), denom@)
            }),
            paid_amount(funds@.subrange(0, i as int), denom@) >= 0,
        decreases funds@.len() - i,
    {
        proof {
            let p = funds@.subrange(0, i as int);
            let q = funds@.subrange(0, i as int + 1);
            assert(q.drop_last() =~= p);
            assert(q.last() == funds@[i as int]);
        }
        if funds[i].denom.eq(denom) {
            sum = match sum.checked_add(funds[i].amount) {
                Some(s) => s,
                None => u128::MAX,
            };
        }
        i += 1;
    }
    proof {
        assert(funds@.subrange(0, funds@.len() as int) =~= funds@);
    }
    if sum < total {
        Err(ContractError::InsufficientFunds)
    } else {
        Ok(())
    }
}

} // verus!
