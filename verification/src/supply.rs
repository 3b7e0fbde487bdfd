use vstd::prelude::*;
use crate::error::ContractError;

verus! {

/// The supply ledger's atomic check-and-increment of the issued count against
/// the cap.
///
/// For any quantity `q`, cap and issued count: the increment succeeds exactly
/// when `issued + q <= cap`; the new count is then `issued + q` and the result
/// is the first newly assigned id (the ids are `issued, issued + 1, ...,
/// issued + q - 1`). On failure the count is untouched.
pub fn increment(issued: &mut u64, quantity: u64, cap: u64) -> (r: Result<u64, ContractError>)
    requires
        *old(issued) <= cap,
    ensures
        *final(issued) <= cap,
        *old(issued) + quantity <= cap ==> r == Ok::<u64, ContractError>(*old(issued))
            && *final(issued) == *old(issued) + quantity,
        *old(issued) + quantity > cap ==> r == Err::<u64, ContractError>(
            ContractError::MaxSupplyReached,
        ) && *final(issued) == *old(issued),
{
    if quantity > cap - *issued {
        Err(ContractError::MaxSupplyReached)
    } else {
        let first = *issued;
        *issued = first + quantity;
        Ok(first)
    }
}

} // verus!
