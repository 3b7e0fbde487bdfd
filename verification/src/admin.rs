use vstd::prelude::*;
use crate::error::ContractError;
use crate::msg::{RoyaltyConfigResponse, SaleConfigResponse};
use crate::state::{addr_list_add, addr_list_remove, addr_listed, addrs_unique, check_admin, Coin,
    ContractState, Ownership};

verus! {

// The config store's admin-gated mutations: sales tiers, royalty, membership
// lists, base token uri, withdraw address, and the two-phase handover of the
// admin capability itself.

/// One step of the two-phase admin handover.
#[derive(Clone, Debug, PartialEq, Eq)]
pub enum OwnershipAction {
    /// The current admin proposes a successor; a pending proposal is replaced.
    Propose { new_admin: String },
    /// The proposed successor takes the capability over.
    Accept,
}

/// The ownership state after a proposal: the current holder keeps the
/// capability, the proposed successor is recorded.
pub open spec fn proposed_ownership(o: Ownership, new_admin: String) -> Ownership {
    match o {
        Ownership::Owned { admin } => Ownership::PendingTransfer {
            current: admin,
            proposed: new_admin,
        },
        Ownership::PendingTransfer { current, proposed: _ } => Ownership::PendingTransfer {
            current,
            proposed: new_admin,
        },
    }
}

/// Runs one step of the two-phase admin handover: only the admin proposes,
/// only the proposed successor accepts, and the capability moves only on the
/// accept.
pub fn update_ownership(state: &mut ContractState, sender: &String, action: OwnershipAction) -> (r:
    Result<(), ContractError>)
    requires
        old(state).wf(),
    ensures
        final(state).wf(),
        *final(state) == (ContractState { ownership: final(state).ownership, ..*old(state) }),
        match action {
            OwnershipAction::Propose { new_admin } => {
                if old(state).is_admin(sender@) {
                    r == Ok::<(), ContractError>(()) && final(state).ownership
                        == proposed_ownership(old(state).ownership, new_admin)
                } else {
                    r == Err::<(), ContractError>(ContractError::NotAdmin) && *final(state)
                        == *old(state)
                }
            },
            OwnershipAction::Accept => {
                match old(state).ownership {
                    Ownership::PendingTransfer { current: _, proposed } => {
                        if proposed@ == sender@ {
                            r == Ok::<(), ContractError>(()) && final(state).ownership
                                == (Ownership::Owned { admin: proposed })
                        } else {
                            r == Err::<(), ContractError>(ContractError::NotPendingAdmin)
                                && *final(state) == *old(state)
                        }
                    },
                    Ownership::Owned { admin: _ } => r == Err::<(), ContractError>(
                        ContractError::NoPendingAdmin,
                    ) && *final(state) == *old(state),
                }
            },
        },
{
    match action {
        OwnershipAction::Propose { new_admin } => {
            if !check_admin(state, sender) {
                return Err(ContractError::NotAdmin);
            }
            let current = match &state.ownership {
                Ownership::Owned { admin } => admin.clone(),
                Ownership::PendingTransfer { current, proposed: _ } => current.clone(),
            };
            state.ownership = Ownership::PendingTransfer { current, proposed: new_admin };
            Ok(())
        },
        OwnershipAction::Accept => {
            match &state.ownership {
                Ownership::Owned { admin: _ } => Err(ContractError::NoPendingAdmin),
                Ownership::PendingTransfer { current: _, proposed } => {
                    if proposed.eq(sender) {
                        let p = proposed.clone();
                        state.ownership = Ownership::Owned { admin: p };
                        Ok(())
                    } else {
                        Err(ContractError::NotPendingAdmin)
                    }
                },
            }
        },
    }
}

/// Rewrites the royalty config; the percentage is validated to `[0, 100]` on
/// every mutation.
pub fn update_royalty_config(
    state: &mut ContractState,
    sender: &String,
    royalty_percentage: u64,
    royalty_payment_address: String,
) -> (r: Result<(), ContractError>)
    requires
        old(state).wf(),
    ensures
        final(state).wf(),
        *final(state) == (ContractState {
            royalty_config: final(state).royalty_config,
            ..*old(state)
        }),
        !old(state).is_admin(sender@) ==> r == Err::<(), ContractError>(ContractError::NotAdmin)
            && *final(state) == *old(state),
        old(state).is_admin(sender@) && royalty_percentage > 100 ==> r == Err::<(), ContractError>(
            ContractError::InvalidRoyaltyPercentage,
        ) && *final(state) == *old(state),
        old(state).is_admin(sender@) && royalty_percentage <= 100 ==> r == Ok::<(), ContractError>(
            (),
        ) && final(state).royalty_config == (RoyaltyConfigResponse {
            royalty_percentage,
            royalty_payment_address,
        }),
{
    if !check_admin(state, sender) {
        return Err(ContractError::NotAdmin);
    }
    if royalty_percentage > 100 {
        return Err(ContractError::InvalidRoyaltyPercentage);
    }
    state.royalty_config = RoyaltyConfigResponse { royalty_percentage, royalty_payment_address };
    Ok(())
}

/// Rewrites the tier prices and quotas; the open flags are untouched.
pub fn set_sale_config(
    state: &mut ContractState,
    sender: &String,
    og_price: u128,
    allowlist_price: u128,
    public_price: u128,
    max_per_og: u64,
    max_per_allowlist: u64,
    max_per_public: u64,
) -> (r: Result<(), ContractError>)
    requires
        old(state).wf(),
    ensures
        final(state).wf(),
        *final(state) == (ContractState { sale_config: final(state).sale_config, ..*old(state) }),
        !old(state).is_admin(sender@) ==> r == Err::<(), ContractError>(ContractError::NotAdmin)
            && *final(state) == *old(state),
        old(state).is_admin(sender@) ==> r == Ok::<(), ContractError>(()) && final(state).sale_config
            == (SaleConfigResponse {
            og_price,
            allowlist_price,
            public_price,
            max_per_og,
            max_per_allowlist,
            max_per_public,
            og_sale_open: old(state).sale_config.og_sale_open,
            allowlist_sale_open: old(state).sale_config.allowlist_sale_open,
            public_sale_open: old(state).sale_config.public_sale_open,
        }),
{
    if !check_admin(state, sender) {
        return Err(ContractError::NotAdmin);
    }
    let prev = state.sale_config;
    state.sale_config = SaleConfigResponse {
        og_price,
        allowlist_price,
        public_price,
        max_per_og,
        max_per_allowlist,
        max_per_public,
        og_sale_open: prev.og_sale_open,
        allowlist_sale_open: prev.allowlist_sale_open,
        public_sale_open: prev.public_sale_open,
    };
    Ok(())
}

/// Opens or closes the og sale.
pub fn set_og_sale(state: &mut ContractState, sender: &String, open: bool) -> (r: Result<
    (),
    ContractError,
>)
    requires
        old(state).wf(),
    ensures
        final(state).wf(),
        *final(state) == (ContractState { sale_config: final(state).sale_config, ..*old(state) }),
        !old(state).is_admin(sender@) ==> r == Err::<(), ContractError>(ContractError::NotAdmin)
            && *final(state) == *old(state),
        old(state).is_admin(sender@) ==> r == Ok::<(), ContractError>(()) && final(state).sale_config
            == (SaleConfigResponse { og_sale_open: open, ..old(state).sale_config }),
{
    if !check_admin(state, sender) {
        return Err(ContractError::NotAdmin);
    }
    let prev = state.sale_config;
    state.sale_config = SaleConfigResponse { og_sale_open: open, ..prev };
    Ok(())
}

/// Opens or closes the allowlist sale.
pub fn set_allowlist_sale(state: &mut ContractState, sender: &String, open: bool) -> (r: Result<
    (),
    ContractError,
>)
    requires
        old(state).wf(),
    ensures
        final(state).wf(),
        *final(state) == (ContractState { sale_config: final(state).sale_config, ..*old(state) }),
        !old(state).is_admin(sender@) ==> r == Err::<(), ContractError>(ContractError::NotAdmin)
            && *final(state) == *old(state),
        old(state).is_admin(sender@) ==> r == Ok::<(), ContractError>(()) && final(state).sale_config
            == (SaleConfigResponse { allowlist_sale_open: open, ..old(state).sale_config }),
{
    if !check_admin(state, sender) {
        return Err(ContractError::NotAdmin);
    }
    let prev = state.sale_config;
    state.sale_config = SaleConfigResponse { allowlist_sale_open: open, ..prev };
    Ok(())
}

/// Opens or closes the public sale.
pub fn set_public_sale(state: &mut ContractState, sender: &String, open: bool) -> (r: Result<
    (),
    ContractError,
>)
    requires
        old(state).wf(),
    ensures
        final(state).wf(),
        *final(state) == (ContractState { sale_config: final(state).sale_config, ..*old(state) }),
        !old(state).is_admin(sender@) ==> r == Err::<(), ContractError>(ContractError::NotAdmin)
            && *final(state) == *old(state),
        old(state).is_admin(sender@) ==> r == Ok::<(), ContractError>(()) && final(state).sale_config
            == (SaleConfigResponse { public_sale_open: open, ..old(state).sale_config }),
{
    if !check_admin(state, sender) {
        return Err(ContractError::NotAdmin);
    }
    let prev = state.sale_config;
    state.sale_config = SaleConfigResponse { public_sale_open: open, ..prev };
    Ok(())
}

/// Resets the supply cap. A cap below the count already issued is rejected,
/// so `issued <= cap` keeps holding.
pub fn set_collection_size(state: &mut ContractState, sender: &String, collection_size: u64) -> (r:
    Result<(), ContractError>)
    requires
        old(state).wf(),
    ensures
        final(state).wf(),
        *final(state) == (ContractState {
            collection_size: final(state).collection_size,
            ..*old(state)
        }),
        !old(state).is_admin(sender@) ==> r == Err::<(), ContractError>(ContractError::NotAdmin)
            && *final(state) == *old(state),
        old(state).is_admin(sender@) && collection_size < old(state).token_count ==> r == Err::<
            (),
            ContractError,
        >(ContractError::InvalidCollectionSize) && *final(state) == *old(state),
        old(state).is_admin(sender@) && collection_size >= old(state).token_count ==> r == Ok::<
            (),
            ContractError,
        >(()) && final(state).collection_size == collection_size,
{
    if !check_admin(state, sender) {
        return Err(ContractError::NotAdmin);
    }
    if collection_size < state.token_count {
        return Err(ContractError::InvalidCollectionSize);
    }
    state.collection_size = collection_size;
    Ok(())
}

/// Rewrites the base token uri.
pub fn set_base_token_uri(state: &mut ContractState, sender: &String, base_token_uri: String) -> (r:
    Result<(), ContractError>)
    requires
        old(state).wf(),
    ensures
        final(state).wf(),
        *final(state) == (ContractState {
            base_token_uri: final(state).base_token_uri,
            ..*old(state)
        }),
        !old(state).is_admin(sender@) ==> r == Err::<(), ContractError>(ContractError::NotAdmin)
            && *final(state) == *old(state),
        old(state).is_admin(sender@) ==> r == Ok::<(), ContractError>(()) && final(state).base_token_uri == base_token_uri,
{
    if !check_admin(state, sender) {
        return Err(ContractError::NotAdmin);
    }
    state.base_token_uri = base_token_uri;
    Ok(())
}

/// Sets the address withdrawn fees are sent to.
pub fn set_withdraw_address(state: &mut ContractState, sender: &String, address: String) -> (r:
    Result<(), ContractError>)
    requires
        old(state).wf(),
    ensures
        final(state).wf(),
        *final(state) == (ContractState {
            withdraw_address: final(state).withdraw_address,
            ..*old(state)
        }),
        !old(state).is_admin(sender@) ==> r == Err::<(), ContractError>(ContractError::NotAdmin)
            && *final(state) == *old(state),
        old(state).is_admin(sender@) ==> r == Ok::<(), ContractError>(()) && final(state).withdraw_address == Some(address),
{
    if !check_admin(state, sender) {
        return Err(ContractError::NotAdmin);
    }
    state.withdraw_address = Some(address);
    Ok(())
}

/// Clears the withdraw address; fails `NoWithdrawAddress` when none is set.
pub fn remove_withdraw_address(state: &mut ContractState, sender: &String) -> (r: Result<
    (),
    ContractError,
>)
    requires
        old(state).wf(),
    ensures
        final(state).wf(),
        *final(state) == (ContractState {
            withdraw_address: final(state).withdraw_address,
            ..*old(state)
        }),
        !old(state).is_admin(sender@) ==> r == Err::<(), ContractError>(ContractError::NotAdmin)
            && *final(state) == *old(state),
        old(state).is_admin(sender@) && old(state).withdraw_address is None ==> r == Err::<
            (),
            ContractError,
        >(ContractError::NoWithdrawAddress) && *final(state) == *old(state),
        old(state).is_admin(sender@) && old(state).withdraw_address is Some ==> r == Ok::<
            (),
            ContractError,
        >(()) && final(state).withdraw_address is None,
{
    if !check_admin(state, sender) {
        return Err(ContractError::NotAdmin);
    }
    match &state.withdraw_address {
        None => Err(ContractError::NoWithdrawAddress),
        Some(_) => {
            state.withdraw_address = None;
            Ok(())
        },
    }
}

/// Decides where withdrawn funds go: the stored withdraw address, or
/// `NoWithdrawAddress` when none is set. Anyone may call; the caller sends
/// `amount` there.
pub fn withdraw_funds(state: &ContractState, amount: &Coin) -> (r: Result<String, ContractError>)
    ensures
        match r {
            Ok(to) => state.withdraw_address is Some && to == state.withdraw_address->0,
            Err(e) => e == ContractError::NoWithdrawAddress && state.withdraw_address is None,
        },
{
    match &state.withdraw_address {
        None => Err(ContractError::NoWithdrawAddress),
        Some(a) => Ok(a.clone()),
    }
}

/// Adds each address to a membership list, keeping it duplicate-free.
fn addr_list_add_all(l: &mut Vec<String>, addresses: &Vec<String>)
    requires
        addrs_unique(old(l)@),
    ensures
        addrs_unique(final(l)@),
        forall|b: Seq<char>|
            #[trigger] addr_listed(final(l)@, b) <==> (addr_listed(old(l)@, b) || addr_listed(
                addresses@,
                b,
            )),
{
    let mut i: usize = 0;
    while i < addresses.len()
        invariant
            0 <= i <= addresses@.len(),
            addrs_unique(l@),
            forall|b: Seq<char>|
                #[trigger] addr_listed(l@, b) <==> (addr_listed(old(l)@, b) || (exists|j: int|
                    0 <= j < i && addresses@[j]@ == b)),
        decreases addresses@.len() - i,
    {
        let ghost prev = l@;
        addr_list_add(l, addresses[i].clone());
        proof {
            assert forall|b: Seq<char>|
                #[trigger] addr_listed(l@, b) <==> (addr_listed(old(l)@, b) || (exists|j: int|
                    0 <= j < i + 1 && addresses@[j]@ == b)) by {
                if b == addresses@[i as int]@ {
                    assert(addr_listed(l@, b));
                    assert(addresses@[i as int]@ == b);
                } else {
                    assert(addr_listed(l@, b) == addr_listed(prev, b));
                    assert((exists|j: int| 0 <= j < i + 1 && addresses@[j]@ == b) == (exists|j: int|
                        0 <= j < i && addresses@[j]@ == b));
                }
            }
        }
        i += 1;
    }
    proof {
        assert forall|b: Seq<char>|
            #[trigger] addr_listed(l@, b) <==> (addr_listed(old(l)@, b) || addr_listed(
                addresses@,
                b,
            )) by {
            assert((exists|j: int| 0 <= j < addresses@.len() && addresses@[j]@ == b)
                == addr_listed(addresses@, b));
        }
    }
}

/// Removes each address from a membership list.
fn addr_list_remove_all(l: &mut Vec<String>, addresses: &Vec<String>)
    requires
        addrs_unique(old(l)@),
    ensures
        addrs_unique(final(l)@),
        forall|b: Seq<char>|
            #[trigger] addr_listed(final(l)@, b) <==> (addr_listed(old(l)@, b) && !addr_listed(
                addresses@,
                b,
            )),
{
    let mut i: usize = 0;
    while i < addresses.len()
        invariant
            0 <= i <= addresses@.len(),
            addrs_unique(l@),
            forall|b: Seq<char>|
                #[trigger] addr_listed(l@, b) <==> (addr_listed(old(l)@, b) && !(exists|j: int|
                    0 <= j < i && addresses@[j]@ == b)),
        decreases addresses@.len() - i,
    {
        let ghost prev = l@;
        addr_list_remove(l, &addresses[i]);
        proof {
            assert forall|b: Seq<char>|
                #[trigger] addr_listed(l@, b) <==> (addr_listed(old(l)@, b) && !(exists|j: int|
                    0 <= j < i + 1 && addresses@[j]@ == b)) by {
                if b == addresses@[i as int]@ {
                    assert(!addr_listed(l@, b));
                    assert(addresses@[i as int]@ == b);
                } else {
                    assert(addr_listed(l@, b) == addr_listed(prev, b));
                    assert((exists|j: int| 0 <= j < i + 1 && addresses@[j]@ == b) == (exists|j: int|
                        0 <= j < i && addresses@[j]@ == b));
                }
            }
        }
        i += 1;
    }
    proof {
        assert forall|b: Seq<char>|
            #[trigger] addr_listed(l@, b) <==> (addr_listed(old(l)@, b) && !addr_listed(
                addresses@,
                b,
            )) by {
            assert((exists|j: int| 0 <= j < addresses@.len() && addresses@[j]@ == b)
                == addr_listed(addresses@, b));
        }
    }
}

/// Adds the addresses to the allowlist.
pub fn seed_allowlist(state: &mut ContractState, sender: &String, addresses: &Vec<String>) -> (r:
    Result<(), ContractError>)
    requires
        old(state).wf(),
    ensures
        final(state).wf(),
        *final(state) == (ContractState { allowlist: final(state).allowlist, ..*old(state) }),
        !old(state).is_admin(sender@) ==> r == Err::<(), ContractError>(ContractError::NotAdmin)
            && *final(state) == *old(state),
        old(state).is_admin(sender@) ==> r == Ok::<(), ContractError>(()) && forall|b: Seq<char>|
            #[trigger] addr_listed(final(state).allowlist@, b) <==> (addr_listed(
                old(state).allowlist@,
                b,
            ) || addr_listed(addresses@, b)),
{
    if !check_admin(state, sender) {
        return Err(ContractError::NotAdmin);
    }
    addr_list_add_all(&mut state.allowlist, addresses);
    Ok(())
}

/// Removes the addresses from the allowlist.
pub fn remove_from_allowlist(
    state: &mut ContractState,
    sender: &String,
    addresses: &Vec<String>,
) -> (r: Result<(), ContractError>)
    requires
        old(state).wf(),
    ensures
        final(state).wf(),
        *final(state) == (ContractState { allowlist: final(state).allowlist, ..*old(state) }),
        !old(state).is_admin(sender@) ==> r == Err::<(), ContractError>(ContractError::NotAdmin)
            && *final(state) == *old(state),
        old(state).is_admin(sender@) ==> r == Ok::<(), ContractError>(()) && forall|b: Seq<char>|
            #[trigger] addr_listed(final(state).allowlist@, b) <==> (addr_listed(
                old(state).allowlist@,
                b,
            ) && !addr_listed(addresses@, b)),
{
    if !check_admin(state, sender) {
        return Err(ContractError::NotAdmin);
    }
    addr_list_remove_all(&mut state.allowlist, addresses);
    Ok(())
}

/// Adds the addresses to the og list.
pub fn add_to_og_list(state: &mut ContractState, sender: &String, addresses: &Vec<String>) -> (r:
    Result<(), ContractError>)
    requires
        old(state).wf(),
    ensures
        final(state).wf(),
        *final(state) == (ContractState { og_list: final(state).og_list, ..*old(state) }),
        !old(state).is_admin(sender@) ==> r == Err::<(), ContractError>(ContractError::NotAdmin)
            && *final(state) == *old(state),
        old(state).is_admin(sender@) ==> r == Ok::<(), ContractError>(()) && forall|b: Seq<char>|
            #[trigger] addr_listed(final(state).og_list@, b) <==> (addr_listed(
                old(state).og_list@,
                b,
            ) || addr_listed(addresses@, b)),
{
    if !check_admin(state, sender) {
        return Err(ContractError::NotAdmin);
    }
    addr_list_add_all(&mut state.og_list, addresses);
    Ok(())
}

/// Removes the addresses from the og list.
pub fn remove_from_og_list(
    state: &mut ContractState,
    sender: &String,
    addresses: &Vec<String>,
) -> (r: Result<(), ContractError>)
    requires
        old(state).wf(),
    ensures
        final(state).wf(),
        *final(state) == (ContractState { og_list: final(state).og_list, ..*old(state) }),
        !old(state).is_admin(sender@) ==> r == Err::<(), ContractError>(ContractError::NotAdmin)
            && *final(state) == *old(state),
        old(state).is_admin(sender@) ==> r == Ok::<(), ContractError>(()) && forall|b: Seq<char>|
            #[trigger] addr_listed(final(state).og_list@, b) <==> (addr_listed(
                old(state).og_list@,
                b,
            ) && !addr_listed(addresses@, b)),
{
    if !check_admin(state, sender) {
        return Err(ContractError::NotAdmin);
    }
    addr_list_remove_all(&mut state.og_list, addresses);
    Ok(())
}

} // verus!
