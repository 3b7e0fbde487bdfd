use vstd::prelude::*;
use crate::admin::{add_to_og_list, remove_from_allowlist, remove_from_og_list,
    remove_withdraw_address, seed_allowlist, set_allowlist_sale, set_base_token_uri,
    set_collection_size, set_og_sale, set_public_sale, set_sale_config, set_withdraw_address,
    update_ownership, update_royalty_config, withdraw_funds, OwnershipAction,
    proposed_ownership};
use crate::admission::{burn, mint, mint_allowlist, mint_allowlist_post, mint_og, mint_og_post,
    mint_public, mint_public_post, mint_team, mint_team_post};
use crate::error::ContractError;
use crate::ids::dec_str;
use crate::leveling::{grant_bonus_experience, grant_seq, id_parses, sweep_levels, toggle_leveling,
    toggle_post, update_leveling_config};
use crate::levels::{default_level, level_of};
use crate::msg::{AllTokenLevelsResponse, LevelingConfigResponse, RoyaltyConfigResponse,
    SaleConfigResponse};
use crate::query::{check_royalties, levels_page, page_limit, page_rendered, query_admin,
    query_all_token_levels, query_base_token_uri, query_collection_size, query_contract_info,
    query_leveling_config, query_num_tokens, query_owner_of, query_ownership,
    query_royalties_info, query_royalty_config, query_token_level};
use crate::royalty::royalty_of;
use crate::state::{addr_listed, Coin, ContractState, Ownership};

verus! {

// The command and query dispatchers: one verified function from the state
// aggregate, the caller, the attached funds, an injected timestamp, and a
// message to the successor state and the answer. Transfer and approval
// bookkeeping belongs to the hosting token ledger and has no command here.

/// The commands of the leveling and royalty extension.
#[derive(Clone, Debug, PartialEq, Eq)]
pub enum Cw2981LevelingExecuteMsg {
    /// Updates royalty info for the contract.
    UpdateRoyaltyConfig { royalty_percentage: u64, royalty_payment_address: String },
    /// Updates the leveling config; turning leveling off sweeps every
    /// Active timer.
    UpdateLevelingConfig { leveling_open: bool, max_experience: u64 },
    /// Toggles leveling for the token id.
    ToggleLeveling { token_id: String },
    /// Grants bonus experience to tokens.
    GrantBonusExperience { token_ids: Vec<String>, experience: u64 },
}

/// The command set of the contract.
#[derive(Clone, Debug, PartialEq, Eq)]
pub enum ExecuteMsg {
    /// Mint for the team.
    MintTeam { quantity: u64 },
    /// Mint for og members.
    MintOg { quantity: u64 },
    /// Mint for allowlisted addresses.
    MintAllowlist { quantity: u64 },
    /// Mint for the public.
    MintPublic { quantity: u64 },
    /// Plain minting is disabled.
    Mint { token_id: String, owner: String, token_uri: Option<String> },
    /// Burning is disabled.
    Burn { token_id: String },
    /// One step of the two-phase admin handover.
    UpdateOwnership { action: OwnershipAction },
    /// Sets the address withdrawn fees are sent to.
    SetWithdrawAddress { address: String },
    /// Clears the withdraw address.
    RemoveWithdrawAddress {},
    /// Pays the stored withdraw address.
    WithdrawFunds { amount: Coin },
    /// Sets the base token uri.
    SetBaseTokenUri { base_token_uri: String },
    /// Rewrites the tier prices and quotas.
    SetSaleConfig {
        og_price: u128,
        allowlist_price: u128,
        public_price: u128,
        max_per_og: u64,
        max_per_allowlist: u64,
        max_per_public: u64,
    },
    /// Resets the supply cap; never below the count already issued.
    SetCollectionSize { collection_size: u64 },
    /// Adds addresses to the allowlist.
    AddToAllowlist { addresses: Vec<String> },
    /// Removes addresses from the allowlist.
    RemoveFromAllowlist { addresses: Vec<String> },
    /// Adds addresses to the og list.
    AddToOgList { addresses: Vec<String> },
    /// Removes addresses from the og list.
    RemoveFromOgList { addresses: Vec<String> },
    /// Opens or closes the allowlist sale.
    SetAllowlistSale { open: bool },
    /// Opens or closes the og sale.
    SetOgSale { open: bool },
    /// Opens or closes the public sale.
    SetPublicSale { open: bool },
    /// An extension command.
    Extension { msg: Cw2981LevelingExecuteMsg },
}

/// What a successful command hands back to the host.
#[derive(Clone, Debug, PartialEq, Eq)]
pub enum ExecuteOutcome {
    /// An aggregate mint record: the first assigned id and how many tokens
    /// were created.
    Minted { first_id: u64, quantity: u64 },
    /// A payment the host is to send.
    Payout { to: String, amount: Coin },
    /// Nothing beyond the state change.
    Done {},
}

/// The timestamp obligations of a command: chain time is positive and never
/// behind a stored timer start.
pub open spec fn execute_time_ok(pre: ContractState, msg: ExecuteMsg, now: u64) -> bool {
    match msg {
        ExecuteMsg::Extension { msg: ext } => match ext {
            Cw2981LevelingExecuteMsg::ToggleLeveling { token_id } => {
                &&& 1 <= now
                &&& forall|n: u64| #[trigger]
                    dec_str(n as nat) == token_id@ ==> level_of(
                        pre.token_levels@,
                        n,
                    ).leveling_start_timestamp <= now
            },
            Cw2981LevelingExecuteMsg::UpdateLevelingConfig { .. } => forall|i: int|
                0 <= i < pre.token_levels@.len() && (#[trigger] pre.token_levels@[i]).1.leveling
                    ==> pre.token_levels@[i].1.leveling_start_timestamp <= now,
            _ => true,
        },
        _ => true,
    }
}

/// A command result with the outcome stripped, for reuse of the per-command
/// contracts.
pub open spec fn unit_result(r: Result<ExecuteOutcome, ContractError>) -> Result<
    (),
    ContractError,
> {
    match r {
        Ok(_) => Ok(()),
        Err(e) => Err(e),
    }
}

/// Runs one command to completion: the state either moves to the command's
/// successor state or, on any failure, stays exactly as it was.
#[allow(unused_variables)]
pub fn execute(
    state: &mut ContractState,
    now: u64,
    sender: &String,
    funds: &Vec<Coin>,
    msg: ExecuteMsg,
) -> (r: Result<ExecuteOutcome, ContractError>)
    requires
        old(state).wf(),
        execute_time_ok(*old(state), msg, now),
    ensures
        final(state).wf(),
        match msg {
            ExecuteMsg::MintTeam { quantity } => {
                &&& (r is Ok ==> r == Ok::<ExecuteOutcome, ContractError>(
                    ExecuteOutcome::Minted { first_id: old(state).token_count, quantity },
                ))
                &&& mint_team_post(
                    *old(state),
                    *final(state),
                    *sender,
                    quantity,
                    match r {
                        Ok(_) => Ok::<u64, ContractError>(old(state).token_count),
                        Err(e) => Err(e),
                    },
                )
            },
            ExecuteMsg::MintOg { quantity } => {
                &&& (r is Ok ==> r == Ok::<ExecuteOutcome, ContractError>(
                    ExecuteOutcome::Minted { first_id: old(state).token_count, quantity },
                ))
                &&& mint_og_post(
                    *old(state),
                    *final(state),
                    *sender,
                    funds@,
                    quantity,
                    match r {
                        Ok(_) => Ok::<u64, ContractError>(old(state).token_count),
                        Err(e) => Err(e),
                    },
                )
            },
            ExecuteMsg::MintAllowlist { quantity } => {
                &&& (r is Ok ==> r == Ok::<ExecuteOutcome, ContractError>(
                    ExecuteOutcome::Minted { first_id: old(state).token_count, quantity },
                ))
                &&& mint_allowlist_post(
                    *old(state),
                    *final(state),
                    *sender,
                    funds@,
                    quantity,
                    match r {
                        Ok(_) => Ok::<u64, ContractError>(old(state).token_count),
                        Err(e) => Err(e),
                    },
                )
            },
            ExecuteMsg::MintPublic { quantity } => {
                &&& (r is Ok ==> r == Ok::<ExecuteOutcome, ContractError>(
                    ExecuteOutcome::Minted { first_id: old(state).token_count, quantity },
                ))
                &&& mint_public_post(
                    *old(state),
                    *final(state),
                    *sender,
                    funds@,
                    quantity,
                    match r {
                        Ok(_) => Ok::<u64, ContractError>(old(state).token_count),
                        Err(e) => Err(e),
                    },
                )
            },
            ExecuteMsg::Mint { .. } => r == Err::<ExecuteOutcome, ContractError>(
                ContractError::MintDisabled,
            ) && *final(state) == *old(state),
            ExecuteMsg::Burn { .. } => r == Err::<ExecuteOutcome, ContractError>(
                ContractError::BurnDisabled,
            ) && *final(state) == *old(state),
            ExecuteMsg::UpdateOwnership { action } => {
                &&& (r is Ok ==> r == Ok::<ExecuteOutcome, ContractError>(ExecuteOutcome::Done {}))
                &&& *final(state) == (ContractState {
                    ownership: final(state).ownership,
                    ..*old(state)
                })
                &&& match action {
                    OwnershipAction::Propose { new_admin } => {
                        if old(state).is_admin(sender@) {
                            r is Ok && final(state).ownership == proposed_ownership(
                                old(state).ownership,
                                new_admin,
                            )
                        } else {
                            r == Err::<ExecuteOutcome, ContractError>(ContractError::NotAdmin)
                                && *final(state) == *old(state)
                        }
                    },
                    OwnershipAction::Accept => {
                        match old(state).ownership {
                            Ownership::PendingTransfer { current: _, proposed } => {
                                if proposed@ == sender@ {
                                    r is Ok && final(state).ownership == (Ownership::Owned {
                                        admin: proposed,
                                    })
                                } else {
                                    r == Err::<ExecuteOutcome, ContractError>(
                                        ContractError::NotPendingAdmin,
                                    ) && *final(state) == *old(state)
                                }
                            },
                            Ownership::Owned { admin: _ } => r == Err::<
                                ExecuteOutcome,
                                ContractError,
                            >(ContractError::NoPendingAdmin) && *final(state) == *old(state),
                        }
                    },
                }
            },
            ExecuteMsg::SetWithdrawAddress { address } => {
                &&& *final(state) == (ContractState {
                    withdraw_address: final(state).withdraw_address,
                    ..*old(state)
                })
                &&& if old(state).is_admin(sender@) {
                    r == Ok::<ExecuteOutcome, ContractError>(ExecuteOutcome::Done {}) && final(state).withdraw_address == Some(address)
                } else {
                    r == Err::<ExecuteOutcome, ContractError>(ContractError::NotAdmin) && *final(state) == *old(state)
                }
            },
            ExecuteMsg::RemoveWithdrawAddress { } => {
                &&& *final(state) == (ContractState {
                    withdraw_address: final(state).withdraw_address,
                    ..*old(state)
                })
                &&& if !old(state).is_admin(sender@) {
                    r == Err::<ExecuteOutcome, ContractError>(ContractError::NotAdmin) && *final(state) == *old(state)
                } else if old(state).withdraw_address is None {
                    r == Err::<ExecuteOutcome, ContractError>(ContractError::NoWithdrawAddress)
                        && *final(state) == *old(state)
                } else {
                    r == Ok::<ExecuteOutcome, ContractError>(ExecuteOutcome::Done {}) && final(state).withdraw_address is None
                }
            },
            ExecuteMsg::WithdrawFunds { amount } => {
                &&& *final(state) == *old(state)
                &&& match old(state).withdraw_address {
                    Some(to) => r == Ok::<ExecuteOutcome, ContractError>(
                        ExecuteOutcome::Payout { to, amount },
                    ),
                    None => r == Err::<ExecuteOutcome, ContractError>(
                        ContractError::NoWithdrawAddress,
                    ),
                }
            },
            ExecuteMsg::SetBaseTokenUri { base_token_uri } => {
                &&& *final(state) == (ContractState {
                    base_token_uri: final(state).base_token_uri,
                    ..*old(state)
                })
                &&& if old(state).is_admin(sender@) {
                    r == Ok::<ExecuteOutcome, ContractError>(ExecuteOutcome::Done {}) && final(state).base_token_uri == base_token_uri
                } else {
                    r == Err::<ExecuteOutcome, ContractError>(ContractError::NotAdmin) && *final(state) == *old(state)
                }
            },
            ExecuteMsg::SetSaleConfig {
                og_price,
                allowlist_price,
                public_price,
                max_per_og,
                max_per_allowlist,
                max_per_public,
            } => {
                &&& *final(state) == (ContractState {
                    sale_config: final(state).sale_config,
                    ..*old(state)
                })
                &&& if old(state).is_admin(sender@) {
                    r == Ok::<ExecuteOutcome, ContractError>(ExecuteOutcome::Done {}) && final(state).sale_config == (SaleConfigResponse {
                        og_price,
                        allowlist_price,
                        public_price,
                        max_per_og,
                        max_per_allowlist,
                        max_per_public,
                        og_sale_open: old(state).sale_config.og_sale_open,
                        allowlist_sale_open: old(state).sale_config.allowlist_sale_open,
                        public_sale_open: old(state).sale_config.public_sale_open,
                    })
                } else {
                    r == Err::<ExecuteOutcome, ContractError>(ContractError::NotAdmin) && *final(state) == *old(state)
                }
            },
            ExecuteMsg::SetCollectionSize { collection_size } => {
                &&& *final(state) == (ContractState {
                    collection_size: final(state).collection_size,
                    ..*old(state)
                })
                &&& if !old(state).is_admin(sender@) {
                    r == Err::<ExecuteOutcome, ContractError>(ContractError::NotAdmin) && *final(state) == *old(state)
                } else if collection_size < old(state).token_count {
                    r == Err::<ExecuteOutcome, ContractError>(ContractError::InvalidCollectionSize)
                        && *final(state) == *old(state)
                } else {
                    r == Ok::<ExecuteOutcome, ContractError>(ExecuteOutcome::Done {}) && final(state).collection_size == collection_size
                }
            },
            ExecuteMsg::AddToAllowlist { addresses } => {
                &&& *final(state) == (ContractState {
                    allowlist: final(state).allowlist,
                    ..*old(state)
                })
                &&& if old(state).is_admin(sender@) {
                    r == Ok::<ExecuteOutcome, ContractError>(ExecuteOutcome::Done {}) && forall|
                        b: Seq<char>,
                    |
                        #[trigger] addr_listed(final(state).allowlist@, b) <==> (addr_listed(
                            old(state).allowlist@,
                            b,
                        ) || addr_listed(addresses@, b))
                } else {
                    r == Err::<ExecuteOutcome, ContractError>(ContractError::NotAdmin) && *final(state) == *old(state)
                }
            },
            ExecuteMsg::RemoveFromAllowlist { addresses } => {
                &&& *final(state) == (ContractState {
                    allowlist: final(state).allowlist,
                    ..*old(state)
                })
                &&& if old(state).is_admin(sender@) {
                    r == Ok::<ExecuteOutcome, ContractError>(ExecuteOutcome::Done {}) && forall|
                        b: Seq<char>,
                    |
                        #[trigger] addr_listed(final(state).allowlist@, b) <==> (addr_listed(
                            old(state).allowlist@,
                            b,
                        ) && !addr_listed(addresses@, b))
                } else {
                    r == Err::<ExecuteOutcome, ContractError>(ContractError::NotAdmin) && *final(state) == *old(state)
                }
            },
            ExecuteMsg::AddToOgList { addresses } => {
                &&& *final(state) == (ContractState {
                    og_list: final(state).og_list,
                    ..*old(state)
                })
                &&& if old(state).is_admin(sender@) {
                    r == Ok::<ExecuteOutcome, ContractError>(ExecuteOutcome::Done {}) && forall|
                        b: Seq<char>,
                    |
                        #[trigger] addr_listed(final(state).og_list@, b) <==> (addr_listed(
                            old(state).og_list@,
                            b,
                        ) || addr_listed(addresses@, b))
                } else {
                    r == Err::<ExecuteOutcome, ContractError>(ContractError::NotAdmin) && *final(state) == *old(state)
                }
            },
            ExecuteMsg::RemoveFromOgList { addresses } => {
                &&& *final(state) == (ContractState {
                    og_list: final(state).og_list,
                    ..*old(state)
                })
                &&& if old(state).is_admin(sender@) {
                    r == Ok::<ExecuteOutcome, ContractError>(ExecuteOutcome::Done {}) && forall|
                        b: Seq<char>,
                    |
                        #[trigger] addr_listed(final(state).og_list@, b) <==> (addr_listed(
                            old(state).og_list@,
                            b,
                        ) && !addr_listed(addresses@, b))
                } else {
                    r == Err::<ExecuteOutcome, ContractError>(ContractError::NotAdmin) && *final(state) == *old(state)
                }
            },
            ExecuteMsg::SetAllowlistSale { open } => {
                &&& *final(state) == (ContractState {
                    sale_config: final(state).sale_config,
                    ..*old(state)
                })
                &&& if old(state).is_admin(sender@) {
                    r == Ok::<ExecuteOutcome, ContractError>(ExecuteOutcome::Done {}) && final(state).sale_config == (SaleConfigResponse {
                        allowlist_sale_open: open,
                        ..old(state).sale_config
                    })
                } else {
                    r == Err::<ExecuteOutcome, ContractError>(ContractError::NotAdmin) && *final(state) == *old(state)
                }
            },
            ExecuteMsg::SetOgSale { open } => {
                &&& *final(state) == (ContractState {
                    sale_config: final(state).sale_config,
                    ..*old(state)
                })
                &&& if old(state).is_admin(sender@) {
                    r == Ok::<ExecuteOutcome, ContractError>(ExecuteOutcome::Done {}) && final(state).sale_config == (SaleConfigResponse {
                        og_sale_open: open,
                        ..old(state).sale_config
                    })
                } else {
                    r == Err::<ExecuteOutcome, ContractError>(ContractError::NotAdmin) && *final(state) == *old(state)
                }
            },
            ExecuteMsg::SetPublicSale { open } => {
                &&& *final(state) == (ContractState {
                    sale_config: final(state).sale_config,
                    ..*old(state)
                })
                &&& if old(state).is_admin(sender@) {
                    r == Ok::<ExecuteOutcome, ContractError>(ExecuteOutcome::Done {}) && final(state).sale_config == (SaleConfigResponse {
                        public_sale_open: open,
                        ..old(state).sale_config
                    })
                } else {
                    r == Err::<ExecuteOutcome, ContractError>(ContractError::NotAdmin) && *final(state) == *old(state)
                }
            },
            ExecuteMsg::Extension { msg: ext } => match ext {
                Cw2981LevelingExecuteMsg::UpdateRoyaltyConfig {
                    royalty_percentage,
                    royalty_payment_address,
                } => {
                    &&& *final(state) == (ContractState {
                        royalty_config: final(state).royalty_config,
                        ..*old(state)
                    })
                    &&& if !old(state).is_admin(sender@) {
                        r == Err::<ExecuteOutcome, ContractError>(ContractError::NotAdmin)
                            && *final(state) == *old(state)
                    } else if royalty_percentage > 100 {
                        r == Err::<ExecuteOutcome, ContractError>(
                            ContractError::InvalidRoyaltyPercentage,
                        ) && *final(state) == *old(state)
                    } else {
                        r == Ok::<ExecuteOutcome, ContractError>(ExecuteOutcome::Done {}) && final(state).royalty_config == (RoyaltyConfigResponse {
                            royalty_percentage,
                            royalty_payment_address,
                        })
                    }
                },
                Cw2981LevelingExecuteMsg::UpdateLevelingConfig {
                    leveling_open,
                    max_experience,
                } => {
                    &&& old(state).same_except_leveling(*final(state))
                    &&& if !old(state).is_admin(sender@) {
                        r == Err::<ExecuteOutcome, ContractError>(ContractError::NotAdmin)
                            && *final(state) == *old(state)
                    } else {
                        &&& r == Ok::<ExecuteOutcome, ContractError>(ExecuteOutcome::Done {})
                        &&& final(state).leveling_config == (LevelingConfigResponse {
                            leveling_open,
                            max_experience,
                        })
                        &&& leveling_open ==> final(state).token_levels@ == old(
                            state,
                        ).token_levels@
                        &&& !leveling_open ==> final(state).token_levels@ == sweep_levels(
                            old(state).token_levels@,
                            now,
                            max_experience,
                        )
                    }
                },
                Cw2981LevelingExecuteMsg::ToggleLeveling { token_id } => {
                    &&& (r is Ok ==> r == Ok::<ExecuteOutcome, ContractError>(
                        ExecuteOutcome::Done {},
                    ))
                    &&& old(state).same_except_levels(*final(state))
                    &&& (forall|n: u64|
                        n < old(state).token_count ==> #[trigger] dec_str(n as nat)
                            != token_id@) ==> (r == Err::<ExecuteOutcome, ContractError>(
                        ContractError::NotFound,
                    ) && *final(state) == *old(state))
                    &&& forall|n: u64|
                        n < old(state).token_count && #[trigger] dec_str(n as nat) == token_id@
                            ==> toggle_post(
                            *old(state),
                            *final(state),
                            n,
                            sender@,
                            now,
                            unit_result(r),
                        )
                },
                Cw2981LevelingExecuteMsg::GrantBonusExperience { token_ids, experience } => {
                    &&& (r is Ok ==> r == Ok::<ExecuteOutcome, ContractError>(
                        ExecuteOutcome::Done {},
                    ))
                    &&& old(state).same_except_levels(*final(state))
                    &&& !old(state).is_admin(sender@) ==> (r == Err::<
                        ExecuteOutcome,
                        ContractError,
                    >(ContractError::NotAdmin) && *final(state) == *old(state))
                    &&& old(state).is_admin(sender@) && !(forall|i: int|
                        0 <= i < token_ids@.len() ==> id_parses(#[trigger] token_ids@[i]@)) ==> (
                    r == Err::<ExecuteOutcome, ContractError>(ContractError::NotFound) && *final(state) == *old(state))
                    &&& old(state).is_admin(sender@) && (forall|i: int|
                        0 <= i < token_ids@.len() ==> id_parses(#[trigger] token_ids@[i]@)) ==> (
                    r is Ok && forall|ns: Seq<u64>|
                        ns.len() == token_ids@.len() && (forall|i: int|
                            0 <= i < ns.len() ==> dec_str(#[trigger] ns[i] as nat)
                                == token_ids@[i]@) ==> final(state).token_levels@ == grant_seq(
                            old(state).token_levels@,
                            ns,
                            experience,
                            old(state).leveling_config.max_experience,
                        ))
                },
            },
        },
{
    match msg {
        ExecuteMsg::MintTeam { quantity } => {
            match mint_team(state, sender, quantity) {
                Ok(first_id) => Ok(ExecuteOutcome::Minted { first_id, quantity }),
                Err(e) => Err(e),
            }
        },
        ExecuteMsg::MintOg { quantity } => {
            match mint_og(state, sender, funds, quantity) {
                Ok(first_id) => Ok(ExecuteOutcome::Minted { first_id, quantity }),
                Err(e) => Err(e),
            }
        },
        ExecuteMsg::MintAllowlist { quantity } => {
            match mint_allowlist(state, sender, funds, quantity) {
                Ok(first_id) => Ok(ExecuteOutcome::Minted { first_id, quantity }),
                Err(e) => Err(e),
            }
        },
        ExecuteMsg::MintPublic { quantity } => {
            match mint_public(state, sender, funds, quantity) {
                Ok(first_id) => Ok(ExecuteOutcome::Minted { first_id, quantity }),
                Err(e) => Err(e),
            }
        },
        ExecuteMsg::Mint { token_id: _, owner: _, token_uri: _ } => {
            match mint() {
                Ok(_) => Ok(ExecuteOutcome::Done {}),
                Err(e) => Err(e),
            }
        },
        ExecuteMsg::Burn { token_id: _ } => {
            match burn() {
                Ok(_) => Ok(ExecuteOutcome::Done {}),
                Err(e) => Err(e),
            }
        },
        ExecuteMsg::UpdateOwnership { action } => {
            match update_ownership(state, sender, action) {
                Ok(_) => Ok(ExecuteOutcome::Done {}),
                Err(e) => Err(e),
            }
        },
        ExecuteMsg::SetWithdrawAddress { address } => {
            match set_withdraw_address(state, sender, address) {
                Ok(_) => Ok(ExecuteOutcome::Done {}),
                Err(e) => Err(e),
            }
        },
        ExecuteMsg::RemoveWithdrawAddress {  } => {
            match remove_withdraw_address(state, sender) {
                Ok(_) => Ok(ExecuteOutcome::Done {}),
                Err(e) => Err(e),
            }
        },
        ExecuteMsg::WithdrawFunds { amount } => {
            match withdraw_funds(state, &amount) {
                Ok(to) => Ok(ExecuteOutcome::Payout { to, amount }),
                Err(e) => Err(e),
            }
        },
        ExecuteMsg::SetBaseTokenUri { base_token_uri } => {
            match set_base_token_uri(state, sender, base_token_uri) {
                Ok(_) => Ok(ExecuteOutcome::Done {}),
                Err(e) => Err(e),
            }
        },
        ExecuteMsg::SetSaleConfig {
            og_price,
            allowlist_price,
            public_price,
            max_per_og,
            max_per_allowlist,
            max_per_public,
        } => {
            match set_sale_config(
                state,
                sender,
                og_price,
                allowlist_price,
                public_price,
                max_per_og,
                max_per_allowlist,
                max_per_public,
            ) {
                Ok(_) => Ok(ExecuteOutcome::Done {}),
                Err(e) => Err(e),
            }
        },
        ExecuteMsg::SetCollectionSize { collection_size } => {
            match set_collection_size(state, sender, collection_size) {
                Ok(_) => Ok(ExecuteOutcome::Done {}),
                Err(e) => Err(e),
            }
        },
        ExecuteMsg::AddToAllowlist { addresses } => {
            match seed_allowlist(state, sender, &addresses) {
                Ok(_) => Ok(ExecuteOutcome::Done {}),
                Err(e) => Err(e),
            }
        },
        ExecuteMsg::RemoveFromAllowlist { addresses } => {
            match remove_from_allowlist(state, sender, &addresses) {
                Ok(_) => Ok(ExecuteOutcome::Done {}),
                Err(e) => Err(e),
            }
        },
        ExecuteMsg::AddToOgList { addresses } => {
            match add_to_og_list(state, sender, &addresses) {
                Ok(_) => Ok(ExecuteOutcome::Done {}),
                Err(e) => Err(e),
            }
        },
        ExecuteMsg::RemoveFromOgList { addresses } => {
            match remove_from_og_list(state, sender, &addresses) {
                Ok(_) => Ok(ExecuteOutcome::Done {}),
                Err(e) => Err(e),
            }
        },
        ExecuteMsg::SetAllowlistSale { open } => {
            match set_allowlist_sale(state, sender, open) {
                Ok(_) => Ok(ExecuteOutcome::Done {}),
                Err(e) => Err(e),
            }
        },
        ExecuteMsg::SetOgSale { open } => {
            match set_og_sale(state, sender, open) {
                Ok(_) => Ok(ExecuteOutcome::Done {}),
                Err(e) => Err(e),
            }
        },
        ExecuteMsg::SetPublicSale { open } => {
            match set_public_sale(state, sender, open) {
                Ok(_) => Ok(ExecuteOutcome::Done {}),
                Err(e) => Err(e),
            }
        },
        ExecuteMsg::Extension { msg: ext } => match ext {
            Cw2981LevelingExecuteMsg::UpdateRoyaltyConfig {
                royalty_percentage,
                royalty_payment_address,
            } => {
                match update_royalty_config(
                    state,
                    sender,
                    royalty_percentage,
                    royalty_payment_address,
                ) {
                    Ok(_) => Ok(ExecuteOutcome::Done {}),
                    Err(e) => Err(e),
                }
            },
            Cw2981LevelingExecuteMsg::UpdateLevelingConfig { leveling_open, max_experience } => {
                match update_leveling_config(state, sender, leveling_open, max_experience, now) {
                    Ok(_) => Ok(ExecuteOutcome::Done {}),
                    Err(e) => Err(e),
                }
            },
            Cw2981LevelingExecuteMsg::ToggleLeveling { token_id } => {
                match toggle_leveling(state, sender, &token_id, now) {
                    Ok(_) => Ok(ExecuteOutcome::Done {}),
                    Err(e) => Err(e),
                }
            },
            Cw2981LevelingExecuteMsg::GrantBonusExperience { token_ids, experience } => {
                match grant_bonus_experience(state, sender, &token_ids, experience) {
                    Ok(_) => Ok(ExecuteOutcome::Done {}),
                    Err(e) => Err(e),
                }
            },
        },
    }
}

/// The queries of the leveling and royalty extension.
#[derive(Clone, Debug, PartialEq, Eq)]
pub enum Cw2981LevelingQueryMsg {
    /// Returns the royalty config.
    RoyaltyConfig {},
    /// Returns the royalty owed on a sale of the token at the given price.
    RoyaltyInfo { token_id: String, sale_price: u128 },
    /// Returns whether the contract implements royalties; always true here.
    CheckRoyalties {},
    /// Returns the leveling config.
    LevelingConfig {},
    /// Returns the token's timer state, the zero default when absent.
    TokenLevel { token_id: String },
    /// Returns timer states for all tokens, paginated.
    AllTokenLevels { start_after: Option<String>, limit: Option<u32> },
}

/// The query set of the contract.
#[derive(Clone, Debug, PartialEq, Eq)]
pub enum QueryMsg {
    /// The owner of the given token.
    OwnerOf { token_id: String },
    /// Total number of tokens issued.
    NumTokens {},
    /// Name and symbol of the collection.
    ContractInfo {},
    /// The current admin.
    Admin {},
    /// The full two-phase handover state of the admin capability.
    Ownership {},
    /// The stored withdraw address.
    WithdrawAddress {},
    /// The supply cap.
    CollectionSize {},
    /// The base token uri.
    BaseTokenUri {},
    /// The sales-tier configuration.
    SaleConfig {},
    /// An extension query.
    Extension { msg: Cw2981LevelingQueryMsg },
}

/// One answer of the query set.
pub enum QueryResponse {
    OwnerOf(crate::msg::OwnerOfResponse),
    NumTokens(crate::msg::NumTokensResponse),
    ContractInfo(crate::msg::ContractInfoResponse),
    Admin(crate::msg::AdminResponse),
    Ownership(crate::msg::OwnershipResponse),
    WithdrawAddress(Option<String>),
    CollectionSize(crate::msg::CollectionSizeResponse),
    BaseTokenUri(crate::msg::BaseTokenUriResponse),
    SaleConfig(SaleConfigResponse),
    RoyaltyConfig(RoyaltyConfigResponse),
    RoyaltiesInfo(crate::msg::RoyaltiesInfoResponse),
    CheckRoyalties(crate::msg::CheckRoyaltiesResponse),
    LevelingConfig(LevelingConfigResponse),
    TokenLevel(crate::msg::TokenLevelResponse),
    AllTokenLevels(AllTokenLevelsResponse),
}

/// Answers one query; the state is never changed. `NotFound` comes exactly
/// from the owner and royalty queries on an id that names no issued token.
pub fn query(state: &ContractState, msg: QueryMsg) -> (r: Result<QueryResponse, ContractError>)
    requires
        state.wf(),
    ensures
        match msg {
            QueryMsg::OwnerOf { token_id } => {
                &&& (forall|n: u64|
                    n < state.token_count ==> #[trigger] dec_str(n as nat) != token_id@) ==> r
                    == Err::<QueryResponse, ContractError>(ContractError::NotFound)
                &&& forall|n: u64|
                    n < state.token_count && #[trigger] dec_str(n as nat) == token_id@ ==> match r {
                        Ok(QueryResponse::OwnerOf(o)) => o.owner == state.token_owners@[n as int],
                        _ => false,
                    }
            },
            QueryMsg::NumTokens {  } => match r {
                Ok(QueryResponse::NumTokens(v)) => v.count == state.token_count,
                _ => false,
            },
            QueryMsg::ContractInfo {  } => match r {
                Ok(QueryResponse::ContractInfo(v)) => v.name == state.name && v.symbol
                    == state.symbol,
                _ => false,
            },
            QueryMsg::Admin {  } => match r {
                Ok(QueryResponse::Admin(v)) => v.admin is Some && v.admin->0@ == state.admin(),
                _ => false,
            },
            QueryMsg::Ownership {  } => match r {
                Ok(QueryResponse::Ownership(v)) => match state.ownership {
                    Ownership::Owned { admin } => v.owner == Some(admin) && v.pending_owner
                        is None,
                    Ownership::PendingTransfer { current, proposed } => v.owner == Some(current)
                        && v.pending_owner == Some(proposed),
                },
                _ => false,
            },
            QueryMsg::WithdrawAddress {  } => match r {
                Ok(QueryResponse::WithdrawAddress(v)) => v == state.withdraw_address,
                _ => false,
            },
            QueryMsg::CollectionSize {  } => match r {
                Ok(QueryResponse::CollectionSize(v)) => v.collection_size == state.collection_size,
                _ => false,
            },
            QueryMsg::BaseTokenUri {  } => match r {
                Ok(QueryResponse::BaseTokenUri(v)) => v.base_token_uri == state.base_token_uri,
                _ => false,
            },
            QueryMsg::SaleConfig {  } => match r {
                Ok(QueryResponse::SaleConfig(v)) => v == state.sale_config,
                _ => false,
            },
            QueryMsg::Extension { msg: ext } => match ext {
                Cw2981LevelingQueryMsg::RoyaltyConfig {  } => match r {
                    Ok(QueryResponse::RoyaltyConfig(v)) => v.royalty_percentage
                        == state.royalty_config.royalty_percentage && v.royalty_payment_address
                        == state.royalty_config.royalty_payment_address,
                    _ => false,
                },
                Cw2981LevelingQueryMsg::RoyaltyInfo { token_id, sale_price } => {
                    &&& (forall|n: u64|
                        n < state.token_count ==> #[trigger] dec_str(n as nat) != token_id@) ==> r
                        == Err::<QueryResponse, ContractError>(ContractError::NotFound)
                    &&& (exists|n: u64|
                        n < state.token_count && #[trigger] dec_str(n as nat) == token_id@)
                        ==> match r {
                        Ok(QueryResponse::RoyaltiesInfo(v)) => v.address
                            == state.royalty_config.royalty_payment_address && v.royalty_amount
                            as int == royalty_of(
                            sale_price,
                            state.royalty_config.royalty_percentage,
                        ),
                        _ => false,
                    }
                },
                Cw2981LevelingQueryMsg::CheckRoyalties {  } => match r {
                    Ok(QueryResponse::CheckRoyalties(v)) => v.royalty_payments == true,
                    _ => false,
                },
                Cw2981LevelingQueryMsg::LevelingConfig {  } => match r {
                    Ok(QueryResponse::LevelingConfig(v)) => v == state.leveling_config,
                    _ => false,
                },
                Cw2981LevelingQueryMsg::TokenLevel { token_id } => match r {
                    Ok(QueryResponse::TokenLevel(v)) => {
                        &&& (forall|n: u64| #[trigger] dec_str(n as nat) != token_id@) ==> v
                            == default_level()
                        &&& forall|n: u64| #[trigger]
                            dec_str(n as nat) == token_id@ ==> v == level_of(
                                state.token_levels@,
                                n,
                            )
                    },
                    _ => false,
                },
                Cw2981LevelingQueryMsg::AllTokenLevels { start_after, limit } => match r {
                    Ok(QueryResponse::AllTokenLevels(v)) => {
                        let s = state.token_levels@;
                        let lim = page_limit(limit);
                        match start_after {
                            None => page_rendered(levels_page(s, None, lim), v.token_levels@),
                            Some(cur) => {
                                &&& forall|c: u64| #[trigger]
                                    dec_str(c as nat) == cur@ ==> page_rendered(
                                        levels_page(s, Some(c), lim),
                                        v.token_levels@,
                                    )
                                &&& (forall|n: u64| #[trigger] dec_str(n as nat) != cur@)
                                    ==> v.token_levels@.len() == 0
                            },
                        }
                    },
                    _ => false,
                },
            },
        },
{
    match msg {
        QueryMsg::OwnerOf { token_id } => {
            match query_owner_of(state, &token_id) {
                Ok(o) => Ok(QueryResponse::OwnerOf(o)),
                Err(e) => Err(e),
            }
        },
        QueryMsg::NumTokens {  } => Ok(QueryResponse::NumTokens(query_num_tokens(state))),
        QueryMsg::ContractInfo {  } => Ok(QueryResponse::ContractInfo(query_contract_info(state))),
        QueryMsg::Admin {  } => Ok(QueryResponse::Admin(query_admin(state))),
        QueryMsg::Ownership {  } => Ok(QueryResponse::Ownership(query_ownership(state))),
        QueryMsg::WithdrawAddress {  } => {
            let v = match &state.withdraw_address {
                None => None,
                Some(a) => Some(a.clone()),
            };
            Ok(QueryResponse::WithdrawAddress(v))
        },
        QueryMsg::CollectionSize {  } => Ok(
            QueryResponse::CollectionSize(query_collection_size(state)),
        ),
        QueryMsg::BaseTokenUri {  } => Ok(
            QueryResponse::BaseTokenUri(query_base_token_uri(state)),
        ),
        QueryMsg::SaleConfig {  } => Ok(QueryResponse::SaleConfig(state.sale_config)),
        QueryMsg::Extension { msg: ext } => match ext {
            Cw2981LevelingQueryMsg::RoyaltyConfig {  } => Ok(
                QueryResponse::RoyaltyConfig(query_royalty_config(state)),
            ),
            Cw2981LevelingQueryMsg::RoyaltyInfo { token_id, sale_price } => {
                match query_royalties_info(state, &token_id, sale_price) {
                    Ok(v) => Ok(QueryResponse::RoyaltiesInfo(v)),
                    Err(e) => Err(e),
                }
            },
            Cw2981LevelingQueryMsg::CheckRoyalties {  } => Ok(
                QueryResponse::CheckRoyalties(check_royalties(state)),
            ),
            Cw2981LevelingQueryMsg::LevelingConfig {  } => Ok(
                QueryResponse::LevelingConfig(query_leveling_config(state)),
            ),
            Cw2981LevelingQueryMsg::TokenLevel { token_id } => Ok(
                QueryResponse::TokenLevel(query_token_level(state, &token_id)),
            ),
            Cw2981LevelingQueryMsg::AllTokenLevels { start_after, limit } => Ok(
                QueryResponse::AllTokenLevels(query_all_token_levels(state, &start_after, limit)),
            ),
        },
    }
}

} // verus!
