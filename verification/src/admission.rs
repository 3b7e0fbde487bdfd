use vstd::prelude::*;
use vstd::string::StringExecFns;
use crate::error::ContractError;
use crate::funds::{check_funds, funds_cover};
use crate::msg::{InstantiateMsg, LevelingConfigResponse, RoyaltyConfigResponse,
    SaleConfigResponse};
use crate::state::{addr_list_contains, addr_list_remove, addr_listed, addrs_unique, check_admin,
    Coin, ContractState, Ownership};
use crate::supply::increment;

verus! {

// The admission controller: four independently gated minting channels against
// one supply cap. Checks run in a fixed order — authorization or membership,
// then the tier gate, zero quantity, the tier quota, the attached funds, and
// last the cap — and a call either creates all its tokens or none.

/// The denomination every sale is paid in.
pub open spec fn mint_denom() -> Seq<char> {
    "usei"@
}

fn mint_denom_string() -> (s: String)
    ensures
        s@ == mint_denom(),
{
    String::from_str("usei")
}

/// `quantity` new tokens owned by `sender`: ids `pre.token_count, ...,
/// pre.token_count + quantity - 1`, everything older untouched.
pub open spec fn minted(
    pre: ContractState,
    post: ContractState,
    sender: String,
    quantity: u64,
) -> bool {
    &&& post.token_count == pre.token_count + quantity
    &&& post.token_owners@.len() == pre.token_owners@.len() + quantity
    &&& forall|j: int|
        0 <= j < pre.token_owners@.len() ==> post.token_owners@[j] == pre.token_owners@[j]
    &&& forall|j: int|
        pre.token_owners@.len() <= j < post.token_owners@.len() ==> post.token_owners@[j]
            == sender
}

/// The sender's entry gone from the list, every other address as before.
pub open spec fn removed_from(pre: Seq<String>, post: Seq<String>, sender: Seq<char>) -> bool {
    &&& addrs_unique(post)
    &&& !addr_listed(post, sender)
    &&& forall|b: Seq<char>| b != sender ==> addr_listed(post, b) == addr_listed(pre, b)
}

/// Checks the cap and creates the tokens: the supply ledger increment plus one
/// owner entry per new id.
fn mint_tokens(state: &mut ContractState, sender: &String, quantity: u64) -> (r: Result<
    u64,
    ContractError,
>)
    requires
        old(state).wf(),
    ensures
        final(state).wf(),
        old(state).same_except_mint(*final(state)),
        final(state).og_list == old(state).og_list,
        final(state).allowlist == old(state).allowlist,
        old(state).token_count + quantity > old(state).collection_size ==> r == Err::<
            u64,
            ContractError,
        >(ContractError::MaxSupplyReached) && *final(state) == *old(state),
        old(state).token_count + quantity <= old(state).collection_size ==> r == Ok::<
            u64,
            ContractError,
        >(old(state).token_count) && minted(*old(state), *final(state), *sender, quantity),
{
    let cap = state.collection_size;
    let first = match increment(&mut state.token_count, quantity, cap) {
        Ok(f) => f,
        Err(e) => {
            return Err(e);
        },
    };
    let mut j: u64 = 0;
    while j < quantity
        invariant
            0 <= j <= quantity,
            old(state).wf(),
            state.token_count == old(state).token_count + quantity,
            state.token_count <= state.collection_size,
            old(state).same_except_mint(*state),
            state.og_list == old(state).og_list,
            state.allowlist == old(state).allowlist,
            state.token_owners@.len() == old(state).token_owners@.len() + j,
            forall|k: int|
                0 <= k < old(state).token_owners@.len() ==> state.token_owners@[k] == old(
                    state,
                ).token_owners@[k],
            forall|k: int|
                old(state).token_owners@.len() <= k < state.token_owners@.len()
                    ==> state.token_owners@[k] == *sender,
        decreases quantity - j,
    {
        state.token_owners.push(sender.clone());
        j += 1;
    }
    Ok(first)
}

/// The team tier: only the admin mints, with no quota, gate, or payment
/// beyond the cap.
pub open spec fn mint_team_post(
    pre: ContractState,
    post: ContractState,
    sender: String,
    quantity: u64,
    r: Result<u64, ContractError>,
) -> bool {
    if !pre.is_admin(sender@) {
        r == Err::<u64, ContractError>(ContractError::NotAdmin) && post == pre
    } else if quantity == 0 {
        r == Err::<u64, ContractError>(ContractError::InvalidQuantity) && post == pre
    } else if pre.token_count + quantity > pre.collection_size {
        r == Err::<u64, ContractError>(ContractError::MaxSupplyReached) && post == pre
    } else {
        &&& r == Ok::<u64, ContractError>(pre.token_count)
        &&& minted(pre, post, sender, quantity)
        &&& pre.same_except_mint(post)
        &&& post.og_list == pre.og_list
        &&& post.allowlist == pre.allowlist
    }
}

/// Mints `quantity` tokens to the admin. Returns the first assigned id.
pub fn mint_team(state: &mut ContractState, sender: &String, quantity: u64) -> (r: Result<
    u64,
    ContractError,
>)
    requires
        old(state).wf(),
    ensures
        final(state).wf(),
        mint_team_post(*old(state), *final(state), *sender, quantity, r),
{
    if !check_admin(state, sender) {
        return Err(ContractError::NotAdmin);
    }
    if quantity == 0 {
        return Err(ContractError::InvalidQuantity);
    }
    mint_tokens(state, sender, quantity)
}

/// The og tier: the caller must be on the og list (one successful mint
/// removes it), the og sale must be open, the quantity within the og quota,
/// and the payment must cover `og_price * quantity`.
pub open spec fn mint_og_post(
    pre: ContractState,
    post: ContractState,
    sender: String,
    funds: Seq<Coin>,
    quantity: u64,
    r: Result<u64, ContractError>,
) -> bool {
    let sc = pre.sale_config;
    if !addr_listed(pre.og_list@, sender@) {
        r == Err::<u64, ContractError>(ContractError::NotOnOgList) && post == pre
    } else if !sc.og_sale_open {
        r == Err::<u64, ContractError>(ContractError::OgSaleClosed) && post == pre
    } else if quantity == 0 {
        r == Err::<u64, ContractError>(ContractError::InvalidQuantity) && post == pre
    } else if quantity > sc.max_per_og {
        r == Err::<u64, ContractError>(ContractError::MaxMintReached) && post == pre
    } else if !funds_cover(funds, mint_denom(), sc.og_price, quantity) {
        r == Err::<u64, ContractError>(ContractError::InsufficientFunds) && post == pre
    } else if pre.token_count + quantity > pre.collection_size {
        r == Err::<u64, ContractError>(ContractError::MaxSupplyReached) && post == pre
    } else {
        &&& r == Ok::<u64, ContractError>(pre.token_count)
        &&& minted(pre, post, sender, quantity)
        &&& pre.same_except_mint(post)
        &&& removed_from(pre.og_list@, post.og_list@, sender@)
        &&& post.allowlist == pre.allowlist
    }
}

/// Mints under the og sale. Returns the first assigned id.
pub fn mint_og(
    state: &mut ContractState,
    sender: &String,
    funds: &Vec<Coin>,
    quantity: u64,
) -> (r: Result<u64, ContractError>)
    requires
        old(state).wf(),
    ensures
        final(state).wf(),
        mint_og_post(*old(state), *final(state), *sender, funds@, quantity, r),
{
    if !addr_list_contains(&state.og_list, sender) {
        return Err(ContractError::NotOnOgList);
    }
    if !state.sale_config.og_sale_open {
        return Err(ContractError::OgSaleClosed);
    }
    if quantity == 0 {
        return Err(ContractError::InvalidQuantity);
    }
    if quantity > state.sale_config.max_per_og {
        return Err(ContractError::MaxMintReached);
    }
    let denom = mint_denom_string();
    match check_funds(funds, &denom, state.sale_config.og_price, quantity) {
        Err(_) => {
            return Err(ContractError::InsufficientFunds);
        },
        Ok(_) => {},
    }
    let first = match mint_tokens(state, sender, quantity) {
        Ok(f) => f,
        Err(e) => {
            return Err(e);
        },
    };
    addr_list_remove(&mut state.og_list, sender);
    Ok(first)
}

/// The allowlist tier: as the og tier, against the allowlist and its own
/// price and quota.
pub open spec fn mint_allowlist_post(
    pre: ContractState,
    post: ContractState,
    sender: String,
    funds: Seq<Coin>,
    quantity: u64,
    r: Result<u64, ContractError>,
) -> bool {
    let sc = pre.sale_config;
    if !addr_listed(pre.allowlist@, sender@) {
        r == Err::<u64, ContractError>(ContractError::NotOnAllowlist) && post == pre
    } else if !sc.allowlist_sale_open {
        r == Err::<u64, ContractError>(ContractError::AllowlistSaleClosed) && post == pre
    } else if quantity == 0 {
        r == Err::<u64, ContractError>(ContractError::InvalidQuantity) && post == pre
    } else if quantity > sc.max_per_allowlist {
        r == Err::<u64, ContractError>(ContractError::MaxMintReached) && post == pre
    } else if !funds_cover(funds, mint_denom(), sc.allowlist_price, quantity) {
        r == Err::<u64, ContractError>(ContractError::InsufficientFunds) && post == pre
    } else if pre.token_count + quantity > pre.collection_size {
        r == Err::<u64, ContractError>(ContractError::MaxSupplyReached) && post == pre
    } else {
        &&& r == Ok::<u64, ContractError>(pre.token_count)
        &&& minted(pre, post, sender, quantity)
        &&& pre.same_except_mint(post)
        &&& removed_from(pre.allowlist@, post.allowlist@, sender@)
        &&& post.og_list == pre.og_list
    }
}

/// Mints under the allowlist sale. Returns the first assigned id.
pub fn mint_allowlist(
    state: &mut ContractState,
    sender: &String,
    funds: &Vec<Coin>,
    quantity: u64,
) -> (r: Result<u64, ContractError>)
    requires
        old(state).wf(),
    ensures
        final(state).wf(),
        mint_allowlist_post(*old(state), *final(state), *sender, funds@, quantity, r),
{
    if !addr_list_contains(&state.allowlist, sender) {
        return Err(ContractError::NotOnAllowlist);
    }
    if !state.sale_config.allowlist_sale_open {
        return Err(ContractError::AllowlistSaleClosed);
    }
    if quantity == 0 {
        return Err(ContractError::InvalidQuantity);
    }
    if quantity > state.sale_config.max_per_allowlist {
        return Err(ContractError::MaxMintReached);
    }
    let denom = mint_denom_string();
    match check_funds(funds, &denom, state.sale_config.allowlist_price, quantity) {
        Err(_) => {
            return Err(ContractError::InsufficientFunds);
        },
        Ok(_) => {},
    }
    let first = match mint_tokens(state, sender, quantity) {
        Ok(f) => f,
        Err(e) => {
            return Err(e);
        },
    };
    addr_list_remove(&mut state.allowlist, sender);
    Ok(first)
}

/// The public tier: no membership; the public sale must be open, the quantity
/// within the public quota, and the payment must cover
/// `public_price * quantity`.
pub open spec fn mint_public_post(
    pre: ContractState,
    post: ContractState,
    sender: String,
    funds: Seq<Coin>,
    quantity: u64,
    r: Result<u64, ContractError>,
) -> bool {
    let sc = pre.sale_config;
    if !sc.public_sale_open {
        r == Err::<u64, ContractError>(ContractError::PublicSaleClosed) && post == pre
    } else if quantity == 0 {
        r == Err::<u64, ContractError>(ContractError::InvalidQuantity) && post == pre
    } else if quantity > sc.max_per_public {
        r == Err::<u64, ContractError>(ContractError::MaxMintReached) && post == pre
    } else if !funds_cover(funds, mint_denom(), sc.public_price, quantity) {
        r == Err::<u64, ContractError>(ContractError::InsufficientFunds) && post == pre
    } else if pre.token_count + quantity > pre.collection_size {
        r == Err::<u64, ContractError>(ContractError::MaxSupplyReached) && post == pre
    } else {
        &&& r == Ok::<u64, ContractError>(pre.token_count)
        &&& minted(pre, post, sender, quantity)
        &&& pre.same_except_mint(post)
        &&& post.og_list == pre.og_list
        &&& post.allowlist == pre.allowlist
    }
}

/// Mints under the public sale. Returns the first assigned id.
pub fn mint_public(
    state: &mut ContractState,
    sender: &String,
    funds: &Vec<Coin>,
    quantity: u64,
) -> (r: Result<u64, ContractError>)
    requires
        old(state).wf(),
    ensures
        final(state).wf(),
        mint_public_post(*old(state), *final(state), *sender, funds@, quantity, r),
{
    if !state.sale_config.public_sale_open {
        return Err(ContractError::PublicSaleClosed);
    }
    if quantity == 0 {
        return Err(ContractError::InvalidQuantity);
    }
    if quantity > state.sale_config.max_per_public {
        return Err(ContractError::MaxMintReached);
    }
    let denom = mint_denom_string();
    match check_funds(funds, &denom, state.sale_config.public_price, quantity) {
        Err(_) => {
            return Err(ContractError::InsufficientFunds);
        },
        Ok(_) => {},
    }
    mint_tokens(state, sender, quantity)
}

/// Law: an allowlist entry is single-use. Whatever quantity a successful
/// allowlist mint created, a second allowlist mint attempt by the same
/// address fails `NotOnAllowlist` and changes nothing — however much supply
/// remains.
pub proof fn lemma_allowlist_single_use(
    pre: ContractState,
    mid: ContractState,
    post: ContractState,
    sender: String,
    funds1: Seq<Coin>,
    funds2: Seq<Coin>,
    q1: u64,
    q2: u64,
    r1: Result<u64, ContractError>,
    r2: Result<u64, ContractError>,
)
    requires
        mint_allowlist_post(pre, mid, sender, funds1, q1, r1),
        r1 is Ok,
        mint_allowlist_post(mid, post, sender, funds2, q2, r2),
    ensures
        r2 == Err::<u64, ContractError>(ContractError::NotOnAllowlist),
        post == mid,
{
}

/// Plain minting is disabled: tokens are only created through the tiers.
pub fn mint() -> (r: Result<(), ContractError>)
    ensures
        r == Err::<(), ContractError>(ContractError::MintDisabled),
{
    Err(ContractError::MintDisabled)
}

/// Burning is disabled: tokens are never deleted.
pub fn burn() -> (r: Result<(), ContractError>)
    ensures
        r == Err::<(), ContractError>(ContractError::BurnDisabled),
{
    Err(ContractError::BurnDisabled)
}

/// Builds the initial state: royalty config validated, both gates closed, no
/// token issued, empty membership lists, the instantiating sender as admin
/// and withdraw address.
pub fn instantiate(msg: InstantiateMsg, sender: String) -> (r: Result<
    ContractState,
    ContractError,
>)
    ensures
        msg.royalty_percentage > 100 ==> r == Err::<ContractState, ContractError>(
            ContractError::InvalidRoyaltyPercentage,
        ),
        msg.royalty_percentage <= 100 ==> match r {
            Ok(s) => {
                &&& s.wf()
                &&& s.name == msg.name
                &&& s.symbol == msg.symbol
                &&& s.base_token_uri == msg.base_token_uri
                &&& s.collection_size == msg.collection_size
                &&& s.ownership == (Ownership::Owned { admin: sender })
                &&& s.withdraw_address == Some(sender)
                &&& s.sale_config == (SaleConfigResponse {
                    og_price: msg.og_price,
                    allowlist_price: msg.allowlist_price,
                    public_price: msg.public_price,
                    max_per_og: msg.max_per_og,
                    max_per_allowlist: msg.max_per_allowlist,
                    max_per_public: msg.max_per_public,
                    og_sale_open: false,
                    allowlist_sale_open: false,
                    public_sale_open: false,
                })
                &&& s.royalty_config.royalty_percentage == msg.royalty_percentage
                &&& s.royalty_config.royalty_payment_address == msg.royalty_payment_address
                &&& s.leveling_config == (LevelingConfigResponse {
                    leveling_open: false,
                    max_experience: 0,
                })
                &&& s.token_count == 0
                &&& s.token_owners@.len() == 0
                &&& s.og_list@.len() == 0
                &&& s.allowlist@.len() == 0
                &&& s.token_levels@.len() == 0
            },
            Err(_) => false,
        },
{
    if msg.royalty_percentage > 100 {
        return Err(ContractError::InvalidRoyaltyPercentage);
    }
    let withdraw = sender.clone();
    Ok(
        ContractState {
            name: msg.name,
            symbol: msg.symbol,
            base_token_uri: msg.base_token_uri,
            collection_size: msg.collection_size,
            ownership: Ownership::Owned { admin: sender },
            withdraw_address: Some(withdraw),
            sale_config: SaleConfigResponse {
                og_price: msg.og_price,
                allowlist_price: msg.allowlist_price,
                public_price: msg.public_price,
                max_per_og: msg.max_per_og,
                max_per_allowlist: msg.max_per_allowlist,
                max_per_public: msg.max_per_public,
                og_sale_open: false,
                allowlist_sale_open: false,
                public_sale_open: false,
            },
            royalty_config: RoyaltyConfigResponse {
                royalty_percentage: msg.royalty_percentage,
                royalty_payment_address: msg.royalty_payment_address,
            },
            leveling_config: LevelingConfigResponse { leveling_open: false, max_experience: 0 },
            token_count: 0,
            token_owners: Vec::new(),
            og_list: Vec::new(),
            allowlist: Vec::new(),
            token_levels: Vec::new(),
        },
    )
}

} // verus!
