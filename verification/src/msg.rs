use vstd::prelude::*;

verus! {

// The response types of the contract's query set, and the instantiation
// message. Prices are plain `u128` amounts of the sale denomination and
// addresses are plain strings; the hosting platform's wrapper types stay
// outside the verified core.

/// Everything the contract needs at instantiation.
#[derive(Clone, Debug, PartialEq, Eq)]
pub struct InstantiateMsg {
    /// Name of the collection.
    pub name: String,
    /// Symbol of the collection.
    pub symbol: String,
    /// Base token uri of the collection.
    pub base_token_uri: String,
    /// Supply cap: tokens ever issued never exceed it.
    pub collection_size: u64,
    /// Royalty percentage, validated to `[0, 100]`.
    pub royalty_percentage: u64,
    /// Address royalties are paid to.
    pub royalty_payment_address: String,
    /// Price per token under the og sale.
    pub og_price: u128,
    /// Price per token under the allowlist sale.
    pub allowlist_price: u128,
    /// Price per token under the public sale.
    pub public_price: u128,
    /// Per-call quota of the og sale.
    pub max_per_og: u64,
    /// Per-call quota of the allowlist sale.
    pub max_per_allowlist: u64,
    /// Per-call quota of the public sale.
    pub max_per_public: u64,
}

/// The sales-tier configuration: per tier a price, a quota, and an open flag.
#[derive(Clone, Copy, Debug, PartialEq, Eq, Structural)]
pub struct SaleConfigResponse {
    pub og_price: u128,
    pub allowlist_price: u128,
    pub public_price: u128,
    pub max_per_og: u64,
    pub max_per_allowlist: u64,
    pub max_per_public: u64,
    pub og_sale_open: bool,
    pub allowlist_sale_open: bool,
    pub public_sale_open: bool,
}

/// Royalty configuration: a percentage in `[0, 100]` and a payment address.
#[derive(Clone, Debug, PartialEq, Eq)]
pub struct RoyaltyConfigResponse {
    pub royalty_percentage: u64,
    pub royalty_payment_address: String,
}

/// The leveling gate and the experience ceiling.
#[derive(Clone, Copy, Debug, PartialEq, Eq, Structural)]
pub struct LevelingConfigResponse {
    /// Whether new timers may be started.
    pub leveling_open: bool,
    /// Ceiling for every token's `total_exp`.
    pub max_experience: u64,
}

/// Per-token timer state. Idle is `leveling == false, start == 0`; Active is
/// `leveling == true, start == T0`.
#[derive(Clone, Copy, Debug, PartialEq, Eq, Structural)]
pub struct TokenLevelResponse {
    pub leveling: bool,
    pub leveling_start_timestamp: u64,
    pub total_exp: u64,
}

/// Royalty owed on a concrete sale.
#[derive(Clone, Debug, PartialEq, Eq)]
pub struct RoyaltiesInfoResponse {
    pub address: String,
    pub royalty_amount: u128,
}

/// Whether the contract implements royalties; always true here.
#[derive(Clone, Copy, Debug, PartialEq, Eq, Structural)]
pub struct CheckRoyaltiesResponse {
    pub royalty_payments: bool,
}

/// One page of per-token timer states, keyed by token id string.
#[derive(Clone, Debug, PartialEq, Eq)]
pub struct AllTokenLevelsResponse {
    pub token_levels: Vec<(String, TokenLevelResponse)>,
}

/// The current admin, if any.
#[derive(Clone, Debug, PartialEq, Eq)]
pub struct AdminResponse {
    pub admin: Option<String>,
}

#[derive(Clone, Copy, Debug, PartialEq, Eq, Structural)]
pub struct CollectionSizeResponse {
    pub collection_size: u64,
}

#[derive(Clone, Debug, PartialEq, Eq)]
pub struct BaseTokenUriResponse {
    pub base_token_uri: String,
}

/// Name and symbol of the collection.
#[derive(Clone, Debug, PartialEq, Eq)]
pub struct ContractInfoResponse {
    pub name: String,
    pub symbol: String,
}

/// Number of tokens issued so far.
#[derive(Clone, Copy, Debug, PartialEq, Eq, Structural)]
pub struct NumTokensResponse {
    pub count: u64,
}

/// The owner of one token.
#[derive(Clone, Debug, PartialEq, Eq)]
pub struct OwnerOfResponse {
    pub owner: String,
}

/// The two-phase handover state of the admin capability.
#[derive(Clone, Debug, PartialEq, Eq)]
pub struct OwnershipResponse {
    pub owner: Option<String>,
    pub pending_owner: Option<String>,
}

} // verus!
