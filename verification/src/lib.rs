//! Verified state-management core of a token-issuance contract.
//!
//! The library admits new token creation under four independently gated sales
//! tiers (team, og, allowlist, public) against a fixed supply cap, tracks a
//! per-token time-based experience accrual with an admin-controlled gate, and
//! computes sale royalties with floor rounding. The persistent key-value
//! store, message encoding, and transfer/approval bookkeeping of the hosting
//! platform are external collaborators: every operation here is a function
//! from an explicit [`state::ContractState`] aggregate (and an injected
//! timestamp) to its successor state, so the whole behaviour is stated in
//! contracts and checked by Verus.

pub mod admin;
pub mod admission;
pub mod contract;
pub mod error;
pub mod funds;
pub mod ids;
pub mod leveling;
pub mod levels;
pub mod msg;
pub mod query;
pub mod royalty;
pub mod state;
pub mod supply;

pub use admin::OwnershipAction;
pub use admission::instantiate;
pub use contract::{execute, query, Cw2981LevelingExecuteMsg, Cw2981LevelingQueryMsg, ExecuteMsg,
    ExecuteOutcome, QueryMsg, QueryResponse};
pub use error::ContractError;
pub use msg::{AdminResponse, AllTokenLevelsResponse, BaseTokenUriResponse, CheckRoyaltiesResponse,
    CollectionSizeResponse, ContractInfoResponse, InstantiateMsg, LevelingConfigResponse,
    NumTokensResponse, OwnerOfResponse, OwnershipResponse, RoyaltiesInfoResponse,
    RoyaltyConfigResponse, SaleConfigResponse, TokenLevelResponse};
pub use state::{Coin, ContractState, Ownership};
