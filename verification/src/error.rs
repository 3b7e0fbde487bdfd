use vstd::prelude::*;

verus! {

/// Every failure the contract core can report.
///
/// The variants keep the taxonomy apart: validation (`InvalidQuantity`,
/// `InvalidRoyaltyPercentage`), authorization (`NotAdmin` for the collection
/// admin, `UnauthorizedLeveling` for a token's owner, `NotOnAllowlist` /
/// `NotOnOgList` for tier membership), capacity (`MaxMintReached` for a tier
/// quota, `MaxSupplyReached` for the collection cap), payment
/// (`InsufficientFunds`), gate state (`LevelingNotOpen`, the three
/// `...SaleClosed` variants), and lookup (`NotFound`).
#[derive(Clone, Copy, Debug, PartialEq, Eq, Structural)]
pub enum ContractError {
    /// The caller does not hold the admin capability.
    NotAdmin,
    /// The caller is not the owner of the token whose timer it tried to toggle.
    UnauthorizedLeveling,
    /// The caller is not on the allowlist.
    NotOnAllowlist,
    /// The caller is not on the og list.
    NotOnOgList,
    /// A mint was requested with quantity zero.
    InvalidQuantity,
    /// The requested quantity exceeds the tier's quota.
    MaxMintReached,
    /// The attached payment does not cover the required total.
    InsufficientFunds,
    /// Minting would push the issued count past the collection cap.
    MaxSupplyReached,
    /// The allowlist sale is not open.
    AllowlistSaleClosed,
    /// The og sale is not open.
    OgSaleClosed,
    /// The public sale is not open.
    PublicSaleClosed,
    /// Starting a timer while the leveling gate is closed.
    LevelingNotOpen,
    /// A royalty percentage outside `[0, 100]`.
    InvalidRoyaltyPercentage,
    /// A new supply cap below the count already issued.
    InvalidCollectionSize,
    /// The referenced token id does not exist.
    NotFound,
    /// No withdraw address is set.
    NoWithdrawAddress,
    /// Plain minting is disabled; tokens are created through the tiers.
    MintDisabled,
    /// Burning is disabled; tokens are never deleted.
    BurnDisabled,
    /// Accepting an admin handover while none is pending.
    NoPendingAdmin,
    /// Accepting an admin handover that was proposed to someone else.
    NotPendingAdmin,
}

} // verus!
