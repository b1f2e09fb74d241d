use vstd::prelude::*;

verus! {

/// Every way an operation on the inventory can fail.
#[derive(Clone, Copy, Debug, PartialEq, Eq, Structural)]
pub enum InventoryError {
    /// The caller is not the inventory's owner.
    Unauthorized,
    /// The asset is not on the whitelist.
    AssetNotWhitelisted,
    /// The asset is already on the whitelist.
    AlreadyWhitelisted,
    /// The asset to remove is not on the whitelist.
    NotWhitelisted,
    /// The depositor holds less of the asset than it offers.
    InsufficientAsset,
    /// The vault holds less of the asset than requested.
    InsufficientInventoryAsset,
    /// The buyer holds less currency than the purchase costs.
    InsufficientFunds,
    /// A unit price of zero.
    InvalidPrice,
    /// A total cost or a custody amount that does not fit in 64 bits.
    ArithmeticOverflow,
    /// A transfer on the ledger was not confirmed.
    ExternalTransferFailed,
    /// The vault's seeds derive no authority.
    InvalidVault,
    /// The vault still holds some of the asset.
    InventoryNotEmpty,
}

} // verus!
