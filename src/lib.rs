pub mod asset_info;
pub mod authority;
pub mod error;
pub mod instructions;
pub mod inventory;
pub mod key;

pub use asset_info::{AssetInfo, Deposit, Purchase, Transfer, Withdrawal};
pub use error::InventoryError;
pub use inventory::Inventory;
pub use key::Key;
pub use instructions::{add_asset, buy_asset, close_inventory, create_inventory, initialize, update_asset_info, withdraw_asset};
