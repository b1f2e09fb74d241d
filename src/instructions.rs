use vstd::prelude::*;

use crate::asset_info::{AssetInfo, Deposit, Movement, Purchase, Withdrawal};
use crate::error::InventoryError;
use crate::inventory::Inventory;
use crate::key::Key;

verus! {

/// A fresh registry, administered by `owner`, with nothing on its whitelist.
pub fn initialize(owner: Key) -> (r: Inventory)
    ensures
        r.wf(),
        r.owner@ == owner@,
        r.whitelist() == Set::<Seq<u8>>::empty(),
{
    Inventory::new(owner)
}

/// What `create_inventory` refuses, if anything.
pub open spec fn create_error(inventory: Inventory, caller: Seq<u8>, asset: Seq<u8>, price: int) -> Option<InventoryError> {
    if !inventory.whitelist().contains(asset) {
        Some(InventoryError::AssetNotWhitelisted)
    } else if caller != inventory.owner@ {
        Some(InventoryError::Unauthorized)
    } else if price == 0 {
        Some(InventoryError::InvalidPrice)
    } else {
        None
    }
}

/// Opens the vault record of a whitelisted asset, with nothing in custody.
/// Only the owner may open one, since the opener fixes the price and the
/// account that receives the proceeds.
pub fn create_inventory(inventory: &Inventory, caller: &Key, asset: &Key, price: u64, usdc_remit_account: &Key) -> (r: Result<AssetInfo, InventoryError>)
    ensures
        match r {
            Ok(info) => {
                &&& create_error(*inventory, caller@, asset@, price as int) is None
                &&& info.wf()
                &&& info.asset_key == *asset
                &&& info.price == price
                &&& info.amount == 0
                &&& info.usdc_remit_account == *usdc_remit_account
                &&& info.history@ == Seq::<Movement>::empty()
            },
            Err(e) => create_error(*inventory, caller@, asset@, price as int) == Some(e),
        },
{
    if !inventory.contains(asset) {
        return Err(InventoryError::AssetNotWhitelisted);
    }
    if !caller.same(&inventory.owner) {
        return Err(InventoryError::Unauthorized);
    }
    if price == 0 {
        return Err(InventoryError::InvalidPrice);
    }
    Ok(AssetInfo::new(*asset, price, *usdc_remit_account))
}

/// What `close_inventory` refuses, if anything.
pub open spec fn close_error(inventory: Inventory, caller: Seq<u8>, info: AssetInfo) -> Option<InventoryError> {
    if caller != inventory.owner@ {
        Some(InventoryError::Unauthorized)
    } else if !inventory.whitelist().contains(info.asset_key@) {
        Some(InventoryError::NotWhitelisted)
    } else if info.amount != 0 {
        Some(InventoryError::InventoryNotEmpty)
    } else {
        None
    }
}

/// Retires an empty vault: its asset leaves the whitelist, and the record may
/// then be closed.
pub fn close_inventory(inventory: &mut Inventory, caller: &Key, info: &AssetInfo) -> (r: Result<(), InventoryError>)
    requires
        old(inventory).wf(),
    ensures
        final(inventory).wf(),
        final(inventory).owner == old(inventory).owner,
        match r {
            Ok(()) => {
                &&& close_error(*old(inventory), caller@, *info) is None
                &&& final(inventory).whitelist() == old(inventory).whitelist().remove(info.asset_key@)
            },
            Err(e) => {
                &&& close_error(*old(inventory), caller@, *info) == Some(e)
                &&& final(inventory).whitelist() == old(inventory).whitelist()
            },
        },
{
    if !caller.same(&inventory.owner) {
        return Err(InventoryError::Unauthorized);
    }
    if !inventory.contains(&info.asset_key) {
        return Err(InventoryError::NotWhitelisted);
    }
    if info.amount != 0 {
        return Err(InventoryError::InventoryNotEmpty);
    }
    inventory.remove_asset(caller, &info.asset_key)
}

/// Settles a deposit once its transfer has been tried: custody grows by the
/// amount only if the ledger confirmed the transfer.
pub fn add_asset(info: &mut AssetInfo, deposit: &Deposit, confirmed: bool) -> (r: Result<(), InventoryError>)
    requires
        old(info).wf(),
    ensures
        final(info).wf(),
        match r {
            Ok(()) => {
                &&& confirmed
                &&& *final(info) == old(info).moved(
                    (old(info).amount + deposit.planned().amount) as u64,
                    Movement::Deposit(deposit.planned().amount),
                )
            },
            Err(e) => {
                &&& *final(info) == *old(info)
                &&& e == if !confirmed {
                    InventoryError::ExternalTransferFailed
                } else {
                    InventoryError::ArithmeticOverflow
                }
            },
        },
        r is Err <==> (!confirmed || old(info).amount + deposit.planned().amount > u64::MAX),
{
    if !confirmed {
        return Err(InventoryError::ExternalTransferFailed);
    }
    let amount = deposit.transfer().amount;
    let total = match info.amount.checked_add(amount) {
        Some(t) => t,
        None => {
            return Err(InventoryError::ArithmeticOverflow);
        },
    };
    proof {
        crate::asset_info::net_push(info.history@, Movement::Deposit(amount));
    }
    info.amount = total;
    info.history = Ghost(info.history@.push(Movement::Deposit(amount)));
    Ok(())
}

/// Settles a withdrawal once its transfer has been tried: custody shrinks by
/// the amount only if the ledger confirmed the transfer.
pub fn withdraw_asset(info: &mut AssetInfo, withdrawal: &Withdrawal, confirmed: bool) -> (r: Result<(), InventoryError>)
    requires
        old(info).wf(),
    ensures
        final(info).wf(),
        match r {
            Ok(()) => {
                &&& confirmed
                &&& *final(info) == old(info).moved(
                    (old(info).amount - withdrawal.planned().amount) as u64,
                    Movement::Withdrawal(withdrawal.planned().amount),
                )
            },
            Err(e) => {
                &&& *final(info) == *old(info)
                &&& e == if !confirmed {
                    InventoryError::ExternalTransferFailed
                } else {
                    InventoryError::InsufficientInventoryAsset
                }
            },
        },
        r is Err <==> (!confirmed || withdrawal.planned().amount > old(info).amount),
{
    if !confirmed {
        return Err(InventoryError::ExternalTransferFailed);
    }
    let amount = withdrawal.transfer().amount;
    if amount > info.amount {
        return Err(InventoryError::InsufficientInventoryAsset);
    }
    proof {
        crate::asset_info::net_push(info.history@, Movement::Withdrawal(amount));
    }
    info.amount = info.amount - amount;
    info.history = Ghost(info.history@.push(Movement::Withdrawal(amount)));
    Ok(())
}

/// What `update_asset_info` refuses, if anything.
pub open spec fn update_error(inventory: Inventory, caller: Seq<u8>, new_price: int) -> Option<InventoryError> {
    if caller != inventory.owner@ {
        Some(InventoryError::Unauthorized)
    } else if new_price == 0 {
        Some(InventoryError::InvalidPrice)
    } else {
        None
    }
}

/// Sets a new unit price and remittance account; only the owner may, and
/// never to a price of zero.
pub fn update_asset_info(info: &mut AssetInfo, inventory: &Inventory, caller: &Key, new_price: u64, new_usdc_account: &Key) -> (r: Result<(), InventoryError>)
    requires
        old(info).wf(),
    ensures
        final(info).wf(),
        match r {
            Ok(()) => {
                &&& update_error(*inventory, caller@, new_price as int) is None
                &&& *final(info) == (AssetInfo { price: new_price, usdc_remit_account: *new_usdc_account, ..*old(info) })
            },
            Err(e) => {
                &&& update_error(*inventory, caller@, new_price as int) == Some(e)
                &&& *final(info) == *old(info)
            },
        },
{
    if !caller.same(&inventory.owner) {
        return Err(InventoryError::Unauthorized);
    }
    if new_price == 0 {
        return Err(InventoryError::InvalidPrice);
    }
    info.price = new_price;
    info.usdc_remit_account = *new_usdc_account;
    Ok(())
}

/// Settles a purchase once its legs have been tried. Custody shrinks by the
/// amount bought only if both the payment and the release were confirmed;
/// otherwise the record is left as it was.
pub fn buy_asset(info: &mut AssetInfo, purchase: &Purchase, paid: bool, released: bool) -> (r: Result<(), InventoryError>)
    requires
        old(info).wf(),
    ensures
        final(info).wf(),
        match r {
            Ok(()) => {
                &&& paid && released
                &&& *final(info) == old(info).moved(
                    (old(info).amount - purchase.planned_release().amount) as u64,
                    Movement::Purchase(purchase.planned_release().amount),
                )
            },
            Err(e) => {
                &&& *final(info) == *old(info)
                &&& e == if !(paid && released) {
                    InventoryError::ExternalTransferFailed
                } else {
                    InventoryError::InsufficientInventoryAsset
                }
            },
        },
        r is Err <==> (!(paid && released) || purchase.planned_release().amount > old(info).amount),
{
    if !(paid && released) {
        return Err(InventoryError::ExternalTransferFailed);
    }
    let amount = purchase.release().amount;
    if amount > info.amount {
        return Err(InventoryError::InsufficientInventoryAsset);
    }
    proof {
        crate::asset_info::net_push(info.history@, Movement::Purchase(amount));
    }
    info.amount = info.amount - amount;
    info.history = Ghost(info.history@.push(Movement::Purchase(amount)));
    Ok(())
}

/// A caller other than the owner can neither deposit, nor withdraw, nor
/// change the price: a deposit is refused (for an unlisted asset with
/// `AssetNotWhitelisted`, else with `Unauthorized`), and a withdrawal or an
/// update with `Unauthorized`.
pub proof fn owner_only_operations(
    info: AssetInfo,
    inventory: Inventory,
    caller: Seq<u8>,
    balance: int,
    amount: int,
    new_price: int,
    vault: Option<Seq<u8>>,
)
    requires
        caller != inventory.owner@,
    ensures
        info.add_error(inventory, caller, balance, amount) is Some,
        inventory.whitelist().contains(info.asset_key@)
            ==> info.add_error(inventory, caller, balance, amount) == Some(InventoryError::Unauthorized),
        info.withdraw_error(inventory, caller, amount, vault) == Some(InventoryError::Unauthorized),
        update_error(inventory, caller, new_price) == Some(InventoryError::Unauthorized),
{
}

} // verus!
