use std::collections::HashMap;

use anchor_lang::solana_program::pubkey::Pubkey;
use inventory::authority::{vault_authority, vault_seeds};
use inventory::{
    add_asset, buy_asset, close_inventory, create_inventory, initialize, update_asset_info,
    withdraw_asset, AssetInfo, Inventory, InventoryError, Key, Transfer,
};

fn key(n: u8) -> Key {
    Key::from_bytes([n; 32])
}

const OWNER: u8 = 1;
const ASSET: u8 = 2;
const REMIT: u8 = 3;
const BUYER: u8 = 4;
const BUYER_USDC: u8 = 5;
const BUYER_ASSET: u8 = 6;
const OWNER_ASSET: u8 = 7;
const PROGRAM: u8 = 9;

/// A ledger of one token: balances by account.
struct Ledger {
    balances: HashMap<[u8; 32], u64>,
}

impl Ledger {
    fn new() -> Ledger {
        Ledger { balances: HashMap::new() }
    }

    fn balance(&self, k: &Key) -> u64 {
        *self.balances.get(&k.bytes).unwrap_or(&0)
    }

    fn set(&mut self, k: &Key, v: u64) {
        self.balances.insert(k.bytes, v);
    }

    fn apply(&mut self, t: &Transfer) -> bool {
        let from = self.balance(&t.from);
        if from < t.amount {
            return false;
        }
        self.set(&t.from, from - t.amount);
        let to = self.balance(&t.to);
        self.set(&t.to, to + t.amount);
        true
    }
}

fn bump_for(asset: &Key, owner: &Key) -> (Key, u8) {
    let pid = Pubkey::new_from_array(key(PROGRAM).bytes);
    let (address, bump) =
        Pubkey::find_program_address(&[b"vault", &asset.bytes, &owner.bytes], &pid);
    (Key::from_bytes(address.to_bytes()), bump)
}

/// Whitelist the asset, open its vault at price 100 and deposit 50 units.
fn stocked() -> (Inventory, AssetInfo, Ledger, Ledger, Key, u8) {
    let owner = key(OWNER);
    let mut inv = initialize(owner);
    inv.add_asset(&owner, &key(ASSET)).unwrap();
    let mut info = create_inventory(&inv, &owner, &key(ASSET), 100, &key(REMIT)).unwrap();
    let (vault, bump) = bump_for(&key(ASSET), &owner);
    let mut assets = Ledger::new();
    assets.set(&key(OWNER_ASSET), 60);
    let deposit = info.add(&inv, &owner, &key(OWNER_ASSET), 60, &vault, 50).unwrap();
    let ok = assets.apply(&deposit.transfer());
    add_asset(&mut info, &deposit, ok).unwrap();
    (inv, info, assets, Ledger::new(), vault, bump)
}

#[test]
fn deposit_then_purchase_moves_both_legs() {
    let (inv, mut info, mut assets, mut usdc, vault, bump) = stocked();
    assert_eq!(info.amount, 50);
    assert_eq!(assets.balance(&vault), 50);
    usdc.set(&key(BUYER_USDC), 4000);
    let plan = info
        .buy(&inv, &key(BUYER), &key(BUYER_USDC), 4000, &key(BUYER_ASSET), bump, &key(PROGRAM), 30)
        .unwrap();
    assert_eq!(plan.payment().amount, 3000);
    assert!(plan.payment().to == key(REMIT));
    assert!(plan.release().from == vault);
    let paid = usdc.apply(&plan.payment());
    let released = paid && assets.apply(&plan.release());
    buy_asset(&mut info, &plan, paid, released).unwrap();
    assert_eq!(info.amount, 20);
    assert_eq!(usdc.balance(&key(BUYER_USDC)), 1000);
    assert_eq!(usdc.balance(&key(REMIT)), 3000);
    assert_eq!(assets.balance(&key(BUYER_ASSET)), 30);
    assert_eq!(assets.balance(&vault), 20);
}

#[test]
fn purchase_without_funds_moves_nothing() {
    let (inv, info, assets, mut usdc, vault, bump) = stocked();
    usdc.set(&key(BUYER_USDC), 1000);
    let r = info.buy(&inv, &key(BUYER), &key(BUYER_USDC), 1000, &key(BUYER_ASSET), bump, &key(PROGRAM), 30);
    assert!(matches!(r, Err(InventoryError::InsufficientFunds)));
    assert_eq!(info.amount, 50);
    assert_eq!(usdc.balance(&key(BUYER_USDC)), 1000);
    assert_eq!(usdc.balance(&key(REMIT)), 0);
    assert_eq!(assets.balance(&vault), 50);
    assert_eq!(assets.balance(&key(BUYER_ASSET)), 0);
}

#[test]
fn update_to_zero_price_is_refused() {
    let (inv, mut info, _assets, _usdc, _vault, _bump) = stocked();
    let r = update_asset_info(&mut info, &inv, &key(OWNER), 0, &key(REMIT));
    assert_eq!(r, Err(InventoryError::InvalidPrice));
    assert_eq!(info.price, 100);
    update_asset_info(&mut info, &inv, &key(OWNER), 250, &key(8)).unwrap();
    assert_eq!(info.price, 250);
    assert!(info.usdc_remit_account == key(8));
}

#[test]
fn update_by_stranger_is_refused() {
    let (inv, mut info, _assets, _usdc, _vault, _bump) = stocked();
    let r = update_asset_info(&mut info, &inv, &key(BUYER), 7, &key(8));
    assert_eq!(r, Err(InventoryError::Unauthorized));
    assert_eq!(info.price, 100);
    assert!(info.usdc_remit_account == key(REMIT));
}

#[test]
fn adding_an_asset_twice_is_refused() {
    let owner = key(OWNER);
    let mut inv = initialize(owner);
    assert_eq!(inv.add_asset(&owner, &key(ASSET)), Ok(()));
    assert_eq!(inv.add_asset(&owner, &key(ASSET)), Err(InventoryError::AlreadyWhitelisted));
    assert_eq!(inv.assets.len(), 1);
    assert!(inv.contains(&key(ASSET)));
}

#[test]
fn whitelist_is_owner_only() {
    let mut inv = initialize(key(OWNER));
    assert_eq!(inv.add_asset(&key(BUYER), &key(ASSET)), Err(InventoryError::Unauthorized));
    assert!(!inv.contains(&key(ASSET)));
    assert_eq!(inv.remove_asset(&key(OWNER), &key(ASSET)), Err(InventoryError::NotWhitelisted));
    inv.add_asset(&key(OWNER), &key(ASSET)).unwrap();
    inv.add_asset(&key(OWNER), &key(8)).unwrap();
    assert_eq!(inv.remove_asset(&key(BUYER), &key(ASSET)), Err(InventoryError::Unauthorized));
    assert_eq!(inv.remove_asset(&key(OWNER), &key(ASSET)), Ok(()));
    assert!(!inv.contains(&key(ASSET)));
    assert!(inv.contains(&key(8)));
    assert_eq!(inv.check_asset(&key(ASSET)), Err(InventoryError::AssetNotWhitelisted));
    assert_eq!(inv.check_asset(&key(8)), Ok(()));
}

#[test]
fn vault_is_created_only_for_whitelisted_assets() {
    let owner = key(OWNER);
    let inv = initialize(owner);
    let r = create_inventory(&inv, &owner, &key(ASSET), 100, &key(REMIT));
    assert!(matches!(r, Err(InventoryError::AssetNotWhitelisted)));
    let mut inv = inv;
    inv.add_asset(&owner, &key(ASSET)).unwrap();
    let r = create_inventory(&inv, &key(BUYER), &key(ASSET), 100, &key(REMIT));
    assert!(matches!(r, Err(InventoryError::Unauthorized)));
    let r = create_inventory(&inv, &owner, &key(ASSET), 0, &key(REMIT));
    assert!(matches!(r, Err(InventoryError::InvalidPrice)));
    let info = create_inventory(&inv, &owner, &key(ASSET), 100, &key(REMIT)).unwrap();
    assert_eq!(info.amount, 0);
    assert_eq!(info.price, 100);
}

#[test]
fn deposit_checks() {
    let owner = key(OWNER);
    let mut inv = initialize(owner);
    inv.add_asset(&owner, &key(ASSET)).unwrap();
    let mut info = create_inventory(&inv, &owner, &key(ASSET), 100, &key(REMIT)).unwrap();
    let vault = key(10);
    let r = info.add(&inv, &key(BUYER), &key(OWNER_ASSET), 60, &vault, 50);
    assert!(matches!(r, Err(InventoryError::Unauthorized)));
    let r = info.add(&inv, &owner, &key(OWNER_ASSET), 49, &vault, 50);
    assert!(matches!(r, Err(InventoryError::InsufficientAsset)));
    let d = info.add(&inv, &owner, &key(OWNER_ASSET), 50, &vault, 50).unwrap();
    assert!(d.transfer().authority == owner);
    assert!(d.transfer().to == vault);
    assert!(d.transfer().signer_seeds.is_empty());
    assert_eq!(add_asset(&mut info, &d, false), Err(InventoryError::ExternalTransferFailed));
    assert_eq!(info.amount, 0);
    inv.remove_asset(&owner, &key(ASSET)).unwrap();
    let r = info.add(&inv, &owner, &key(OWNER_ASSET), 60, &vault, 50);
    assert!(matches!(r, Err(InventoryError::AssetNotWhitelisted)));
}

#[test]
fn deposit_overflow_is_refused() {
    let owner = key(OWNER);
    let mut inv = initialize(owner);
    inv.add_asset(&owner, &key(ASSET)).unwrap();
    let mut info = create_inventory(&inv, &owner, &key(ASSET), 1, &key(REMIT)).unwrap();
    let d = info.add(&inv, &owner, &key(OWNER_ASSET), u64::MAX, &key(10), u64::MAX).unwrap();
    add_asset(&mut info, &d, true).unwrap();
    assert_eq!(info.amount, u64::MAX);
    let r = info.add(&inv, &owner, &key(OWNER_ASSET), 1, &key(10), 1);
    assert!(matches!(r, Err(InventoryError::ArithmeticOverflow)));
}

#[test]
fn purchase_of_whole_custody_and_one_more() {
    let (inv, mut info, _assets, _usdc, _vault, bump) = stocked();
    let r = info.buy(&inv, &key(BUYER), &key(BUYER_USDC), 1_000_000, &key(BUYER_ASSET), bump, &key(PROGRAM), 51);
    assert!(matches!(r, Err(InventoryError::InsufficientInventoryAsset)));
    assert_eq!(info.amount, 50);
    let plan = info
        .buy(&inv, &key(BUYER), &key(BUYER_USDC), 5000, &key(BUYER_ASSET), bump, &key(PROGRAM), 50)
        .unwrap();
    buy_asset(&mut info, &plan, true, true).unwrap();
    assert_eq!(info.amount, 0);
}

#[test]
fn failed_release_leaves_custody() {
    let (inv, mut info, _assets, _usdc, _vault, bump) = stocked();
    let plan = info
        .buy(&inv, &key(BUYER), &key(BUYER_USDC), 4000, &key(BUYER_ASSET), bump, &key(PROGRAM), 30)
        .unwrap();
    assert_eq!(buy_asset(&mut info, &plan, true, false), Err(InventoryError::ExternalTransferFailed));
    assert_eq!(info.amount, 50);
    assert_eq!(buy_asset(&mut info, &plan, false, false), Err(InventoryError::ExternalTransferFailed));
    assert_eq!(info.amount, 50);
}

#[test]
fn purchase_cost_overflow_is_refused() {
    let (inv, mut info, _assets, _usdc, _vault, bump) = stocked();
    update_asset_info(&mut info, &inv, &key(OWNER), u64::MAX, &key(REMIT)).unwrap();
    let r = info.buy(&inv, &key(BUYER), &key(BUYER_USDC), u64::MAX, &key(BUYER_ASSET), bump, &key(PROGRAM), 2);
    assert!(matches!(r, Err(InventoryError::ArithmeticOverflow)));
}

#[test]
fn purchase_is_open_to_any_buyer() {
    let (inv, info, _assets, _usdc, _vault, bump) = stocked();
    for buyer in [OWNER, BUYER, 200] {
        let plan = info
            .buy(&inv, &key(buyer), &key(BUYER_USDC), 100, &key(BUYER_ASSET), bump, &key(PROGRAM), 1)
            .unwrap();
        assert!(plan.payment().authority == key(buyer));
    }
}

#[test]
fn withdraw_checks() {
    let (inv, mut info, mut assets, _usdc, vault, bump) = stocked();
    let r = info.withdraw(&inv, &key(BUYER), &key(OWNER_ASSET), bump, &key(PROGRAM), 10);
    assert!(matches!(r, Err(InventoryError::Unauthorized)));
    let r = info.withdraw(&inv, &key(OWNER), &key(OWNER_ASSET), bump, &key(PROGRAM), 51);
    assert!(matches!(r, Err(InventoryError::InsufficientInventoryAsset)));
    let w = info.withdraw(&inv, &key(OWNER), &key(OWNER_ASSET), bump, &key(PROGRAM), 10).unwrap();
    assert!(w.transfer().from == vault);
    assert!(w.transfer().authority == vault);
    assert_eq!(withdraw_asset(&mut info, &w, false), Err(InventoryError::ExternalTransferFailed));
    assert_eq!(info.amount, 50);
    let ok = assets.apply(&w.transfer());
    withdraw_asset(&mut info, &w, ok).unwrap();
    assert_eq!(info.amount, 40);
    assert_eq!(assets.balance(&key(OWNER_ASSET)), 20);
}

#[test]
fn vault_authority_matches_the_ledger_derivation() {
    let (expected, bump) = bump_for(&key(ASSET), &key(OWNER));
    let derived = vault_authority(&key(ASSET), &key(OWNER), bump, &key(PROGRAM)).unwrap();
    assert!(derived == expected);
    assert!(!(derived == key(PROGRAM)));
    let other = vault_authority(&key(8), &key(OWNER), bump, &key(PROGRAM));
    assert!(other.map_or(true, |k| !(k == expected)));
    let seeds = vault_seeds(&key(ASSET), &key(OWNER), bump);
    assert_eq!(seeds.len(), 4);
    assert_eq!(seeds[0], b"vault".to_vec());
    assert_eq!(seeds[1], vec![ASSET; 32]);
    assert_eq!(seeds[2], vec![OWNER; 32]);
    assert_eq!(seeds[3], vec![bump]);
}

#[test]
fn close_requires_an_empty_vault() {
    let (mut inv, mut info, _assets, _usdc, _vault, bump) = stocked();
    assert_eq!(close_inventory(&mut inv, &key(BUYER), &info), Err(InventoryError::Unauthorized));
    assert_eq!(close_inventory(&mut inv, &key(OWNER), &info), Err(InventoryError::InventoryNotEmpty));
    assert!(inv.contains(&key(ASSET)));
    let w = info.withdraw(&inv, &key(OWNER), &key(OWNER_ASSET), bump, &key(PROGRAM), 50).unwrap();
    withdraw_asset(&mut info, &w, true).unwrap();
    assert_eq!(close_inventory(&mut inv, &key(OWNER), &info), Ok(()));
    assert!(!inv.contains(&key(ASSET)));
    assert_eq!(close_inventory(&mut inv, &key(OWNER), &info), Err(InventoryError::NotWhitelisted));
}

#[test]
fn seeds_that_derive_no_authority_are_refused() {
    let (inv, info, _assets, _usdc, _vault, _bump) = stocked();
    let mut bad: Option<u8> = None;
    for b in 0..=255u8 {
        if vault_authority(&key(ASSET), &key(OWNER), b, &key(PROGRAM)).is_none() {
            bad = Some(b);
            break;
        }
    }
    let b = bad.expect("some bump lands on the curve");
    let r = info.withdraw(&inv, &key(OWNER), &key(OWNER_ASSET), b, &key(PROGRAM), 1);
    assert!(matches!(r, Err(InventoryError::InvalidVault)));
    let r = info.buy(&inv, &key(BUYER), &key(BUYER_USDC), 100, &key(BUYER_ASSET), b, &key(PROGRAM), 1);
    assert!(matches!(r, Err(InventoryError::InvalidVault)));
}

#[test]
fn restored_record_keeps_stored_fields() {
    let info = AssetInfo::restore(key(ASSET), 100, 50, key(REMIT));
    assert_eq!(info.amount, 50);
    assert_eq!(info.price, 100);
    assert!(info.asset_key == key(ASSET));
    assert!(info.usdc_remit_account == key(REMIT));
    let fresh = AssetInfo::new(key(ASSET), 7, key(REMIT));
    assert_eq!(fresh.amount, 0);
}

#[test]
fn unlisted_asset_is_refused_before_the_caller() {
    let owner = key(OWNER);
    let mut inv = initialize(owner);
    inv.add_asset(&owner, &key(ASSET)).unwrap();
    let info = create_inventory(&inv, &owner, &key(ASSET), 100, &key(REMIT)).unwrap();
    let r = create_inventory(&inv, &key(BUYER), &key(8), 100, &key(REMIT));
    assert!(matches!(r, Err(InventoryError::AssetNotWhitelisted)));
    inv.remove_asset(&owner, &key(ASSET)).unwrap();
    let r = info.add(&inv, &key(BUYER), &key(OWNER_ASSET), 60, &key(10), 50);
    assert!(matches!(r, Err(InventoryError::AssetNotWhitelisted)));
    let r = info.add(&inv, &key(BUYER), &key(OWNER_ASSET), 10, &key(10), 50);
    assert!(matches!(r, Err(InventoryError::AssetNotWhitelisted)));
}

#[test]
fn closing_an_unlisted_vault_is_refused_first() {
    let (mut inv, info, _assets, _usdc, _vault, _bump) = stocked();
    inv.remove_asset(&key(OWNER), &key(ASSET)).unwrap();
    assert_eq!(info.amount, 50);
    assert_eq!(close_inventory(&mut inv, &key(OWNER), &info), Err(InventoryError::NotWhitelisted));
    assert_eq!(inv.assets.len(), 0);
}
