use vstd::prelude::*;

use crate::authority::{program_address, vault_authority, vault_seed_tuple, vault_seeds, seeds_view};
use crate::error::InventoryError;
use crate::inventory::Inventory;
use crate::key::Key;

verus! {

/// A confirmed change of a vault's custody.
pub enum Movement {
    Deposit(u64),
    Withdrawal(u64),
    Purchase(u64),
    /// A balance brought in from stored state, counted as received.
    Carried(u64),
}

impl Movement {
    pub open spec fn delta(self) -> int {
        match self {
            Movement::Deposit(n) => n as int,
            Movement::Withdrawal(n) => -(n as int),
            Movement::Purchase(n) => -(n as int),
            Movement::Carried(n) => n as int,
        }
    }
}

/// Confirmed deposits, less confirmed withdrawals and purchases.
pub open spec fn net(history: Seq<Movement>) -> int
    decreases history.len(),
{
    if history.len() == 0 {
        0
    } else {
        net(history.drop_last()) + history.last().delta()
    }
}

pub(crate) proof fn net_push(history: Seq<Movement>, m: Movement)
    ensures
        net(history.push(m)) == net(history) + m.delta(),
{
    assert(history.push(m).drop_last() =~= history);
}

/// One transfer on the ledger: `amount` moves from `from` to `to`, signed by
/// `authority`; a vault signs with `signer_seeds`, a caller with none.
pub struct Transfer {
    pub from: Key,
    pub to: Key,
    pub authority: Key,
    pub amount: u64,
    pub signer_seeds: Vec<Vec<u8>>,
}

/// A deposit that has passed its checks and waits for its transfer.
pub struct Deposit {
    transfer: Transfer,
}

impl Deposit {
    pub closed spec fn planned(&self) -> Transfer {
        self.transfer
    }

    /// The transfer to make.
    pub fn transfer(&self) -> (r: &Transfer)
        ensures
            *r == self.planned(),
    {
        &self.transfer
    }
}

/// A withdrawal that has passed its checks and waits for its transfer.
pub struct Withdrawal {
    transfer: Transfer,
}

impl Withdrawal {
    pub closed spec fn planned(&self) -> Transfer {
        self.transfer
    }

    /// The transfer to make.
    pub fn transfer(&self) -> (r: &Transfer)
        ensures
            *r == self.planned(),
    {
        &self.transfer
    }
}

/// A purchase that has passed its checks: the payment leg goes first, the
/// release of the asset second.
pub struct Purchase {
    payment: Transfer,
    release: Transfer,
}

impl Purchase {
    pub closed spec fn planned_payment(&self) -> Transfer {
        self.payment
    }

    pub closed spec fn planned_release(&self) -> Transfer {
        self.release
    }

    /// The payment leg, made first.
    pub fn payment(&self) -> (r: &Transfer)
        ensures
            *r == self.planned_payment(),
    {
        &self.payment
    }

    /// The release of the asset, made once the payment is confirmed.
    pub fn release(&self) -> (r: &Transfer)
        ensures
            *r == self.planned_release(),
    {
        &self.release
    }
}

/// The vault record of one asset.
pub struct AssetInfo {
    pub asset_key: Key,
    /// Price of one unit, in minor units of the currency.
    pub price: u64,
    /// Quantity held in custody.
    pub amount: u64,
    /// Where the proceeds of purchases go.
    pub usdc_remit_account: Key,
    /// The confirmed movements of custody, oldest first.
    pub history: Ghost<Seq<Movement>>,
}

impl AssetInfo {
    /// The custody amount is what the confirmed movements add up to, and the
    /// price is positive.
    pub open spec fn wf(&self) -> bool {
        &&& self.amount as int == net(self.history@)
        &&& self.price > 0
    }

    /// The same record with another custody amount and one more movement.
    pub open spec fn moved(&self, amount: u64, m: Movement) -> AssetInfo {
        AssetInfo { amount, history: Ghost(self.history@.push(m)), ..*self }
    }

    /// Why a deposit of `amount` by `caller`, who holds `balance`, is refused,
    /// if it is.
    pub open spec fn add_error(&self, inventory: Inventory, caller: Seq<u8>, balance: int, amount: int) -> Option<InventoryError> {
        if !inventory.whitelist().contains(self.asset_key@) {
            Some(InventoryError::AssetNotWhitelisted)
        } else if caller != inventory.owner@ {
            Some(InventoryError::Unauthorized)
        } else if balance < amount {
            Some(InventoryError::InsufficientAsset)
        } else if self.amount + amount > u64::MAX {
            Some(InventoryError::ArithmeticOverflow)
        } else {
            None
        }
    }

    /// Why a withdrawal of `amount` by `caller` is refused, if it is; `vault`
    /// is the derived authority of the vault.
    pub open spec fn withdraw_error(&self, inventory: Inventory, caller: Seq<u8>, amount: int, vault: Option<Seq<u8>>) -> Option<InventoryError> {
        if caller != inventory.owner@ {
            Some(InventoryError::Unauthorized)
        } else if amount > self.amount {
            Some(InventoryError::InsufficientInventoryAsset)
        } else if vault is None {
            Some(InventoryError::InvalidVault)
        } else {
            None
        }
    }

    /// Why a purchase of `amount` by a buyer who holds `balance` of the
    /// currency is refused, if it is; `vault` is the derived authority.
    pub open spec fn buy_error(&self, balance: int, amount: int, vault: Option<Seq<u8>>) -> Option<InventoryError> {
        if amount > self.amount {
            Some(InventoryError::InsufficientInventoryAsset)
        } else if self.price * amount > u64::MAX {
            Some(InventoryError::ArithmeticOverflow)
        } else if self.price * amount > balance {
            Some(InventoryError::InsufficientFunds)
        } else if vault is None {
            Some(InventoryError::InvalidVault)
        } else {
            None
        }
    }

    /// A record of `asset_key` with nothing in custody.
    pub fn new(asset_key: Key, price: u64, usdc_remit_account: Key) -> (r: AssetInfo)
        requires
            price > 0,
        ensures
            r.wf(),
            r.asset_key == asset_key,
            r.price == price,
            r.amount == 0,
            r.usdc_remit_account == usdc_remit_account,
            r.history@ == Seq::<Movement>::empty(),
    {
        AssetInfo { asset_key, price, amount: 0, usdc_remit_account, history: Ghost(Seq::empty()) }
    }

    /// A record rebuilt from stored fields: the stored custody amount is its
    /// one movement so far.
    pub fn restore(asset_key: Key, price: u64, amount: u64, usdc_remit_account: Key) -> (r: AssetInfo)
        requires
            price > 0,
        ensures
            r.wf(),
            r.asset_key == asset_key,
            r.price == price,
            r.amount == amount,
            r.usdc_remit_account == usdc_remit_account,
            r.history@ == seq![Movement::Carried(amount)],
    {
        let r = AssetInfo { asset_key, price, amount, usdc_remit_account, history: Ghost(Seq::empty().push(Movement::Carried(amount))) };
        proof {
            net_push(Seq::empty(), Movement::Carried(amount));
            assert(Seq::<Movement>::empty().push(Movement::Carried(amount)) =~= seq![Movement::Carried(amount)]);
        }
        r
    }

    /// Checks a deposit of `amount` from the account `from` of `caller`, who
    /// holds `balance` of the asset there, into the custody account `vault`,
    /// and shapes its transfer, signed by the caller.
    pub fn add(&self, inventory: &Inventory, caller: &Key, from: &Key, balance: u64, vault: &Key, amount: u64) -> (r: Result<Deposit, InventoryError>)
        ensures
            match r {
                Ok(d) => {
                    &&& self.add_error(*inventory, caller@, balance as int, amount as int) is None
                    &&& d.planned().from == *from
                    &&& d.planned().to == *vault
                    &&& d.planned().authority == *caller
                    &&& d.planned().amount == amount
                    &&& d.planned().signer_seeds@.len() == 0
                },
                Err(e) => self.add_error(*inventory, caller@, balance as int, amount as int) == Some(e),
            },
    {
        if !inventory.contains(&self.asset_key) {
            return Err(InventoryError::AssetNotWhitelisted);
        }
        if !caller.same(&inventory.owner) {
            return Err(InventoryError::Unauthorized);
        }
        if balance < amount {
            return Err(InventoryError::InsufficientAsset);
        }
        if self.amount.checked_add(amount).is_none() {
            return Err(InventoryError::ArithmeticOverflow);
        }
        Ok(Deposit { transfer: Transfer { from: *from, to: *vault, authority: *caller, amount, signer_seeds: Vec::new() } })
    }

    /// Checks a withdrawal of `amount` to the owner's account `to`, and shapes
    /// its transfer out of the vault, signed by the vault's derived authority.
    pub fn withdraw(&self, inventory: &Inventory, caller: &Key, to: &Key, bump: u8, program_id: &Key, amount: u64) -> (r: Result<Withdrawal, InventoryError>)
        ensures
            ({
                let vault = program_address(vault_seed_tuple(self.asset_key@, inventory.owner@, bump), program_id@);
                match r {
                    Ok(w) => {
                        &&& self.withdraw_error(*inventory, caller@, amount as int, vault) is None
                        &&& vault == Some(w.planned().from@)
                        &&& w.planned().authority == w.planned().from
                        &&& w.planned().to == *to
                        &&& w.planned().amount == amount
                        &&& seeds_view(w.planned().signer_seeds@) == vault_seed_tuple(self.asset_key@, inventory.owner@, bump)
                    },
                    Err(e) => self.withdraw_error(*inventory, caller@, amount as int, vault) == Some(e),
                }
            }),
    {
        if !caller.same(&inventory.owner) {
            return Err(InventoryError::Unauthorized);
        }
        if amount > self.amount {
            return Err(InventoryError::InsufficientInventoryAsset);
        }
        let vault = match vault_authority(&self.asset_key, &inventory.owner, bump, program_id) {
            Some(v) => v,
            None => {
                return Err(InventoryError::InvalidVault);
            },
        };
        let seeds = vault_seeds(&self.asset_key, &inventory.owner, bump);
        Ok(Withdrawal { transfer: Transfer { from: vault, to: *to, authority: vault, amount, signer_seeds: seeds } })
    }

    /// Checks a purchase of `amount` by `buyer`, who pays from `pay_from`
    /// holding `balance` of the currency and receives into `receive_to`, and
    /// shapes its two legs: the payment of the total cost to the remittance
    /// account, signed by the buyer, then the release of the asset, signed by
    /// the vault's derived authority.
    pub fn buy(
        &self,
        inventory: &Inventory,
        buyer: &Key,
        pay_from: &Key,
        balance: u64,
        receive_to: &Key,
        bump: u8,
        program_id: &Key,
        amount: u64,
    ) -> (r: Result<Purchase, InventoryError>)
        ensures
            ({
                let vault = program_address(vault_seed_tuple(self.asset_key@, inventory.owner@, bump), program_id@);
                match r {
                    Ok(p) => {
                        &&& self.buy_error(balance as int, amount as int, vault) is None
                        &&& p.planned_payment().from == *pay_from
                        &&& p.planned_payment().to == self.usdc_remit_account
                        &&& p.planned_payment().authority == *buyer
                        &&& p.planned_payment().amount == self.price * amount
                        &&& p.planned_payment().signer_seeds@.len() == 0
                        &&& vault == Some(p.planned_release().from@)
                        &&& p.planned_release().authority == p.planned_release().from
                        &&& p.planned_release().to == *receive_to
                        &&& p.planned_release().amount == amount
                        &&& seeds_view(p.planned_release().signer_seeds@) == vault_seed_tuple(self.asset_key@, inventory.owner@, bump)
                    },
                    Err(e) => self.buy_error(balance as int, amount as int, vault) == Some(e),
                }
            }),
    {
        if amount > self.amount {
            return Err(InventoryError::InsufficientInventoryAsset);
        }
        let total_cost = match self.price.checked_mul(amount) {
            Some(c) => c,
            None => {
                return Err(InventoryError::ArithmeticOverflow);
            },
        };
        if total_cost > balance {
            return Err(InventoryError::InsufficientFunds);
        }
        let vault = match vault_authority(&self.asset_key, &inventory.owner, bump, program_id) {
            Some(v) => v,
            None => {
                return Err(InventoryError::InvalidVault);
            },
        };
        let seeds = vault_seeds(&self.asset_key, &inventory.owner, bump);
        let payment = Transfer { from: *pay_from, to: self.usdc_remit_account, authority: *buyer, amount: total_cost, signer_seeds: Vec::new() };
        let release = Transfer { from: vault, to: *receive_to, authority: vault, amount, signer_seeds: seeds };
        Ok(Purchase { payment, release })
    }
}

/// In every well-formed record the custody amount is the sum of confirmed
/// deposits less confirmed withdrawals and purchases, and that sum is never
/// negative.
pub proof fn custody_is_net_of_movements(info: AssetInfo)
    requires
        info.wf(),
    ensures
        info.amount as int == net(info.history@),
        net(info.history@) >= 0,
{
}

/// Buying exactly what is in custody passes every check where the buyer can
/// pay and the vault's authority derives, and settling it leaves nothing in
/// custody; buying one unit more is refused with `InsufficientInventoryAsset`.
pub proof fn purchase_boundary(info: AssetInfo, balance: int, vault: Option<Seq<u8>>)
    requires
        info.wf(),
        info.price * info.amount <= u64::MAX,
        info.price * info.amount <= balance,
        vault is Some,
    ensures
        info.buy_error(balance, info.amount as int, vault) is None,
        info.moved((info.amount - info.amount) as u64, Movement::Purchase(info.amount)).amount == 0,
        info.moved((info.amount - info.amount) as u64, Movement::Purchase(info.amount)).wf(),
        info.buy_error(balance, info.amount + 1, vault) == Some(InventoryError::InsufficientInventoryAsset),
{
    net_push(info.history@, Movement::Purchase(info.amount));
}

} // verus!
