use vstd::prelude::*;

use crate::error::InventoryError;
use crate::key::Key;

verus! {

/// The registry: the whitelist of assets that may be vaulted, and the one
/// authority that administers it.
pub struct Inventory {
    pub owner: Key,
    pub assets: Vec<Key>,
}

impl Inventory {
    /// The identities on the whitelist.
    pub open spec fn whitelist(&self) -> Set<Seq<u8>> {
        Set::new(|id: Seq<u8>| exists|i: int| 0 <= i < self.assets@.len() && self.assets@[i]@ == id)
    }

    /// No asset is listed twice.
    pub open spec fn wf(&self) -> bool {
        forall|i: int, j: int|
            0 <= i < self.assets@.len() && 0 <= j < self.assets@.len() && i != j
                ==> self.assets@[i]@ != self.assets@[j]@
    }

    /// What `add_asset` returns.
    pub open spec fn add_asset_result(&self, caller: Seq<u8>, asset: Seq<u8>) -> Result<(), InventoryError> {
        if caller != self.owner@ {
            Err(InventoryError::Unauthorized)
        } else if self.whitelist().contains(asset) {
            Err(InventoryError::AlreadyWhitelisted)
        } else {
            Ok(())
        }
    }

    /// What `remove_asset` returns.
    pub open spec fn remove_asset_result(&self, caller: Seq<u8>, asset: Seq<u8>) -> Result<(), InventoryError> {
        if caller != self.owner@ {
            Err(InventoryError::Unauthorized)
        } else if !self.whitelist().contains(asset) {
            Err(InventoryError::NotWhitelisted)
        } else {
            Ok(())
        }
    }

    /// An empty whitelist administered by `owner`.
    pub fn new(owner: Key) -> (r: Inventory)
        ensures
            r.wf(),
            r.owner@ == owner@,
            r.whitelist() == Set::<Seq<u8>>::empty(),
    {
        let r = Inventory { owner, assets: Vec::new() };
        assert(r.whitelist() =~= Set::<Seq<u8>>::empty());
        r
    }

    /// Where `asset` stands on the whitelist, if it does.
    fn position(&self, asset: &Key) -> (r: Option<usize>)
        ensures
            match r {
                Some(i) => i < self.assets@.len() && self.assets@[i as int]@ == asset@,
                None => !self.whitelist().contains(asset@),
            },
    {
        let mut i: usize = 0;
        while i < self.assets.len()
            invariant
                0 <= i <= self.assets@.len(),
                forall|j: int| 0 <= j < i ==> self.assets@[j]@ != asset@,
            decreases self.assets@.len() - i,
        {
            if self.assets[i].same(asset) {
                return Some(i);
            }
            i = i + 1;
        }
        None
    }

    /// Whether `asset` is on the whitelist.
    pub fn contains(&self, asset: &Key) -> (r: bool)
        ensures
            r == self.whitelist().contains(asset@),
    {
        self.position(asset).is_some()
    }

    /// Succeeds exactly when `asset` is on the whitelist.
    pub fn check_asset(&self, asset: &Key) -> (r: Result<(), InventoryError>)
        ensures
            r is Ok <==> self.whitelist().contains(asset@),
            r is Err ==> r == Err::<(), InventoryError>(InventoryError::AssetNotWhitelisted),
    {
        if self.contains(asset) {
            Ok(())
        } else {
            Err(InventoryError::AssetNotWhitelisted)
        }
    }

    /// Puts `asset` on the whitelist; only the owner may, and only once.
    pub fn add_asset(&mut self, caller: &Key, asset: &Key) -> (r: Result<(), InventoryError>)
        requires
            old(self).wf(),
        ensures
            final(self).wf(),
            r == old(self).add_asset_result(caller@, asset@),
            final(self).owner == old(self).owner,
            r is Ok ==> final(self).whitelist() == old(self).whitelist().insert(asset@),
            r is Err ==> final(self).whitelist() == old(self).whitelist(),
    {
        if !caller.same(&self.owner) {
            return Err(InventoryError::Unauthorized);
        }
        if self.contains(asset) {
            return Err(InventoryError::AlreadyWhitelisted);
        }
        let ghost before = self.assets@;
        self.assets.push(*asset);
        assert(self.assets@[before.len() as int] == *asset);
        assert forall|i: int| 0 <= i < before.len() implies self.assets@[i] == before[i] by {}
        assert(self.whitelist() =~= old(self).whitelist().insert(asset@)) by {
            assert forall|id: Seq<u8>| self.whitelist().contains(id) implies old(self).whitelist().insert(asset@).contains(id) by {
                let i = choose|i: int| 0 <= i < self.assets@.len() && self.assets@[i]@ == id;
                if i < before.len() {
                    assert(old(self).whitelist().contains(id));
                }
            }
            assert forall|id: Seq<u8>| old(self).whitelist().insert(asset@).contains(id) implies self.whitelist().contains(id) by {
                if id == asset@ {
                    assert(self.assets@[before.len() as int]@ == id);
                } else {
                    let i = choose|i: int| 0 <= i < before.len() && before[i]@ == id;
                    assert(self.assets@[i]@ == id);
                }
            }
        }
        Ok(())
    }

    /// Takes `asset` off the whitelist; only the owner may, and only if it is there.
    pub fn remove_asset(&mut self, caller: &Key, asset: &Key) -> (r: Result<(), InventoryError>)
        requires
            old(self).wf(),
        ensures
            final(self).wf(),
            r == old(self).remove_asset_result(caller@, asset@),
            final(self).owner == old(self).owner,
            r is Ok ==> final(self).whitelist() == old(self).whitelist().remove(asset@),
            r is Err ==> final(self).whitelist() == old(self).whitelist(),
    {
        if !caller.same(&self.owner) {
            return Err(InventoryError::Unauthorized);
        }
        let found = self.position(asset);
        let k = match found {
            Some(k) => k,
            None => {
                return Err(InventoryError::NotWhitelisted);
            },
        };
        let ghost before = self.assets@;
        self.assets.remove(k);
        assert(self.assets@ == before.remove(k as int));
        assert(self.whitelist() =~= old(self).whitelist().remove(asset@)) by {
            assert forall|id: Seq<u8>| self.whitelist().contains(id) implies old(self).whitelist().remove(asset@).contains(id) by {
                let i = choose|i: int| 0 <= i < self.assets@.len() && self.assets@[i]@ == id;
                if i < k {
                    assert(before[i]@ == id);
                } else {
                    assert(before[i + 1]@ == id);
                }
            }
            assert forall|id: Seq<u8>| old(self).whitelist().remove(asset@).contains(id) implies self.whitelist().contains(id) by {
                let i = choose|i: int| 0 <= i < before.len() && before[i]@ == id;
                assert(i != k);
                if i < k {
                    assert(self.assets@[i]@ == id);
                } else {
                    assert(self.assets@[i - 1]@ == id);
                }
            }
        }
        Ok(())
    }
}

/// Adding an asset that was just added fails with `AlreadyWhitelisted` and
/// leaves the whitelist as the first call left it.
pub proof fn add_asset_twice(inv: Inventory, caller: Seq<u8>, asset: Seq<u8>, after: Inventory)
    requires
        inv.add_asset_result(caller, asset) is Ok,
        after.owner == inv.owner,
        after.whitelist() == inv.whitelist().insert(asset),
    ensures
        after.add_asset_result(caller, asset) == Err::<(), InventoryError>(InventoryError::AlreadyWhitelisted),
{
}

} // verus!
