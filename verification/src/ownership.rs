//! The bounded lists of ape ids that the accounts own.

use crate::identity::hash_eq;
use crate::model::{first_index, lemma_first_index, swap_removed};
use crate::types::{AccountId, ApeId, Error};
use vstd::prelude::*;

verus! {

/// For each account that has ever owned an ape, the ids it owns now.
pub struct OwnershipIndex {
    accounts: Vec<AccountId>,
    lists: Vec<Vec<ApeId>>,
}

impl OwnershipIndex {
    /// Every account has one list.
    pub closed spec fn inv(&self) -> bool {
        &&& self.accounts@.len() == self.lists@.len()
        &&& self.accounts@.no_duplicates()
    }

    /// The lists by account.
    pub closed spec fn view(&self) -> Map<AccountId, Seq<ApeId>> {
        Map::new(
            |account: AccountId| self.accounts@.contains(account),
            |account: AccountId| self.lists@[self.accounts@.index_of(account)]@,
        )
    }

    /// The ids that `account` owns: its list, or nothing where it has none.
    pub open spec fn list(&self, account: AccountId) -> Seq<ApeId> {
        if self@.contains_key(account) {
            self@[account]
        } else {
            Seq::empty()
        }
    }

    /// An index in which no account owns anything.
    pub fn new() -> (index: OwnershipIndex)
        ensures
            index.inv(),
            index@ == Map::<AccountId, Seq<ApeId>>::empty(),
    {
        let index = OwnershipIndex { accounts: Vec::new(), lists: Vec::new() };
        assert(index@ =~= Map::<AccountId, Seq<ApeId>>::empty());
        index
    }

    fn find(&self, account: AccountId) -> (found: Option<usize>)
        requires
            self.inv(),
        ensures
            match found {
                Some(k) => k < self.accounts@.len() && self.accounts@[k as int] == account
                    && self.accounts@.index_of(account) == k && self@.contains_key(account)
                    && self@[account] == self.lists@[k as int]@,
                None => !self@.contains_key(account),
            },
    {
        let mut k: usize = 0;
        while k < self.accounts.len()
            invariant
                self.inv(),
                k <= self.accounts@.len(),
                forall|j: int| 0 <= j < k ==> self.accounts@[j] != account,
            decreases self.accounts@.len() - k,
        {
            if self.accounts[k] == account {
                assert(self.accounts@.contains(account));
                return Some(k);
            }
            k += 1;
        }
        None
    }

    /// How many apes `account` owns.
    pub fn len_of(&self, account: AccountId) -> (len: usize)
        requires
            self.inv(),
        ensures
            len == self.list(account).len(),
    {
        match self.find(account) {
            Some(k) => self.lists[k].len(),
            None => 0,
        }
    }

    /// The ids that `account` owns, in the order of its list.
    pub fn ids_of(&self, account: AccountId) -> (ids: Vec<ApeId>)
        requires
            self.inv(),
        ensures
            ids@ == self.list(account),
    {
        let mut ids: Vec<ApeId> = Vec::new();
        match self.find(account) {
            Some(k) => {
                let mut j: usize = 0;
                while j < self.lists[k].len()
                    invariant
                        k < self.lists@.len(),
                        j <= self.lists@[k as int]@.len(),
                        ids@ == self.lists@[k as int]@.subrange(0, j as int),
                    decreases self.lists@[k as int]@.len() - j,
                {
                    ids.push(self.lists[k][j]);
                    assert(ids@ =~= self.lists@[k as int]@.subrange(0, j + 1));
                    j += 1;
                }
                assert(ids@ =~= self.lists@[k as int]@);
            },
            None => {},
        }
        ids
    }

    /// Where in the list of `account` the id stands, if it is there: the
    /// first such place.
    pub fn position(&self, account: AccountId, id: &ApeId) -> (found: Option<usize>)
        requires
            self.inv(),
        ensures
            match found {
                Some(j) => j < self.list(account).len() && self.list(account)[j as int] == *id
                    && forall|i: int| 0 <= i < j ==> self.list(account)[i] != *id,
                None => !self.list(account).contains(*id),
            },
    {
        match self.find(account) {
            Some(k) => {
                let mut j: usize = 0;
                while j < self.lists[k].len()
                    invariant
                        k < self.lists@.len(),
                        self.list(account) == self.lists@[k as int]@,
                        j <= self.lists@[k as int]@.len(),
                        forall|i: int| 0 <= i < j ==> self.lists@[k as int]@[i] != *id,
                    decreases self.lists@[k as int]@.len() - j,
                {
                    if hash_eq(&self.lists[k][j], id) {
                        return Some(j);
                    }
                    j += 1;
                }
                None
            },
            None => None,
        }
    }

    /// Adds `id` to the end of the list of `account`, unless the list
    /// already holds `max` ids or more; then nothing changes.
    pub fn add(&mut self, account: AccountId, id: ApeId, max: u32) -> (result: Result<(), Error>)
        requires
            old(self).inv(),
        ensures
            final(self).inv(),
            old(self).list(account).len() >= max ==> result == Err::<(), Error>(
                Error::ExceedMaxApeOwned,
            ) && *final(self) == *old(self),
            old(self).list(account).len() < max ==> result == Ok::<(), Error>(()) && final(self)@
                == old(self)@.insert(account, old(self).list(account).push(id)),
    {
        let len: usize = self.len_of(account);
        if (len as u64) >= (max as u64) {
            return Err(Error::ExceedMaxApeOwned);
        }
        self.push(account, id);
        Ok(())
    }

    /// Takes `id` out of the list of `account`, at the first place at which
    /// it stands there; the last id of the list takes that place. Where the
    /// list does not hold `id` nothing changes.
    pub fn remove(&mut self, account: AccountId, id: &ApeId) -> (result: Result<(), Error>)
        requires
            old(self).inv(),
        ensures
            final(self).inv(),
            !old(self).list(account).contains(*id) ==> result == Err::<(), Error>(
                Error::ApeNotExist,
            ) && *final(self) == *old(self),
            old(self).list(account).contains(*id) ==> result == Ok::<(), Error>(()) && final(self)@
                == old(self)@.insert(
                account,
                swap_removed(old(self).list(account), first_index(old(self).list(account), *id)),
            ),
    {
        match self.position(account, id) {
            Some(j) => {
                proof {
                    lemma_first_index(self.list(account), *id, j as int);
                }
                self.swap_remove(account, j);
                Ok(())
            },
            None => Err(Error::ApeNotExist),
        }
    }

    fn push(&mut self, account: AccountId, id: ApeId)
        requires
            old(self).inv(),
        ensures
            final(self).inv(),
            final(self)@ == old(self)@.insert(account, old(self).list(account).push(id)),
    {
        let ghost before = *self;
        match self.find(account) {
            Some(k) => {
                self.lists[k].push(id);
                assert forall|a: AccountId| self.accounts@.contains(a) implies self.lists@[self.accounts@.index_of(
                    a,
                )]@ == before@.insert(account, before.list(account).push(id))[a] by {
                    let j = self.accounts@.index_of(a);
                    assert(self.accounts@[j] == a);
                }
            },
            None => {
                let mut list: Vec<ApeId> = Vec::new();
                list.push(id);
                assert(list@ =~= Seq::<ApeId>::empty().push(id));
                self.accounts.push(account);
                self.lists.push(list);
                assert forall|a: AccountId| self.accounts@.contains(a) implies (a == account
                    || before.accounts@.contains(a)) && self.lists@[self.accounts@.index_of(a)]@
                    == before@.insert(account, before.list(account).push(id))[a] by {
                    let j = self.accounts@.index_of(a);
                    assert(self.accounts@[j] == a);
                    if a != account {
                        assert(before.accounts@[j] == a);
                        let k = before.accounts@.index_of(a);
                        assert(self.accounts@[k] == a);
                    }
                }
                assert forall|a: AccountId| a == account || before.accounts@.contains(
                    a,
                ) implies self.accounts@.contains(a) by {
                    if a == account {
                        assert(self.accounts@[before.accounts@.len() as int] == account);
                    } else {
                        let k = before.accounts@.index_of(a);
                        assert(self.accounts@[k] == a);
                    }
                }
            },
        }
        assert(self@ =~= before@.insert(account, before.list(account).push(id)));
    }

    fn swap_remove(&mut self, account: AccountId, j: usize)
        requires
            old(self).inv(),
            j < old(self).list(account).len(),
        ensures
            final(self).inv(),
            final(self)@ == old(self)@.insert(
                account,
                swap_removed(old(self).list(account), j as int),
            ),
    {
        let ghost before = *self;
        match self.find(account) {
            Some(k) => {
                self.lists[k].swap_remove(j);
                assert forall|a: AccountId| self.accounts@.contains(a) implies self.lists@[self.accounts@.index_of(
                    a,
                )]@ == before@.insert(account, swap_removed(before.list(account), j as int))[a] by {
                    let i = self.accounts@.index_of(a);
                    assert(self.accounts@[i] == a);
                }
                assert(self@ =~= before@.insert(
                    account,
                    swap_removed(before.list(account), j as int),
                ));
            },
            None => {},
        }
    }
}

} // verus!
