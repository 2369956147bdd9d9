//! The mathematical model of the marketplace: its state as maps and
//! sequences, what makes a state consistent, and what each operation decides
//! and changes.

use crate::types::{AccountId, Ape, Balance, Dna, Error, ApeId, Payment};
use vstd::prelude::*;

verus! {

/// What is left of a list once the entry at `j` has been replaced by the last
/// entry and the list shortened by one.
pub open spec fn swap_removed(list: Seq<ApeId>, j: int) -> Seq<ApeId> {
    list.update(j, list.last()).drop_last()
}

/// The first place at which `id` stands in `list`.
pub open spec fn first_index(list: Seq<ApeId>, id: ApeId) -> int {
    choose|j: int|
        0 <= j < list.len() && list[j] == id && forall|i: int| 0 <= i < j ==> list[i] != id
}

/// The first place of an id is the one place that holds the id and has no
/// earlier place that holds it too.
pub proof fn lemma_first_index(list: Seq<ApeId>, id: ApeId, j: int)
    requires
        0 <= j < list.len(),
        list[j] == id,
        forall|i: int| 0 <= i < j ==> list[i] != id,
    ensures
        first_index(list, id) == j,
{
    let k = first_index(list, id);
    assert(0 <= k < list.len() && list[k] == id && forall|i: int| 0 <= i < k ==> list[i] != id);
    if k < j {
        assert(list[k] != id);
    }
    if j < k {
        assert(list[j] != id);
    }
}

/// The state of the marketplace.
pub struct State {
    /// The largest number of apes that one account may own.
    pub max_owned: nat,
    /// The number of apes minted so far.
    pub count: nat,
    /// The registered apes, by id.
    pub apes: Map<ApeId, Ape>,
    /// The ids that each account owns, in the order in which the account holds
    /// them. An account without an entry owns nothing.
    pub owned: Map<AccountId, Seq<ApeId>>,
}

impl State {
    /// The state in which nothing has been minted.
    pub open spec fn empty(max_owned: nat) -> State {
        State { max_owned, count: 0, apes: Map::empty(), owned: Map::empty() }
    }

    /// The ids that `account` owns.
    pub open spec fn list(self, account: AccountId) -> Seq<ApeId> {
        if self.owned.contains_key(account) {
            self.owned[account]
        } else {
            Seq::empty()
        }
    }

    /// Consistency: every registered ape is listed under its owner, every
    /// listed id is a registered ape of that account, no list names an id
    /// twice, and no list is longer than the limit.
    pub open spec fn wf(self) -> bool {
        &&& forall|id: ApeId| #[trigger]
            self.apes.contains_key(id) ==> self.list(self.apes[id].owner).contains(id)
        &&& forall|account: AccountId, id: ApeId| #[trigger]
            self.list(account).contains(id) ==> self.apes.contains_key(id) && self.apes[id].owner
                == account
        &&& forall|account: AccountId| #[trigger] self.list(account).no_duplicates()
        &&& forall|account: AccountId| #[trigger] self.list(account).len() <= self.max_owned
    }

    /// Whether `owner` may mint an ape under `id`, and if not, why.
    pub open spec fn mint_check(self, owner: AccountId, id: ApeId) -> Result<(), Error> {
        if self.count >= u64::MAX {
            Err(Error::ApeCountOverflow)
        } else if self.apes.contains_key(id) {
            Err(Error::ApeExists)
        } else if self.list(owner).len() >= self.max_owned {
            Err(Error::ExceedMaxApeOwned)
        } else {
            Ok(())
        }
    }

    /// The state after `owner` has minted an ape with attributes `dna` under
    /// `id`: the ape is registered without a price, its id is the last of the
    /// owner's list, and the count is one higher.
    pub open spec fn minted(self, owner: AccountId, dna: Dna, id: ApeId) -> State {
        State {
            max_owned: self.max_owned,
            count: self.count + 1,
            apes: self.apes.insert(id, Ape { dna, price: None, owner }),
            owned: self.owned.insert(owner, self.list(owner).push(id)),
        }
    }

    /// Whether `account` owns the ape `id`; an error if there is no such ape.
    pub open spec fn ownership(self, id: ApeId, account: AccountId) -> Result<bool, Error> {
        if self.apes.contains_key(id) {
            Ok(self.apes[id].owner == account)
        } else {
            Err(Error::ApeNotExist)
        }
    }

    /// Whether `caller` may set the price of `id`, and if not, why.
    pub open spec fn price_check(self, caller: AccountId, id: ApeId) -> Result<(), Error> {
        if !self.apes.contains_key(id) {
            Err(Error::ApeNotExist)
        } else if self.apes[id].owner != caller {
            Err(Error::NotApeOwner)
        } else {
            Ok(())
        }
    }

    /// The state after the price of `id` has been set to `price`.
    pub open spec fn priced(self, id: ApeId, price: Option<Balance>) -> State {
        State {
            max_owned: self.max_owned,
            count: self.count,
            apes: self.apes.insert(
                id,
                Ape { dna: self.apes[id].dna, price, owner: self.apes[id].owner },
            ),
            owned: self.owned,
        }
    }

    /// The ownership lists once `id` has left the list of its owner, at the
    /// first place at which it stood there.
    pub open spec fn released(self, id: ApeId) -> Map<AccountId, Seq<ApeId>> {
        let owner = self.apes[id].owner;
        let list = self.list(owner);
        self.owned.insert(owner, swap_removed(list, first_index(list, id)))
    }

    /// The list that `to` holds once `id` has left the list of its owner.
    pub open spec fn list_after_release(self, id: ApeId, to: AccountId) -> Seq<ApeId> {
        let lists = self.released(id);
        if lists.contains_key(to) {
            lists[to]
        } else {
            Seq::empty()
        }
    }

    /// Whether the ape `id` can move to `to`, and if not, why. An ape that
    /// its owner's list does not hold cannot move; no consistent state has
    /// such an ape. The list of `to` is measured after the ape has left its
    /// owner's list.
    pub open spec fn move_check(self, id: ApeId, to: AccountId) -> Result<(), Error> {
        if !self.apes.contains_key(id) {
            Err(Error::ApeNotExist)
        } else if !self.list(self.apes[id].owner).contains(id) {
            Err(Error::ApeNotExist)
        } else if self.list_after_release(id, to).len() >= self.max_owned {
            Err(Error::ExceedMaxApeOwned)
        } else {
            Ok(())
        }
    }

    /// The state after the ape `id` has moved to `to`: it has left the list
    /// of its former owner, is the last of the list of `to`, belongs to `to`
    /// and has no price.
    pub open spec fn moved(self, id: ApeId, to: AccountId) -> State {
        State {
            max_owned: self.max_owned,
            count: self.count,
            apes: self.apes.insert(id, Ape { dna: self.apes[id].dna, price: None, owner: to }),
            owned: self.released(id).insert(to, self.list_after_release(id, to).push(id)),
        }
    }

    /// Whether `from` may hand the ape `id` to `to`, and if not, why. A
    /// transfer to oneself is refused before anything else is looked at.
    pub open spec fn transfer_check(self, from: AccountId, to: AccountId, id: ApeId) -> Result<
        (),
        Error,
    > {
        if from == to {
            Err(Error::TransferToSelf)
        } else if !self.apes.contains_key(id) {
            Err(Error::ApeNotExist)
        } else if self.apes[id].owner != from {
            Err(Error::NotApeOwner)
        } else if self.list(to).len() >= self.max_owned {
            Err(Error::ExceedMaxApeOwned)
        } else {
            Ok(())
        }
    }

    /// Whether `buyer`, whose free balance is `free_balance`, may buy the ape
    /// `id` for `bid_price`: the payment that is then due, or the first
    /// reason against it.
    pub open spec fn buy_check(
        self,
        buyer: AccountId,
        id: ApeId,
        bid_price: Balance,
        free_balance: Balance,
    ) -> Result<Payment, Error> {
        if !self.apes.contains_key(id) {
            Err(Error::ApeNotExist)
        } else if self.apes[id].owner == buyer {
            Err(Error::BuyerIsApeOwner)
        } else if self.apes[id].price is None {
            Err(Error::ApeNotForSale)
        } else if self.apes[id].price->Some_0 > bid_price {
            Err(Error::ApeBidPriceTooLow)
        } else if free_balance < bid_price {
            Err(Error::NotEnoughBalance)
        } else if self.list(buyer).len() >= self.max_owned {
            Err(Error::ExceedMaxApeOwned)
        } else {
            Ok(Payment { from: buyer, to: self.apes[id].owner, amount: bid_price })
        }
    }

    /// Whether the purchase of the ape `id` that `payment` has paid for can
    /// be settled, and if not, why: the ape must exist, belong to the payee
    /// and not to the payer, be for sale at no more than the amount paid, and
    /// be able to move to the payer.
    pub open spec fn settle_check(self, payment: Payment, id: ApeId) -> Result<(), Error> {
        if !self.apes.contains_key(id) {
            Err(Error::ApeNotExist)
        } else if self.apes[id].owner == payment.from {
            Err(Error::BuyerIsApeOwner)
        } else if self.apes[id].owner != payment.to {
            Err(Error::NotApeOwner)
        } else if self.apes[id].price is None {
            Err(Error::ApeNotForSale)
        } else if self.apes[id].price->Some_0 > payment.amount {
            Err(Error::ApeBidPriceTooLow)
        } else {
            self.move_check(id, payment.from)
        }
    }
}

} // verus!
