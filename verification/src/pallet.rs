//! The marketplace: minting, pricing, transferring and selling apes.

use crate::identity::{ape_id, ape_id_spec, gen_dna, gen_dna_spec};
use crate::laws::{lemma_empty_wf, lemma_minted_wf, lemma_moved_wf, lemma_priced_wf};
use crate::model::{lemma_first_index, State};
use crate::ownership::OwnershipIndex;
use crate::registry::Registry;
use crate::types::{
    AccountId, Ape, ApeId, Balance, BlockContext, Config, Dna, Error, Event, Payment,
};
use vstd::prelude::*;

verus! {

/// The attributes that a mint uses: those supplied, or else those derived
/// from the context.
pub open spec fn mint_dna(dna: Option<Dna>, ctx: BlockContext) -> Dna {
    match dna {
        Some(supplied) => supplied,
        None => gen_dna_spec(ctx),
    }
}

/// The marketplace and all of its state.
pub struct Pallet {
    config: Config,
    count: u64,
    registry: Registry,
    index: OwnershipIndex,
}

impl Pallet {
    /// The state as the model sees it.
    pub closed spec fn view(&self) -> State {
        State {
            max_owned: self.config.max_ape_owned as nat,
            count: self.count as nat,
            apes: self.registry@,
            owned: self.index@,
        }
    }

    /// The stores are sound in themselves.
    pub closed spec fn inv(&self) -> bool {
        self.registry.inv() && self.index.inv()
    }

    /// The marketplace is sound and its state consistent.
    pub open spec fn wf(&self) -> bool {
        self.inv() && self@.wf()
    }

    /// A marketplace in which nothing has been minted.
    pub fn new(config: Config) -> (pallet: Pallet)
        ensures
            pallet.wf(),
            pallet@ == State::empty(config.max_ape_owned as nat),
    {
        proof {
            lemma_empty_wf(config.max_ape_owned as nat);
        }
        Pallet { config, count: 0, registry: Registry::new(), index: OwnershipIndex::new() }
    }

    /// A marketplace without apes whose counter starts at `ape_count`, for a
    /// host that carries the count of an earlier ledger over.
    pub fn with_ape_count(config: Config, ape_count: u64) -> (pallet: Pallet)
        ensures
            pallet.wf(),
            pallet@ == (State { count: ape_count as nat, ..State::empty(config.max_ape_owned as nat) }),
    {
        proof {
            lemma_empty_wf(config.max_ape_owned as nat);
        }
        Pallet { config, count: ape_count, registry: Registry::new(), index: OwnershipIndex::new() }
    }

    /// The limit on the apes of one account.
    pub fn max_ape_owned(&self) -> (max: u32)
        ensures
            max == self@.max_owned,
    {
        self.config.max_ape_owned
    }

    /// The number of apes minted so far.
    pub fn ape_count(&self) -> (count: u64)
        ensures
            count == self@.count,
    {
        self.count
    }

    /// The ape registered under `ape_id`, if there is one.
    pub fn apes(&self, ape_id: &ApeId) -> (ape: Option<Ape>)
        requires
            self.wf(),
        ensures
            ape == (if self@.apes.contains_key(*ape_id) {
                Some(self@.apes[*ape_id])
            } else {
                None
            }),
    {
        self.registry.get(ape_id)
    }

    /// The ids that `account` owns, in the order of its list.
    pub fn apes_owned(&self, account: AccountId) -> (ids: Vec<ApeId>)
        requires
            self.wf(),
        ensures
            ids@ == self@.list(account),
    {
        self.index.ids_of(account)
    }

    fn has_room(&self, account: AccountId) -> (room: bool)
        requires
            self.wf(),
        ensures
            room == (self@.list(account).len() < self@.max_owned),
    {
        let len: usize = self.index.len_of(account);
        (len as u64) < (self.config.max_ape_owned as u64)
    }

    /// Registers an ape with attributes `dna` for `owner` under the id
    /// `ape_id`, unless the counter is exhausted, the id is taken or the
    /// owner's list is full; then nothing changes.
    pub fn mint_with_id(&mut self, owner: AccountId, dna: Dna, ape_id: ApeId) -> (result: Result<
        (),
        Error,
    >)
        requires
            old(self).wf(),
        ensures
            final(self).wf(),
            result == old(self)@.mint_check(owner, ape_id),
            result is Ok ==> final(self)@ == old(self)@.minted(owner, dna, ape_id),
            result is Err ==> *final(self) == *old(self),
    {
        if self.count == u64::MAX {
            return Err(Error::ApeCountOverflow);
        }
        if self.registry.contains(&ape_id) {
            return Err(Error::ApeExists);
        }
        proof {
            if self@.mint_check(owner, ape_id) is Ok {
                lemma_minted_wf(self@, owner, dna, ape_id);
            }
        }
        match self.index.add(owner, ape_id, self.config.max_ape_owned) {
            Ok(_) => {},
            Err(e) => {
                return Err(e);
            },
        }
        self.registry.insert(ape_id, Ape { dna, price: None, owner });
        self.count = self.count + 1;
        Ok(())
    }

    /// Mints an ape for `owner`, with the attributes supplied or else with
    /// attributes derived from `ctx`, under the id that attributes and owner
    /// determine. Returns that id.
    pub fn mint(&mut self, owner: AccountId, dna: Option<Dna>, ctx: &BlockContext) -> (result:
        Result<ApeId, Error>)
        requires
            old(self).wf(),
        ensures
            final(self).wf(),
            ({
                let used = mint_dna(dna, *ctx);
                let id = ape_id_spec(used, owner);
                match old(self)@.mint_check(owner, id) {
                    Ok(_) => result == Ok::<ApeId, Error>(id) && final(self)@ == old(self)@.minted(owner, used, id),
                    Err(e) => result == Err::<ApeId, Error>(e) && *final(self) == *old(self),
                }
            }),
    {
        let used = match dna {
            Some(supplied) => supplied,
            None => gen_dna(ctx),
        };
        let id = ape_id(&used, owner);
        match self.mint_with_id(owner, used, id) {
            Ok(_) => Ok(id),
            Err(e) => Err(e),
        }
    }

    /// Whether `account` owns the ape `ape_id`.
    pub fn is_ape_owner(&self, ape_id: &ApeId, account: AccountId) -> (result: Result<bool, Error>)
        requires
            self.wf(),
        ensures
            result == self@.ownership(*ape_id, account),
    {
        match self.registry.get(ape_id) {
            Some(ape) => Ok(ape.owner == account),
            None => Err(Error::ApeNotExist),
        }
    }

    /// Moves the ape `ape_id` to `to`: out of its owner's list, where the
    /// last id takes its place, and to the end of the list of `to`, without
    /// a price. Where the move is refused nothing changes: for an unknown
    /// id, for an ape that its owner's list does not hold, which no
    /// consistent state has, and for a full list. A consistent state stays
    /// consistent.
    pub fn transfer_ape_to(&mut self, ape_id: &ApeId, to: AccountId) -> (result: Result<(), Error>)
        requires
            old(self).inv(),
        ensures
            final(self).inv(),
            old(self)@.wf() ==> final(self)@.wf(),
            result == old(self)@.move_check(*ape_id, to),
            result is Ok ==> final(self)@ == old(self)@.moved(*ape_id, to),
            result is Err ==> *final(self) == *old(self),
    {
        let ape = match self.registry.get(ape_id) {
            Some(ape) => ape,
            None => {
                return Err(Error::ApeNotExist);
            },
        };
        let prev = ape.owner;
        let j = match self.index.position(prev, ape_id) {
            Some(j) => j,
            None => {
                return Err(Error::ApeNotExist);
            },
        };
        proof {
            lemma_first_index(self@.list(prev), *ape_id, j as int);
        }
        let held: usize = self.index.len_of(to);
        let after: usize = if to == prev {
            held - 1
        } else {
            held
        };
        assert(after == self@.list_after_release(*ape_id, to).len());
        if (after as u64) >= (self.config.max_ape_owned as u64) {
            return Err(Error::ExceedMaxApeOwned);
        }
        proof {
            if self@.wf() {
                lemma_moved_wf(self@, *ape_id, to);
            }
        }
        let released = self.index.remove(prev, ape_id);
        self.registry.insert(*ape_id, Ape { dna: ape.dna, price: None, owner: to });
        let listed = self.index.add(to, *ape_id, self.config.max_ape_owned);
        assert(released is Ok && listed is Ok);
        Ok(())
    }

    /// Mints an ape for `sender` with attributes derived from `ctx`.
    pub fn create_ape(&mut self, sender: AccountId, ctx: &BlockContext) -> (result: Result<
        Event,
        Error,
    >)
        requires
            old(self).wf(),
        ensures
            final(self).wf(),
            ({
                let dna = gen_dna_spec(*ctx);
                let id = ape_id_spec(dna, sender);
                match old(self)@.mint_check(sender, id) {
                    Ok(_) => result == Ok::<Event, Error>(Event::Created(sender, id)) && final(self)@ == old(self)@.minted(sender, dna, id),
                    Err(e) => result == Err::<Event, Error>(e) && *final(self) == *old(self),
                }
            }),
    {
        match self.mint(sender, None, ctx) {
            Ok(id) => Ok(Event::Created(sender, id)),
            Err(e) => Err(e),
        }
    }

    /// Sets or clears the asking price of the ape `ape_id`, which `sender`
    /// must own.
    pub fn set_price(&mut self, sender: AccountId, ape_id: ApeId, new_price: Option<Balance>) -> (result:
        Result<Event, Error>)
        requires
            old(self).wf(),
        ensures
            final(self).wf(),
            match old(self)@.price_check(sender, ape_id) {
                Ok(_) => result == Ok::<Event, Error>(Event::PriceSet(sender, ape_id, new_price))
                    && final(self)@ == old(self)@.priced(ape_id, new_price),
                Err(e) => result == Err::<Event, Error>(e) && *final(self) == *old(self),
            },
    {
        let ape = match self.registry.get(&ape_id) {
            Some(ape) => ape,
            None => {
                return Err(Error::ApeNotExist);
            },
        };
        if ape.owner != sender {
            return Err(Error::NotApeOwner);
        }
        proof {
            lemma_priced_wf(self@, ape_id, new_price);
        }
        self.registry.insert(ape_id, Ape { dna: ape.dna, price: new_price, owner: ape.owner });
        Ok(Event::PriceSet(sender, ape_id, new_price))
    }

    /// Hands the ape `ape_id` of `from` over to `to`, which resets its price.
    /// A transfer to oneself is refused whatever the id; then the ape must
    /// exist, be owned by `from`, and `to` must have room for it.
    pub fn transfer(&mut self, from: AccountId, to: AccountId, ape_id: ApeId) -> (result: Result<
        Event,
        Error,
    >)
        requires
            old(self).wf(),
        ensures
            final(self).wf(),
            match old(self)@.transfer_check(from, to, ape_id) {
                Ok(_) => result == Ok::<Event, Error>(Event::Transferred(from, to, ape_id))
                    && final(self)@ == old(self)@.moved(ape_id, to),
                Err(e) => result == Err::<Event, Error>(e) && *final(self) == *old(self),
            },
    {
        if from == to {
            return Err(Error::TransferToSelf);
        }
        let ape = match self.registry.get(&ape_id) {
            Some(ape) => ape,
            None => {
                return Err(Error::ApeNotExist);
            },
        };
        if ape.owner != from {
            return Err(Error::NotApeOwner);
        }
        if !self.has_room(to) {
            return Err(Error::ExceedMaxApeOwned);
        }
        assert(self@.list(from).contains(ape_id));
        assert(self@.list_after_release(ape_id, to) == self@.list(to));
        match self.transfer_ape_to(&ape_id, to) {
            Ok(_) => Ok(Event::Transferred(from, to, ape_id)),
            Err(e) => Err(e),
        }
    }

    /// Decides whether `buyer`, whose free balance is `free_balance`, may buy
    /// the ape `ape_id` for `bid_price`. Returns the payment that the host
    /// has to carry out before the purchase is settled, or the first reason
    /// against the purchase. Nothing changes.
    pub fn buy_ape(
        &self,
        buyer: AccountId,
        ape_id: &ApeId,
        bid_price: Balance,
        free_balance: Balance,
    ) -> (result: Result<Payment, Error>)
        requires
            self.wf(),
        ensures
            result == self@.buy_check(buyer, *ape_id, bid_price, free_balance),
            result is Ok ==> self@.move_check(*ape_id, buyer) is Ok,
    {
        let ape = match self.registry.get(ape_id) {
            Some(ape) => ape,
            None => {
                return Err(Error::ApeNotExist);
            },
        };
        if ape.owner == buyer {
            return Err(Error::BuyerIsApeOwner);
        }
        match ape.price {
            Some(ask_price) => {
                if ask_price > bid_price {
                    return Err(Error::ApeBidPriceTooLow);
                }
            },
            None => {
                return Err(Error::ApeNotForSale);
            },
        }
        if free_balance < bid_price {
            return Err(Error::NotEnoughBalance);
        }
        if !self.has_room(buyer) {
            return Err(Error::ExceedMaxApeOwned);
        }
        assert(self@.list(ape.owner).contains(*ape_id));
        assert(self@.list_after_release(*ape_id, buyer) == self@.list(buyer));
        Ok(Payment { from: buyer, to: ape.owner, amount: bid_price })
    }

    /// Settles a purchase whose payment the host has carried out: the ape
    /// `ape_id` moves to the payer. The purchase is settled only as a sale:
    /// the payee must own the ape, the payer must not, and the ape must be
    /// for sale at no more than the amount paid. Where the settlement is
    /// refused nothing changes, and the host has to undo the payment.
    pub fn settle_purchase(&mut self, payment: &Payment, ape_id: &ApeId) -> (result: Result<
        Event,
        Error,
    >)
        requires
            old(self).wf(),
        ensures
            final(self).wf(),
            match old(self)@.settle_check(*payment, *ape_id) {
                Ok(_) => result == Ok::<Event, Error>(
                    Event::Bought(payment.from, payment.to, *ape_id, payment.amount),
                ) && final(self)@ == old(self)@.moved(*ape_id, payment.from),
                Err(e) => result == Err::<Event, Error>(e) && *final(self) == *old(self),
            },
    {
        let ape = match self.registry.get(ape_id) {
            Some(ape) => ape,
            None => {
                return Err(Error::ApeNotExist);
            },
        };
        if ape.owner == payment.from {
            return Err(Error::BuyerIsApeOwner);
        }
        if ape.owner != payment.to {
            return Err(Error::NotApeOwner);
        }
        match ape.price {
            Some(ask_price) => {
                if ask_price > payment.amount {
                    return Err(Error::ApeBidPriceTooLow);
                }
            },
            None => {
                return Err(Error::ApeNotForSale);
            },
        }
        match self.transfer_ape_to(ape_id, payment.from) {
            Ok(_) => Ok(Event::Bought(payment.from, payment.to, *ape_id, payment.amount)),
            Err(e) => Err(e),
        }
    }
}

} // verus!
