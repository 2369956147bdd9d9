use pallet_apes::genesis::GenesisConfig;
use pallet_apes::identity::{ape_id, gen_dna};
use pallet_apes::pallet::Pallet;
use pallet_apes::types::{AccountId, Ape, ApeId, BlockContext, Config, Error, Event, Payment};

const ALICE: AccountId = 1;
const BOB: AccountId = 2;
const CAROL: AccountId = 3;

fn ctx(extrinsic_index: u32) -> BlockContext {
    BlockContext { random_seed: [42u8; 32], extrinsic_index, block_number: 5 }
}

fn market(max_ape_owned: u32) -> Pallet {
    Pallet::new(Config { max_ape_owned })
}

/// A currency for the tests: balances by account, and the least balance with
/// which a payer may be left.
struct Ledger {
    minimum: u128,
    balances: Vec<(AccountId, u128)>,
}

impl Ledger {
    fn free_balance(&self, who: AccountId) -> u128 {
        self.balances.iter().find(|entry| entry.0 == who).map(|entry| entry.1).unwrap_or(0)
    }

    fn set(&mut self, who: AccountId, balance: u128) {
        match self.balances.iter_mut().find(|entry| entry.0 == who) {
            Some(entry) => entry.1 = balance,
            None => self.balances.push((who, balance)),
        }
    }

    fn transfer_keep_alive(&mut self, payment: &Payment) -> Result<(), String> {
        let from = self.free_balance(payment.from);
        let to = self.free_balance(payment.to);
        if from < payment.amount || from - payment.amount < self.minimum {
            return Err(format!("payer would fall below {}", self.minimum));
        }
        self.set(payment.from, from - payment.amount);
        self.set(payment.to, to + payment.amount);
        Ok(())
    }
}

/// One purchase as a host runs it: decide, pay, settle.
fn buy(
    pallet: &mut Pallet,
    ledger: &mut Ledger,
    buyer: AccountId,
    id: &ApeId,
    bid: u128,
) -> Result<Event, String> {
    let free = ledger.free_balance(buyer);
    let payment = pallet.buy_ape(buyer, id, bid, free).map_err(|e| format!("{:?}", e))?;
    ledger.transfer_keep_alive(&payment)?;
    pallet.settle_purchase(&payment, id).map_err(|e| format!("{:?}", e))
}

fn created(event: Event) -> ApeId {
    match event {
        Event::Created(_, id) => id,
        other => panic!("not a creation: {:?}", other),
    }
}

fn create(pallet: &mut Pallet, who: AccountId, extrinsic_index: u32) -> ApeId {
    created(pallet.create_ape(who, &ctx(extrinsic_index)).unwrap())
}

#[test]
fn new_marketplace_is_empty() {
    let pallet = market(4);
    assert_eq!(pallet.ape_count(), 0);
    assert_eq!(pallet.max_ape_owned(), 4);
    assert_eq!(pallet.apes(&[0u8; 32]), None);
    assert_eq!(pallet.apes_owned(ALICE), Vec::<ApeId>::new());
}

#[test]
fn create_ape_registers_and_lists_the_ape() {
    let mut pallet = market(4);
    let event = pallet.create_ape(ALICE, &ctx(0)).unwrap();
    let dna = gen_dna(&ctx(0));
    let id = ape_id(&dna, ALICE);
    assert_eq!(event, Event::Created(ALICE, id));
    assert_eq!(pallet.apes(&id), Some(Ape { dna, price: None, owner: ALICE }));
    assert_eq!(pallet.apes_owned(ALICE), vec![id]);
    assert_eq!(pallet.ape_count(), 1);
    assert_eq!(pallet.is_ape_owner(&id, ALICE), Ok(true));
    assert_eq!(pallet.is_ape_owner(&id, BOB), Ok(false));
}

#[test]
fn created_ids_are_pairwise_distinct() {
    let mut pallet = market(8);
    let a = create(&mut pallet, ALICE, 0);
    let b = create(&mut pallet, ALICE, 1);
    let c = create(&mut pallet, BOB, 0);
    assert_ne!(a, b);
    assert_ne!(a, c);
    assert_ne!(b, c);
    assert_eq!(pallet.ape_count(), 3);
    assert_eq!(pallet.apes_owned(ALICE), vec![a, b]);
    assert_eq!(pallet.apes_owned(BOB), vec![c]);
}

#[test]
fn minting_the_same_id_again_is_refused() {
    let mut pallet = market(8);
    let id = pallet.mint(ALICE, Some([7u8; 16]), &ctx(0)).unwrap();
    assert_eq!(id, ape_id(&[7u8; 16], ALICE));
    assert_eq!(pallet.mint(ALICE, Some([7u8; 16]), &ctx(1)), Err(Error::ApeExists));
    assert_eq!(pallet.create_ape(ALICE, &ctx(2)).is_ok(), true);
    assert_eq!(pallet.create_ape(ALICE, &ctx(2)), Err(Error::ApeExists));
    assert_eq!(pallet.ape_count(), 2);
    assert_eq!(pallet.apes_owned(ALICE).len(), 2);
}

#[test]
fn mint_with_id_keeps_the_id_it_is_given() {
    let mut pallet = market(2);
    assert_eq!(pallet.mint_with_id(ALICE, [1u8; 16], [9u8; 32]), Ok(()));
    assert_eq!(pallet.apes(&[9u8; 32]), Some(Ape { dna: [1u8; 16], price: None, owner: ALICE }));
    assert_eq!(pallet.mint_with_id(BOB, [2u8; 16], [9u8; 32]), Err(Error::ApeExists));
    assert_eq!(pallet.apes(&[9u8; 32]), Some(Ape { dna: [1u8; 16], price: None, owner: ALICE }));
    assert_eq!(pallet.apes_owned(BOB), Vec::<ApeId>::new());
}

#[test]
fn create_at_capacity_is_refused_and_count_unchanged() {
    let mut pallet = market(1);
    let first = create(&mut pallet, ALICE, 0);
    assert_eq!(pallet.create_ape(ALICE, &ctx(1)), Err(Error::ExceedMaxApeOwned));
    assert_eq!(pallet.ape_count(), 1);
    assert_eq!(pallet.apes_owned(ALICE), vec![first]);
    let refused = ape_id(&gen_dna(&ctx(1)), ALICE);
    assert_eq!(pallet.apes(&refused), None);
}

#[test]
fn create_with_no_capacity_at_all_is_refused() {
    let mut pallet = market(0);
    assert_eq!(pallet.create_ape(ALICE, &ctx(0)), Err(Error::ExceedMaxApeOwned));
    assert_eq!(pallet.ape_count(), 0);
}

#[test]
fn exhausted_counter_refuses_before_anything_else() {
    let mut pallet = Pallet::with_ape_count(Config { max_ape_owned: 0 }, u64::MAX);
    assert_eq!(pallet.create_ape(ALICE, &ctx(0)), Err(Error::ApeCountOverflow));
    assert_eq!(pallet.ape_count(), u64::MAX);
    let mut nearly = Pallet::with_ape_count(Config { max_ape_owned: 1 }, u64::MAX - 1);
    assert!(nearly.create_ape(ALICE, &ctx(0)).is_ok());
    assert_eq!(nearly.ape_count(), u64::MAX);
    assert_eq!(nearly.create_ape(BOB, &ctx(1)), Err(Error::ApeCountOverflow));
}

#[test]
fn is_ape_owner_of_a_missing_ape_is_an_error() {
    let pallet = market(2);
    assert_eq!(pallet.is_ape_owner(&[3u8; 32], ALICE), Err(Error::ApeNotExist));
}

#[test]
fn set_price_sets_and_clears() {
    let mut pallet = market(2);
    let id = create(&mut pallet, ALICE, 0);
    assert_eq!(pallet.set_price(ALICE, id, Some(100)), Ok(Event::PriceSet(ALICE, id, Some(100))));
    assert_eq!(pallet.apes(&id).unwrap().price, Some(100));
    assert_eq!(pallet.apes(&id).unwrap().owner, ALICE);
    assert_eq!(pallet.set_price(ALICE, id, None), Ok(Event::PriceSet(ALICE, id, None)));
    assert_eq!(pallet.apes(&id).unwrap().price, None);
    assert_eq!(pallet.apes_owned(ALICE), vec![id]);
}

#[test]
fn set_price_is_for_the_owner_of_an_existing_ape() {
    let mut pallet = market(2);
    let id = create(&mut pallet, ALICE, 0);
    assert_eq!(pallet.set_price(BOB, id, Some(5)), Err(Error::NotApeOwner));
    assert_eq!(pallet.set_price(ALICE, [0u8; 32], Some(5)), Err(Error::ApeNotExist));
    assert_eq!(pallet.apes(&id).unwrap().price, None);
}

#[test]
fn transfer_moves_the_ape_and_resets_the_price() {
    let mut pallet = market(4);
    let id = create(&mut pallet, ALICE, 0);
    pallet.set_price(ALICE, id, Some(10)).unwrap();
    assert_eq!(pallet.transfer(ALICE, BOB, id), Ok(Event::Transferred(ALICE, BOB, id)));
    let ape = pallet.apes(&id).unwrap();
    assert_eq!(ape.owner, BOB);
    assert_eq!(ape.price, None);
    assert_eq!(ape.dna, gen_dna(&ctx(0)));
    assert_eq!(pallet.apes_owned(ALICE), Vec::<ApeId>::new());
    assert_eq!(pallet.apes_owned(BOB), vec![id]);
    assert_eq!(pallet.ape_count(), 1);
}

#[test]
fn transfer_fills_the_gap_with_the_last_id() {
    let mut pallet = market(4);
    let a = create(&mut pallet, ALICE, 0);
    let b = create(&mut pallet, ALICE, 1);
    let c = create(&mut pallet, ALICE, 2);
    let d = create(&mut pallet, BOB, 3);
    pallet.transfer(ALICE, BOB, a).unwrap();
    assert_eq!(pallet.apes_owned(ALICE), vec![c, b]);
    assert_eq!(pallet.apes_owned(BOB), vec![d, a]);
    pallet.transfer(ALICE, BOB, b).unwrap();
    assert_eq!(pallet.apes_owned(ALICE), vec![c]);
    assert_eq!(pallet.apes_owned(BOB), vec![d, a, b]);
}

#[test]
fn transfer_to_self_is_refused_and_changes_nothing() {
    let mut pallet = market(4);
    let id = create(&mut pallet, ALICE, 0);
    pallet.set_price(ALICE, id, Some(10)).unwrap();
    assert_eq!(pallet.transfer(ALICE, ALICE, id), Err(Error::TransferToSelf));
    assert_eq!(pallet.apes(&id).unwrap().price, Some(10));
    assert_eq!(pallet.apes(&id).unwrap().owner, ALICE);
    assert_eq!(pallet.apes_owned(ALICE), vec![id]);
}

#[test]
fn transfer_to_self_is_refused_whoever_owns_the_ape_and_whether_it_exists() {
    let mut pallet = market(1);
    let a = create(&mut pallet, ALICE, 0);
    assert_eq!(pallet.transfer(ALICE, ALICE, a), Err(Error::TransferToSelf));
    assert_eq!(pallet.transfer(BOB, BOB, a), Err(Error::TransferToSelf));
    assert_eq!(pallet.transfer(ALICE, ALICE, [0u8; 32]), Err(Error::TransferToSelf));
    assert_eq!(pallet.transfer(CAROL, CAROL, [0u8; 32]), Err(Error::TransferToSelf));
    assert_eq!(pallet.apes(&a), Some(Ape { dna: gen_dna(&ctx(0)), price: None, owner: ALICE }));
    assert_eq!(pallet.apes_owned(ALICE), vec![a]);
    assert_eq!(pallet.apes_owned(BOB), Vec::<ApeId>::new());
    assert_eq!(pallet.ape_count(), 1);
}

#[test]
fn settle_is_refused_unless_the_payment_is_for_a_sale() {
    let mut pallet = market(4);
    let x = create(&mut pallet, ALICE, 0);
    let unpriced = Payment { from: BOB, to: CAROL, amount: 0 };
    assert_eq!(pallet.settle_purchase(&unpriced, &x), Err(Error::NotApeOwner));
    let to_owner = Payment { from: BOB, to: ALICE, amount: 0 };
    assert_eq!(pallet.settle_purchase(&to_owner, &x), Err(Error::ApeNotForSale));
    pallet.set_price(ALICE, x, Some(100)).unwrap();
    let low = Payment { from: BOB, to: ALICE, amount: 99 };
    assert_eq!(pallet.settle_purchase(&low, &x), Err(Error::ApeBidPriceTooLow));
    let own = Payment { from: ALICE, to: ALICE, amount: 100 };
    assert_eq!(pallet.settle_purchase(&own, &x), Err(Error::BuyerIsApeOwner));
    let wrong_payee = Payment { from: BOB, to: CAROL, amount: 100 };
    assert_eq!(pallet.settle_purchase(&wrong_payee, &x), Err(Error::NotApeOwner));
    assert_eq!(pallet.apes(&x), Some(Ape { dna: gen_dna(&ctx(0)), price: Some(100), owner: ALICE }));
    assert_eq!(pallet.apes_owned(ALICE), vec![x]);
    assert_eq!(pallet.apes_owned(BOB), Vec::<ApeId>::new());
    let paid = Payment { from: BOB, to: ALICE, amount: 100 };
    assert_eq!(pallet.settle_purchase(&paid, &x), Ok(Event::Bought(BOB, ALICE, x, 100)));
    assert_eq!(pallet.settle_purchase(&paid, &x), Err(Error::BuyerIsApeOwner));
}

#[test]
fn transfer_checks_self_then_existence_then_ownership_then_target() {
    let mut pallet = market(1);
    let a = create(&mut pallet, ALICE, 0);
    let b = create(&mut pallet, BOB, 1);
    assert_eq!(pallet.transfer(ALICE, BOB, [0u8; 32]), Err(Error::ApeNotExist));
    assert_eq!(pallet.transfer(CAROL, CAROL, a), Err(Error::TransferToSelf));
    assert_eq!(pallet.transfer(BOB, CAROL, a), Err(Error::NotApeOwner));
    assert_eq!(pallet.transfer(ALICE, BOB, a), Err(Error::ExceedMaxApeOwned));
    assert_eq!(pallet.apes_owned(ALICE), vec![a]);
    assert_eq!(pallet.apes_owned(BOB), vec![b]);
    assert_eq!(pallet.apes(&a).unwrap().owner, ALICE);
}

#[test]
fn transfer_ape_to_the_owner_moves_the_id_to_the_end() {
    let mut pallet = market(2);
    let a = create(&mut pallet, ALICE, 0);
    let b = create(&mut pallet, ALICE, 1);
    pallet.set_price(ALICE, a, Some(3)).unwrap();
    assert_eq!(pallet.transfer_ape_to(&a, ALICE), Ok(()));
    assert_eq!(pallet.apes_owned(ALICE), vec![b, a]);
    assert_eq!(pallet.apes(&a).unwrap().price, None);
    assert_eq!(pallet.transfer_ape_to(&[0u8; 32], ALICE), Err(Error::ApeNotExist));
}

#[test]
fn transfer_ape_to_a_full_account_is_refused() {
    let mut pallet = market(1);
    let a = create(&mut pallet, ALICE, 0);
    let b = create(&mut pallet, BOB, 1);
    assert_eq!(pallet.transfer_ape_to(&a, BOB), Err(Error::ExceedMaxApeOwned));
    assert_eq!(pallet.apes_owned(ALICE), vec![a]);
    assert_eq!(pallet.apes_owned(BOB), vec![b]);
}

#[test]
fn buy_scenario_low_bid_then_matching_bid() {
    let mut pallet = market(4);
    let mut ledger = Ledger { minimum: 1, balances: vec![(ALICE, 50), (BOB, 150)] };
    let x = create(&mut pallet, ALICE, 0);
    assert!(pallet.set_price(ALICE, x, Some(100)).is_ok());

    assert_eq!(pallet.buy_ape(BOB, &x, 90, 150), Err(Error::ApeBidPriceTooLow));
    assert_eq!(buy(&mut pallet, &mut ledger, BOB, &x, 90), Err("ApeBidPriceTooLow".to_string()));
    assert_eq!(pallet.apes(&x), Some(Ape { dna: gen_dna(&ctx(0)), price: Some(100), owner: ALICE }));
    assert_eq!(pallet.apes_owned(ALICE), vec![x]);
    assert_eq!(pallet.apes_owned(BOB), Vec::<ApeId>::new());
    assert_eq!(ledger.free_balance(ALICE), 50);
    assert_eq!(ledger.free_balance(BOB), 150);

    assert_eq!(
        pallet.buy_ape(BOB, &x, 100, 150),
        Ok(Payment { from: BOB, to: ALICE, amount: 100 })
    );
    assert_eq!(
        buy(&mut pallet, &mut ledger, BOB, &x, 100),
        Ok(Event::Bought(BOB, ALICE, x, 100))
    );
    assert_eq!(pallet.apes(&x).unwrap().owner, BOB);
    assert_eq!(pallet.apes(&x).unwrap().price, None);
    assert_eq!(pallet.apes_owned(BOB), vec![x]);
    assert_eq!(pallet.apes_owned(ALICE), Vec::<ApeId>::new());
    assert_eq!(ledger.free_balance(ALICE), 150);
    assert_eq!(ledger.free_balance(BOB), 50);
}

#[test]
fn buy_pays_the_bid_not_the_ask() {
    let mut pallet = market(4);
    let x = create(&mut pallet, ALICE, 0);
    pallet.set_price(ALICE, x, Some(100)).unwrap();
    assert_eq!(
        pallet.buy_ape(BOB, &x, 120, 120),
        Ok(Payment { from: BOB, to: ALICE, amount: 120 })
    );
}

#[test]
fn buy_refusals_come_in_order() {
    let mut pallet = market(1);
    let x = create(&mut pallet, ALICE, 0);
    let y = create(&mut pallet, BOB, 1);
    assert_eq!(pallet.buy_ape(BOB, &[0u8; 32], 10, 0), Err(Error::ApeNotExist));
    assert_eq!(pallet.buy_ape(ALICE, &x, 10, 0), Err(Error::BuyerIsApeOwner));
    assert_eq!(pallet.buy_ape(BOB, &x, 10, 0), Err(Error::ApeNotForSale));
    pallet.set_price(ALICE, x, Some(100)).unwrap();
    assert_eq!(pallet.buy_ape(BOB, &x, 99, 0), Err(Error::ApeBidPriceTooLow));
    assert_eq!(pallet.buy_ape(BOB, &x, 100, 99), Err(Error::NotEnoughBalance));
    assert_eq!(pallet.buy_ape(BOB, &x, 100, 100), Err(Error::ExceedMaxApeOwned));
    assert_eq!(
        pallet.buy_ape(CAROL, &x, 100, 100),
        Ok(Payment { from: CAROL, to: ALICE, amount: 100 })
    );
    assert_eq!(pallet.apes(&x).unwrap().owner, ALICE);
    assert_eq!(pallet.apes(&x).unwrap().price, Some(100));
    assert_eq!(pallet.apes_owned(BOB), vec![y]);
}

#[test]
fn settle_without_room_is_refused_and_changes_nothing() {
    let mut pallet = market(1);
    let x = create(&mut pallet, ALICE, 0);
    let y = create(&mut pallet, BOB, 1);
    pallet.set_price(ALICE, x, Some(1)).unwrap();
    let payment = Payment { from: BOB, to: ALICE, amount: 1 };
    assert_eq!(pallet.settle_purchase(&payment, &x), Err(Error::ExceedMaxApeOwned));
    assert_eq!(pallet.apes(&x).unwrap().owner, ALICE);
    assert_eq!(pallet.apes(&x).unwrap().price, Some(1));
    assert_eq!(pallet.apes_owned(ALICE), vec![x]);
    assert_eq!(pallet.apes_owned(BOB), vec![y]);
    assert_eq!(pallet.settle_purchase(&payment, &[0u8; 32]), Err(Error::ApeNotExist));
}

#[test]
fn every_ape_is_listed_under_its_owner_only() {
    let mut pallet = market(3);
    let a = create(&mut pallet, ALICE, 0);
    let b = create(&mut pallet, ALICE, 1);
    let c = create(&mut pallet, BOB, 2);
    pallet.transfer(ALICE, CAROL, a).unwrap();
    pallet.set_price(BOB, c, Some(7)).unwrap();
    let payment = pallet.buy_ape(CAROL, &c, 7, 7).unwrap();
    pallet.settle_purchase(&payment, &c).unwrap();
    for id in [a, b, c] {
        let owner = pallet.apes(&id).unwrap().owner;
        for account in [ALICE, BOB, CAROL] {
            let listed = pallet.apes_owned(account).iter().filter(|x| **x == id).count();
            assert_eq!(listed, if account == owner { 1 } else { 0 });
            assert!(pallet.apes_owned(account).len() <= 3);
        }
    }
    assert_eq!(pallet.apes_owned(CAROL), vec![a, c]);
}

#[test]
fn genesis_mints_each_seed_once() {
    let mut pallet = market(2);
    let genesis = GenesisConfig {
        apes: vec![(ALICE, [1u8; 16]), (BOB, [2u8; 16]), (ALICE, [1u8; 16]), (ALICE, [3u8; 16]), (ALICE, [4u8; 16])],
    };
    genesis.build(&mut pallet);
    let a1 = ape_id(&[1u8; 16], ALICE);
    let a3 = ape_id(&[3u8; 16], ALICE);
    let b2 = ape_id(&[2u8; 16], BOB);
    assert_eq!(pallet.ape_count(), 3);
    assert_eq!(pallet.apes_owned(ALICE), vec![a1, a3]);
    assert_eq!(pallet.apes_owned(BOB), vec![b2]);
    assert_eq!(pallet.apes(&a1), Some(Ape { dna: [1u8; 16], price: None, owner: ALICE }));
    assert_eq!(pallet.apes(&ape_id(&[4u8; 16], ALICE)), None);
}

#[test]
fn default_genesis_has_no_seeds() {
    let genesis = GenesisConfig::default();
    assert!(genesis.apes.is_empty());
    let mut pallet = market(2);
    genesis.build(&mut pallet);
    assert_eq!(pallet.ape_count(), 0);
}

#[test]
fn refused_payment_leaves_balances_and_ownership_as_they_were() {
    let mut pallet = market(4);
    let mut ledger = Ledger { minimum: 10, balances: vec![(BOB, 105)] };
    let x = create(&mut pallet, ALICE, 0);
    pallet.set_price(ALICE, x, Some(100)).unwrap();
    assert_eq!(
        buy(&mut pallet, &mut ledger, BOB, &x, 100),
        Err("payer would fall below 10".to_string())
    );
    assert_eq!(pallet.apes(&x), Some(Ape { dna: gen_dna(&ctx(0)), price: Some(100), owner: ALICE }));
    assert_eq!(pallet.apes_owned(ALICE), vec![x]);
    assert_eq!(pallet.apes_owned(BOB), Vec::<ApeId>::new());
    assert_eq!(ledger.free_balance(ALICE), 0);
    assert_eq!(ledger.free_balance(BOB), 105);
    assert_eq!(buy(&mut pallet, &mut ledger, BOB, &x, 106), Err("NotEnoughBalance".to_string()));
    assert_eq!(ledger.free_balance(BOB), 105);
    assert_eq!(buy(&mut pallet, &mut ledger, BOB, &x, 95), Err("ApeBidPriceTooLow".to_string()));
    ledger.set(BOB, 110);
    assert_eq!(buy(&mut pallet, &mut ledger, BOB, &x, 100), Ok(Event::Bought(BOB, ALICE, x, 100)));
    assert_eq!(ledger.free_balance(ALICE), 100);
    assert_eq!(ledger.free_balance(BOB), 10);
    assert_eq!(pallet.apes_owned(BOB), vec![x]);
}

#[test]
fn count_grows_by_one_per_mint_and_not_otherwise() {
    let mut pallet = market(4);
    let a = create(&mut pallet, ALICE, 0);
    assert_eq!(pallet.ape_count(), 1);
    pallet.set_price(ALICE, a, Some(1)).unwrap();
    pallet.transfer(ALICE, BOB, a).unwrap();
    assert_eq!(pallet.transfer(ALICE, BOB, a), Err(Error::NotApeOwner));
    assert_eq!(pallet.ape_count(), 1);
    create(&mut pallet, ALICE, 1);
    assert_eq!(pallet.ape_count(), 2);
}
