//! Plain data shared by every part of the marketplace.

use vstd::prelude::*;

verus! {

/// An authenticated account.
pub type AccountId = u64;

/// An amount of currency.
pub type Balance = u128;

/// The identifier of an ape: a 256-bit digest.
pub type ApeId = [u8; 32];

/// The attribute blob of an ape.
pub type Dna = [u8; 16];

/// One ape: its attributes, its asking price if it is for sale, and its owner.
#[derive(Clone, Copy, Debug, PartialEq, Eq)]
pub struct Ape {
    pub dna: Dna,
    pub price: Option<Balance>,
    pub owner: AccountId,
}

/// The reasons for which an operation is refused.
#[derive(Clone, Copy, Debug, PartialEq, Eq, Structural)]
pub enum Error {
    /// The counter of minted apes cannot grow any further.
    ApeCountOverflow,
    /// The account already owns as many apes as the configuration allows.
    ExceedMaxApeOwned,
    /// The buyer already owns the ape.
    BuyerIsApeOwner,
    /// The ape would be transferred to the account that owns it.
    TransferToSelf,
    /// An ape with this id is already registered.
    ApeExists,
    /// No ape with this id is registered.
    ApeNotExist,
    /// The caller does not own the ape.
    NotApeOwner,
    /// The ape has no asking price.
    ApeNotForSale,
    /// The bid is below the asking price.
    ApeBidPriceTooLow,
    /// The buyer's free balance is below the bid.
    NotEnoughBalance,
}

/// What a successful operation announces to observers.
#[derive(Clone, Copy, Debug, PartialEq, Eq)]
pub enum Event {
    Created(AccountId, ApeId),
    PriceSet(AccountId, ApeId, Option<Balance>),
    Transferred(AccountId, AccountId, ApeId),
    Bought(AccountId, AccountId, ApeId, Balance),
}

/// The configured limits of the marketplace.
#[derive(Clone, Copy, Debug, PartialEq, Eq)]
pub struct Config {
    /// The largest number of apes that one account may own.
    pub max_ape_owned: u32,
}

/// What the host knows of the moment at which an ape is minted: the output of
/// its randomness source and the two counters that make each mint distinct.
#[derive(Clone, Copy, Debug, PartialEq, Eq)]
pub struct BlockContext {
    pub random_seed: [u8; 32],
    pub extrinsic_index: u32,
    pub block_number: u32,
}

/// A currency transfer that the host has to carry out for a purchase, keeping
/// the payer's account alive.
#[derive(Clone, Copy, Debug, PartialEq, Eq)]
pub struct Payment {
    pub from: AccountId,
    pub to: AccountId,
    pub amount: Balance,
}

} // verus!
