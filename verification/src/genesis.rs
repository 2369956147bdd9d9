//! The apes that exist before the first operation.

use crate::identity::{ape_id, ape_id_spec};
use crate::model::State;
use crate::pallet::Pallet;
use crate::types::{AccountId, Dna};
use vstd::prelude::*;

verus! {

/// The state after one seed: the ape is minted where the mint is allowed, and
/// the seed is passed over where it is not.
pub open spec fn seed_one(s: State, account: AccountId, dna: Dna) -> State {
    let id = ape_id_spec(dna, account);
    if s.mint_check(account, id) is Ok {
        s.minted(account, dna, id)
    } else {
        s
    }
}

/// The state after the first `n` seeds, taken in order.
pub open spec fn seeded(s: State, seeds: Seq<(AccountId, Dna)>, n: nat) -> State
    decreases n,
{
    if n == 0 {
        s
    } else {
        seed_one(seeded(s, seeds, (n - 1) as nat), seeds[n - 1].0, seeds[n - 1].1)
    }
}

/// The apes to mint at the start, each with its owner and its attributes.
pub struct GenesisConfig {
    pub apes: Vec<(AccountId, Dna)>,
}

impl Default for GenesisConfig {
    fn default() -> (genesis: GenesisConfig)
        ensures
            genesis.apes@.len() == 0,
    {
        GenesisConfig { apes: Vec::new() }
    }
}

impl GenesisConfig {
    /// Mints every seed once, in order. A seed whose mint is refused is
    /// passed over.
    pub fn build(&self, pallet: &mut Pallet)
        requires
            old(pallet).wf(),
        ensures
            final(pallet).wf(),
            final(pallet)@ == seeded(old(pallet)@, self.apes@, self.apes@.len()),
    {
        let ghost start = pallet@;
        let mut i: usize = 0;
        while i < self.apes.len()
            invariant
                i <= self.apes@.len(),
                pallet.wf(),
                pallet@ == seeded(start, self.apes@, i as nat),
            decreases self.apes@.len() - i,
        {
            let seed = self.apes[i];
            let id = ape_id(&seed.1, seed.0);
            let _minted = pallet.mint_with_id(seed.0, seed.1, id);
            i += 1;
        }
    }
}

} // verus!
