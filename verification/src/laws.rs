//! What holds of the model whatever the operations that led to a state.

use crate::model::{first_index, lemma_first_index, swap_removed, State};
use crate::types::{AccountId, ApeId, Balance, Dna, Error, Payment};
use vstd::prelude::*;

verus! {

proof fn lemma_push(list: Seq<ApeId>, id: ApeId)
    ensures
        forall|x: ApeId| #[trigger] list.push(id).contains(x) <==> (list.contains(x) || x == id),
        list.no_duplicates() && !list.contains(id) ==> list.push(id).no_duplicates(),
{
    let pushed = list.push(id);
    assert forall|x: ApeId| #[trigger] pushed.contains(x) <==> (list.contains(x) || x == id) by {
        if pushed.contains(x) {
            let i = choose|i: int| 0 <= i < pushed.len() && pushed[i] == x;
            if i < list.len() {
                assert(list[i] == x);
            }
        }
        if list.contains(x) {
            let i = choose|i: int| 0 <= i < list.len() && list[i] == x;
            assert(pushed[i] == x);
        }
        if x == id {
            assert(pushed[list.len() as int] == x);
        }
    }
    if list.no_duplicates() && !list.contains(id) {
        assert forall|i: int, j: int| 0 <= i < pushed.len() && 0 <= j < pushed.len() && i
            != j implies pushed[i] != pushed[j] by {
            if i < list.len() {
                assert(list.contains(list[i]));
            }
            if j < list.len() {
                assert(list.contains(list[j]));
            }
        }
    }
}

proof fn lemma_swap_removed(list: Seq<ApeId>, j: int)
    requires
        list.no_duplicates(),
        0 <= j < list.len(),
    ensures
        swap_removed(list, j).len() == list.len() - 1,
        swap_removed(list, j).no_duplicates(),
        forall|x: ApeId| #[trigger] swap_removed(list, j).contains(x) <==> (list.contains(x) && x != list[j]),
{
    let rest = swap_removed(list, j);
    let last = list.len() - 1;
    assert forall|i: int| 0 <= i < rest.len() implies rest[i] == (if i == j {
        list[last]
    } else {
        list[i]
    }) by {}
    assert forall|x: ApeId| #[trigger] rest.contains(x) <==> (list.contains(x) && x != list[j]) by {
        if rest.contains(x) {
            let i = choose|i: int| 0 <= i < rest.len() && rest[i] == x;
            if i == j {
                assert(list[last] == x);
            } else {
                assert(list[i] == x);
            }
        }
        if list.contains(x) && x != list[j] {
            let i = choose|i: int| 0 <= i < list.len() && list[i] == x;
            if i == last {
                assert(rest[j] == x);
            } else {
                assert(rest[i] == x);
            }
        }
    }
}

/// A state without apes is consistent.
pub proof fn lemma_empty_wf(max_owned: nat)
    ensures
        State::empty(max_owned).wf(),
{
    let s = State::empty(max_owned);
    assert forall|account: AccountId| #[trigger] s.list(account) == Seq::<ApeId>::empty() by {}
}

/// A mint that is allowed leaves a consistent state consistent.
pub proof fn lemma_minted_wf(s: State, owner: AccountId, dna: Dna, id: ApeId)
    requires
        s.wf(),
        s.mint_check(owner, id) is Ok,
    ensures
        s.minted(owner, dna, id).wf(),
{
    let n = s.minted(owner, dna, id);
    lemma_push(s.list(owner), id);
    assert forall|account: AccountId| #[trigger] n.list(account) == (if account == owner {
        s.list(owner).push(id)
    } else {
        s.list(account)
    }) by {}
    assert(!s.list(owner).contains(id));
    assert forall|x: ApeId| #[trigger] n.apes.contains_key(x) implies n.list(
        n.apes[x].owner,
    ).contains(x) by {
        if x != id {
            assert(s.apes.contains_key(x));
            assert(s.list(s.apes[x].owner).contains(x));
        }
    }
    assert forall|account: AccountId, x: ApeId| #[trigger]
        n.list(account).contains(x) implies n.apes.contains_key(x) && n.apes[x].owner
        == account by {
        if !(account == owner && x == id) {
            assert(s.list(account).contains(x));
        }
    }
    assert forall|account: AccountId| #[trigger] n.list(account).no_duplicates() by {
        assert(s.list(account).no_duplicates());
    }
    assert forall|account: AccountId| #[trigger] n.list(account).len() <= n.max_owned by {
        assert(s.list(account).len() <= s.max_owned);
    }
}

/// Setting the price of a registered ape leaves a consistent state
/// consistent.
pub proof fn lemma_priced_wf(s: State, id: ApeId, price: Option<Balance>)
    requires
        s.wf(),
        s.apes.contains_key(id),
    ensures
        s.priced(id, price).wf(),
{
    let n = s.priced(id, price);
    assert forall|account: AccountId| #[trigger] n.list(account) == s.list(account) by {}
    assert forall|x: ApeId| #[trigger] n.apes.contains_key(x) implies n.list(
        n.apes[x].owner,
    ).contains(x) by {
        assert(s.apes.contains_key(x));
    }
    assert forall|account: AccountId, x: ApeId| #[trigger]
        n.list(account).contains(x) implies n.apes.contains_key(x) && n.apes[x].owner
        == account by {
        assert(s.list(account).contains(x));
    }
    assert forall|account: AccountId| #[trigger] n.list(account).no_duplicates() by {
        assert(s.list(account).no_duplicates());
    }
    assert forall|account: AccountId| #[trigger] n.list(account).len() <= n.max_owned by {
        assert(s.list(account).len() <= s.max_owned);
    }
}

/// A move that is allowed leaves a consistent state consistent: the ape is
/// listed under its new owner and under nobody else.
pub proof fn lemma_moved_wf(s: State, id: ApeId, to: AccountId)
    requires
        s.wf(),
        s.move_check(id, to) is Ok,
    ensures
        s.moved(id, to).wf(),
{
    let n = s.moved(id, to);
    let prev = s.apes[id].owner;
    let list = s.list(prev);
    assert(list.no_duplicates());
    assert(list.contains(id));
    lemma_first_index(list, id, list.index_of(id));
    let j = first_index(list, id);
    let rest = swap_removed(list, j);
    let target = s.list_after_release(id, to);
    assert(0 <= j < list.len() && list[j] == id);
    lemma_swap_removed(list, j);
    lemma_push(target, id);
    assert(target == (if to == prev {
        rest
    } else {
        s.list(to)
    }));
    assert forall|account: AccountId| #[trigger] n.list(account) == (if account == to {
        target.push(id)
    } else if account == prev {
        rest
    } else {
        s.list(account)
    }) by {}
    if to != prev {
        if s.list(to).contains(id) {
            assert(s.apes[id].owner == to);
        }
    }
    assert(!target.contains(id));
    assert(s.list(to).no_duplicates());
    assert(target.no_duplicates());
    assert forall|x: ApeId| #[trigger] n.apes.contains_key(x) implies n.list(
        n.apes[x].owner,
    ).contains(x) by {
        if x != id {
            assert(s.apes.contains_key(x));
            assert(s.list(s.apes[x].owner).contains(x));
        }
    }
    assert forall|account: AccountId, x: ApeId| #[trigger]
        n.list(account).contains(x) implies n.apes.contains_key(x) && n.apes[x].owner
        == account by {
        if x == id {
            if account != to {
                if account == prev {
                    assert(!rest.contains(id));
                } else {
                    assert(s.list(account).contains(id));
                }
            }
        } else {
            assert(s.list(account).contains(x));
        }
    }
    assert forall|account: AccountId| #[trigger] n.list(account).no_duplicates() by {
        assert(s.list(account).no_duplicates());
    }
    assert forall|account: AccountId| #[trigger] n.list(account).len() <= n.max_owned by {
        assert(s.list(account).len() <= s.max_owned);
    }
}

/// An id that is registered is never minted again: the mint is refused, and
/// refused as a duplicate unless the counter is exhausted.
pub proof fn lemma_registered_id_is_refused(s: State, owner: AccountId, id: ApeId)
    requires
        s.apes.contains_key(id),
    ensures
        s.mint_check(owner, id) is Err,
        s.count < u64::MAX ==> s.mint_check(owner, id) == Err::<(), Error>(Error::ApeExists),
{
}

/// No operation takes an ape out of the registry: what is registered before
/// a mint, a pricing or a move is registered after it, and a mint registers
/// its id. So the ids of two successful mints differ.
pub proof fn lemma_ids_persist(
    s: State,
    id: ApeId,
    account: AccountId,
    dna: Dna,
    other: ApeId,
    price: Option<Balance>,
)
    requires
        s.apes.contains_key(id),
    ensures
        s.minted(account, dna, other).apes.contains_key(id),
        s.minted(account, dna, other).apes.contains_key(other),
        s.priced(other, price).apes.contains_key(id),
        s.moved(other, account).apes.contains_key(id),
{
}

/// The count never falls: a mint raises it by one, and pricing and moving
/// leave it as it is.
pub proof fn lemma_count_never_falls(
    s: State,
    account: AccountId,
    dna: Dna,
    id: ApeId,
    price: Option<Balance>,
)
    ensures
        s.minted(account, dna, id).count == s.count + 1,
        s.priced(id, price).count == s.count,
        s.moved(id, account).count == s.count,
{
}

/// In a consistent state an ape is listed under its owner and under no other
/// account.
pub proof fn lemma_one_owner(s: State, id: ApeId, account: AccountId)
    requires
        s.wf(),
        s.apes.contains_key(id),
    ensures
        s.list(account).contains(id) <==> account == s.apes[id].owner,
{
}

/// In a consistent state no account is over the limit, and a mint for an
/// account at the limit is refused.
pub proof fn lemma_capacity(s: State, account: AccountId, id: ApeId)
    requires
        s.wf(),
    ensures
        s.list(account).len() <= s.max_owned,
        s.list(account).len() == s.max_owned ==> s.mint_check(account, id) is Err,
{
}

/// After a move the ape has no price and belongs to the account it moved
/// to; its former owner no longer lists it.
pub proof fn lemma_move_resets_price(s: State, id: ApeId, to: AccountId)
    requires
        s.wf(),
        s.move_check(id, to) is Ok,
    ensures
        s.moved(id, to).apes[id].price is None,
        s.moved(id, to).apes[id].owner == to,
        s.moved(id, to).apes[id].dna == s.apes[id].dna,
        s.moved(id, to).list(to).last() == id,
        to != s.apes[id].owner ==> !s.moved(id, to).list(s.apes[id].owner).contains(id),
{
    lemma_moved_wf(s, id, to);
    lemma_one_owner(s.moved(id, to), id, s.apes[id].owner);
}

/// A purchase that has been allowed can always be settled: once the payment
/// is made, the move of the ape to the buyer is not refused, so no payment
/// has to be undone. The payment goes from the buyer to the owner and is
/// the bid.
pub proof fn lemma_allowed_purchase_settles(
    s: State,
    buyer: AccountId,
    id: ApeId,
    bid_price: Balance,
    free_balance: Balance,
)
    requires
        s.wf(),
        s.buy_check(buyer, id, bid_price, free_balance) is Ok,
    ensures
        s.move_check(id, buyer) is Ok,
        s.settle_check(s.buy_check(buyer, id, bid_price, free_balance)->Ok_0, id) is Ok,
        s.buy_check(buyer, id, bid_price, free_balance)->Ok_0.from == buyer,
        s.buy_check(buyer, id, bid_price, free_balance)->Ok_0.to == s.apes[id].owner,
        s.buy_check(buyer, id, bid_price, free_balance)->Ok_0.amount == bid_price,
        s.apes[id].price is Some,
        s.apes[id].price->Some_0 <= bid_price <= free_balance,
{
    assert(s.list(s.apes[id].owner).contains(id));
    assert(s.list_after_release(id, buyer) == s.list(buyer));
}

/// Nobody transfers an ape to themselves: whatever the state, the caller
/// and the id, the transfer is refused for that very reason.
pub proof fn lemma_self_transfer_refused(s: State, caller: AccountId, id: ApeId)
    ensures
        s.transfer_check(caller, caller, id) == Err::<(), Error>(Error::TransferToSelf),
{
}

/// In a consistent state every registered ape is found in its owner's list,
/// so a move is refused only for an unknown id or a full list.
pub proof fn lemma_move_refusals(s: State, id: ApeId, to: AccountId)
    requires
        s.wf(),
    ensures
        !s.apes.contains_key(id) <==> s.move_check(id, to) == Err::<(), Error>(Error::ApeNotExist),
        s.move_check(id, to) is Err ==> s.move_check(id, to) == Err::<(), Error>(
            Error::ApeNotExist,
        ) || s.move_check(id, to) == Err::<(), Error>(Error::ExceedMaxApeOwned),
{
    if s.apes.contains_key(id) {
        assert(s.list(s.apes[id].owner).contains(id));
    }
}

/// A purchase is settled only as a sale: where the settlement is allowed,
/// the payee owns the ape, the payer does not, and the ape is for sale at no
/// more than the amount paid.
pub proof fn lemma_settlement_is_a_sale(s: State, payment: Payment, id: ApeId)
    requires
        s.settle_check(payment, id) is Ok,
    ensures
        s.apes.contains_key(id),
        s.apes[id].owner == payment.to,
        s.apes[id].owner != payment.from,
        s.apes[id].price is Some,
        s.apes[id].price->Some_0 <= payment.amount,
        s.move_check(id, payment.from) is Ok,
{
}

/// A transfer that is allowed is a move that is allowed.
pub proof fn lemma_allowed_transfer_moves(s: State, from: AccountId, to: AccountId, id: ApeId)
    requires
        s.wf(),
        s.transfer_check(from, to, id) is Ok,
    ensures
        s.move_check(id, to) is Ok,
        s.apes[id].owner == from,
{
    assert(s.list(from).contains(id));
    assert(s.list_after_release(id, to) == s.list(to));
}

} // verus!
