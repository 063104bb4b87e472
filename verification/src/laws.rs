//! Laws of the protocol, stated over the operations' specification functions
//! and proved once for all inputs.

use vstd::prelude::*;
use crate::holding::Holding;
use crate::identity::AccountId;
use crate::protocol::{
    bid_accepted, bid_committed, close_accepted, close_committed, refund_executed, Auction,
};

verus! {

/// One step of a record's lifecycle: some accepted bid committed `post` on
/// top of `pre`.
pub open spec fn accepted_bid_step(pre: Auction, post: Auction) -> bool {
    exists|
        bidder: AccountId,
        from: Holding,
        currency_holder: Holding,
        refund_receiver: Holding,
        price: u64,
        program: AccountId,
    |
        #![trigger bid_accepted(pre, from, currency_holder, refund_receiver, price, program),
            bid_committed(pre, bidder, from.addr, price)]
        bid_accepted(pre, from, currency_holder, refund_receiver, price, program) && post
            == bid_committed(pre, bidder, from.addr, price)
}

/// Law: an accepted bid strictly raises the recorded price and leaves the
/// auction open.
pub proof fn lemma_accepted_bid_raises_price(pre: Auction, post: Auction)
    requires
        accepted_bid_step(pre, post),
    ensures
        post.price > pre.price,
        post.ongoing == pre.ongoing,
{
    let (bidder, from, currency_holder, refund_receiver, price, program): (
        AccountId,
        Holding,
        Holding,
        Holding,
        u64,
        AccountId,
    ) = choose|
        bidder: AccountId,
        from: Holding,
        currency_holder: Holding,
        refund_receiver: Holding,
        price: u64,
        program: AccountId,
    |
        bid_accepted(pre, from, currency_holder, refund_receiver, price, program) && post
            == bid_committed(pre, bidder, from.addr, price);
    assert(price > pre.price);
}

/// Law: along any chain of records in which each record arises from an
/// accepted bid on the one before it, the price is strictly increasing.
pub proof fn lemma_prices_strictly_increase(records: Seq<Auction>, i: int, j: int)
    requires
        forall|k: int|
            0 <= k < records.len() - 1 ==> #[trigger] accepted_bid_step(
                records[k],
                records[k + 1],
            ),
        0 <= i < j < records.len(),
    ensures
        records[i].price < records[j].price,
    decreases j - i,
{
    if i + 1 == j {
        lemma_accepted_bid_raises_price(records[i], records[j]);
    } else {
        lemma_prices_strictly_increase(records, i, j - 1);
        assert(accepted_bid_step(records[j - 1], records[j - 1 + 1]));
        lemma_accepted_bid_raises_price(records[j - 1], records[j]);
    }
}

/// Law: a bid is accepted only if the refund of the displaced bid — when one
/// is owed — executes in the same operation, before the record is committed;
/// and the committed record owes a refund to the accepted bid's funding
/// account alone. At no point are two accounts owed an un-refunded bid.
pub proof fn lemma_single_outstanding_refund(
    pre: Auction,
    bidder: AccountId,
    from: Holding,
    currency_holder: Holding,
    refund_receiver: Holding,
    price: u64,
    program: AccountId,
)
    requires
        bid_accepted(pre, from, currency_holder, refund_receiver, price, program),
    ensures
        pre.refund_receiver is Some ==> refund_executed(
            pre,
            from,
            currency_holder,
            refund_receiver,
            price,
            program,
        ),
        bid_committed(pre, bidder, from.addr, price).refund_receiver == Some(from.addr),
{
}

/// Law: settlement happens exactly once. The record a successful close
/// commits is no longer ongoing, so no later bid and no second close can be
/// accepted on it, whatever accounts and price are presented.
pub proof fn lemma_close_is_final(
    a: Auction,
    seller: AccountId,
    item_holder: Holding,
    item_receiver: Holding,
    currency_holder: Holding,
    currency_receiver: Holding,
    from: Holding,
    refund_receiver: Holding,
    price: u64,
    program: AccountId,
)
    ensures
        !close_committed(a).ongoing,
        !bid_accepted(close_committed(a), from, currency_holder, refund_receiver, price, program),
        !close_accepted(
            close_committed(a),
            seller,
            item_holder,
            item_receiver,
            currency_holder,
            currency_receiver,
            program,
        ),
{
}

} // verus!
