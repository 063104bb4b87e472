//! The auction record and the three operations that act on it: create, bid,
//! and close.
//!
//! Every operation performs all of its external transfers before it mutates
//! the record, so no failure path writes partial record state; a transfer that
//! already executed when a later step fails is reported as a failure of the
//! whole operation but is not — and cannot be — reversed.

use vstd::prelude::*;
use crate::holding::{same_account, transfer, Holding};
use crate::identity::{check_custodial_authority, is_custodial_authority, AccountId};

verus! {

/// One auction's record: created once, mutated in place by each accepted bid,
/// finalized by exactly one successful close.
#[derive(Clone, Copy, PartialEq, Debug)]
pub struct Auction {
    /// True while bidding and closing are permitted; false once settled.
    pub ongoing: bool,
    /// The account that created the auction and receives the proceeds.
    pub seller: AccountId,
    /// The custodial account holding the auctioned item.
    pub item_holder: AccountId,
    /// The custodial account holding the current highest bid.
    pub currency_holder: AccountId,
    /// The current highest bidder; the seller itself before any bid.
    pub bidder: AccountId,
    /// The account owed a refund when the current bidder is outbid; unset
    /// before any bid.
    pub refund_receiver: Option<AccountId>,
    /// The current highest bid; the start price before any bid.
    pub price: u64,
}

/// Why an operation was rejected.
#[derive(Clone, Copy, PartialEq, Eq, Structural, Debug)]
pub enum AuctionErr {
    /// The offered price is not strictly greater than the current price.
    BidTooLow,
    /// A bid or close was attempted on a record that is no longer ongoing.
    NotOngoing,
    /// A signer or holding-account authority check failed.
    AuthorizationMismatch,
    /// The token service rejected a required transfer.
    TransferFailure,
}

/// The record that `create_auction` persists.
pub open spec fn initial_auction(
    seller: AccountId,
    item_holder: Holding,
    currency_holder: Holding,
    start_price: u64,
) -> Auction {
    Auction {
        ongoing: true,
        seller: seller,
        item_holder: item_holder.addr,
        currency_holder: currency_holder.addr,
        bidder: seller,
        refund_receiver: None,
        price: start_price,
    }
}

/// `create_auction` is accepted exactly when both holding accounts are
/// administered by the authority derived from the seller.
pub open spec fn create_accepted(
    seller: AccountId,
    program: AccountId,
    item_holder: Holding,
    currency_holder: Holding,
) -> bool {
    &&& is_custodial_authority(item_holder.authority, seller, program)
    &&& is_custodial_authority(currency_holder.authority, seller, program)
}

/// Creates the auction record, binding it to the two seller-controlled
/// holding accounts. No transfer occurs.
pub fn create_auction(
    seller: AccountId,
    program: AccountId,
    item_holder: &Holding,
    currency_holder: &Holding,
    start_price: u64,
) -> (r: Result<Auction, AuctionErr>)
    ensures
        r is Ok <==> create_accepted(seller, program, *item_holder, *currency_holder),
        r is Ok ==> r == Ok::<Auction, AuctionErr>(
            initial_auction(seller, *item_holder, *currency_holder, start_price),
        ),
        r is Err ==> r == Err::<Auction, AuctionErr>(AuctionErr::AuthorizationMismatch),
{
    if !check_custodial_authority(&item_holder.authority, &seller, &program) {
        return Err(AuctionErr::AuthorizationMismatch);
    }
    if !check_custodial_authority(&currency_holder.authority, &seller, &program) {
        return Err(AuctionErr::AuthorizationMismatch);
    }
    Ok(
        Auction {
            ongoing: true,
            seller: seller,
            item_holder: item_holder.addr,
            currency_holder: currency_holder.addr,
            bidder: seller,
            refund_receiver: None,
            price: start_price,
        },
    )
}

/// The identity checks a bid must pass before any transfer: the presented
/// currency holder is the record's, it is administered by the seller-derived
/// authority, the funding account carries the auction's currency, and the
/// presented refund account is the one the record names, when it names one.
pub open spec fn bid_authorized(
    a: Auction,
    from: Holding,
    currency_holder: Holding,
    refund_receiver: Holding,
    program: AccountId,
) -> bool {
    &&& currency_holder.addr == a.currency_holder
    &&& is_custodial_authority(currency_holder.authority, a.seller, program)
    &&& from.mint == currency_holder.mint
    &&& a.refund_receiver is Some ==> a.refund_receiver == Some(refund_receiver.addr)
}

/// All of a bid's checks that precede any transfer.
pub open spec fn bid_checks(
    a: Auction,
    from: Holding,
    currency_holder: Holding,
    refund_receiver: Holding,
    price: u64,
    program: AccountId,
) -> bool {
    &&& a.ongoing
    &&& price > a.price
    &&& bid_authorized(a, from, currency_holder, refund_receiver, program)
}

/// Whether the refund of the previous bid — owed exactly when the record
/// names a refund receiver — can be paid out of the currency holder.
pub open spec fn refund_accepted(a: Auction, currency_holder: Holding, refund_receiver: Holding) -> bool {
    a.refund_receiver is Some ==> (a.price <= currency_holder.amount && refund_receiver.amount
        + a.price <= u64::MAX)
}

/// The amount the refund step moves: the record's current price when a refund
/// is owed, nothing otherwise.
pub open spec fn spec_refund_amount(a: Auction) -> int {
    if a.refund_receiver is Some {
        a.price as int
    } else {
        0
    }
}

/// Whether the new bid can be escrowed into the currency holder once the
/// refund — which is paid first — has left it.
pub open spec fn escrow_accepted(a: Auction, from: Holding, currency_holder: Holding, price: u64) -> bool {
    &&& price <= from.amount
    &&& currency_holder.amount - spec_refund_amount(a) + price <= u64::MAX
}

/// A bid runs to completion exactly when its checks pass and both transfers
/// — the refund of the displaced bid, then the escrow of the new one — are
/// accepted by the token service.
pub open spec fn bid_accepted(
    a: Auction,
    from: Holding,
    currency_holder: Holding,
    refund_receiver: Holding,
    price: u64,
    program: AccountId,
) -> bool {
    &&& bid_checks(a, from, currency_holder, refund_receiver, price, program)
    &&& refund_accepted(a, currency_holder, refund_receiver)
    &&& escrow_accepted(a, from, currency_holder, price)
}

/// Whether the refund transfer executes: every check up to it passed and the
/// token service accepted it. It executes — and cannot be reversed — even
/// when the escrow transfer after it fails.
pub open spec fn refund_executed(
    a: Auction,
    from: Holding,
    currency_holder: Holding,
    refund_receiver: Holding,
    price: u64,
    program: AccountId,
) -> bool {
    &&& bid_checks(a, from, currency_holder, refund_receiver, price, program)
    &&& a.refund_receiver is Some
    &&& refund_accepted(a, currency_holder, refund_receiver)
}

/// The record an accepted bid commits: the new bidder, the new bid, and the
/// bidder's funding account as the account now owed a refund.
pub open spec fn bid_committed(a: Auction, bidder: AccountId, funding: AccountId, price: u64) -> Auction {
    Auction {
        ongoing: a.ongoing,
        seller: a.seller,
        item_holder: a.item_holder,
        currency_holder: a.currency_holder,
        bidder: bidder,
        refund_receiver: Some(funding),
        price: price,
    }
}

/// Processes a challenger bid: refunds the displaced bid (when one is owed)
/// out of custody, escrows the new bid, and only after both transfers
/// succeeded commits the record. A rejected bid — whatever the reason — never
/// mutates the record, and never moves the bidder's funds.
pub fn bid(
    auction: &mut Auction,
    bidder: AccountId,
    from: &mut Holding,
    currency_holder: &mut Holding,
    refund_receiver: &mut Holding,
    price: u64,
    program: AccountId,
) -> (r: Result<(), AuctionErr>)
    ensures
        r is Ok <==> bid_accepted(
            *old(auction),
            *old(from),
            *old(currency_holder),
            *old(refund_receiver),
            price,
            program,
        ),
        r is Ok ==> *final(auction) == bid_committed(*old(auction), bidder, old(from).addr, price),
        r is Err ==> *final(auction) == *old(auction),
        same_account(*final(from), *old(from)),
        same_account(*final(currency_holder), *old(currency_holder)),
        same_account(*final(refund_receiver), *old(refund_receiver)),
        // The bidder's funding account is debited exactly on acceptance.
        final(from).amount == old(from).amount - (if r is Ok {
            price as int
        } else {
            0
        }),
        final(currency_holder).amount == old(currency_holder).amount - (if refund_executed(
            *old(auction),
            *old(from),
            *old(currency_holder),
            *old(refund_receiver),
            price,
            program,
        ) {
            spec_refund_amount(*old(auction))
        } else {
            0
        }) + (if r is Ok {
            price as int
        } else {
            0
        }),
        final(refund_receiver).amount == old(refund_receiver).amount + (if refund_executed(
            *old(auction),
            *old(from),
            *old(currency_holder),
            *old(refund_receiver),
            price,
            program,
        ) {
            spec_refund_amount(*old(auction))
        } else {
            0
        }),
        // A bid at or below the current price is rejected outright: the
        // record is not mutated and no funds move.
        old(auction).ongoing && price <= old(auction).price ==> r == Err::<(), AuctionErr>(
            AuctionErr::BidTooLow,
        ) && *final(auction) == *old(auction) && *final(from) == *old(from)
            && *final(currency_holder) == *old(currency_holder)
            && *final(refund_receiver) == *old(refund_receiver),
        // The error taxonomy, each case exactly characterized.
        r == Err::<(), AuctionErr>(AuctionErr::NotOngoing) <==> !old(auction).ongoing,
        r == Err::<(), AuctionErr>(AuctionErr::BidTooLow) <==> old(auction).ongoing && price <= old(
            auction,
        ).price,
        r == Err::<(), AuctionErr>(AuctionErr::AuthorizationMismatch) <==> old(auction).ongoing
            && price > old(auction).price && !bid_authorized(
            *old(auction),
            *old(from),
            *old(currency_holder),
            *old(refund_receiver),
            program,
        ),
        r == Err::<(), AuctionErr>(AuctionErr::TransferFailure) <==> bid_checks(
            *old(auction),
            *old(from),
            *old(currency_holder),
            *old(refund_receiver),
            price,
            program,
        ) && !(refund_accepted(*old(auction), *old(currency_holder), *old(refund_receiver))
            && escrow_accepted(*old(auction), *old(from), *old(currency_holder), price)),
{
    if !auction.ongoing {
        return Err(AuctionErr::NotOngoing);
    }
    if price <= auction.price {
        return Err(AuctionErr::BidTooLow);
    }
    let authorized = {
        let holder_bound = currency_holder.addr == auction.currency_holder;
        let holder_custodial = check_custodial_authority(
            &currency_holder.authority,
            &auction.seller,
            &program,
        );
        let mint_bound = from.mint == currency_holder.mint;
        let receiver_bound = match auction.refund_receiver {
            Some(owed) => refund_receiver.addr == owed,
            None => true,
        };
        holder_bound && holder_custodial && mint_bound && receiver_bound
    };
    if !authorized {
        return Err(AuctionErr::AuthorizationMismatch);
    }
    // Return the displaced bid before any new funds are accepted, so that at
    // most one bid is ever held in custody.
    let owed = match auction.refund_receiver {
        Some(_) => true,
        None => false,
    };
    if owed {
        // The authorization check above established that the holder's
        // authority is exactly the seller-derived custodial authority.
        let custodial_authority = currency_holder.authority;
        let displaced_bid = auction.price;
        let refunded = transfer(currency_holder, refund_receiver, custodial_authority, displaced_bid);
        if !refunded {
            return Err(AuctionErr::TransferFailure);
        }
    }
    // Escrow the new bid, authorized by the funding account's own authority.
    let funding_authority = from.authority;
    let escrowed = transfer(from, currency_holder, funding_authority, price);
    if !escrowed {
        return Err(AuctionErr::TransferFailure);
    }
    // Both transfers succeeded: commit the record.
    auction.bidder = bidder;
    auction.refund_receiver = Some(from.addr);
    auction.price = price;
    Ok(())
}

/// The identity checks a close must pass before any transfer: the caller is
/// the seller, the presented holding accounts are the record's and are
/// administered by the seller-derived authority, and the item goes to an
/// account the winning bidder controls.
pub open spec fn close_authorized(
    a: Auction,
    seller: AccountId,
    item_holder: Holding,
    item_receiver: Holding,
    currency_holder: Holding,
    program: AccountId,
) -> bool {
    &&& seller == a.seller
    &&& item_holder.addr == a.item_holder
    &&& is_custodial_authority(item_holder.authority, a.seller, program)
    &&& currency_holder.addr == a.currency_holder
    &&& is_custodial_authority(currency_holder.authority, a.seller, program)
    &&& item_receiver.authority == a.bidder
}

/// Whether releasing the item holder's full balance to the receiver is
/// accepted by the token service.
pub open spec fn item_release_accepted(item_holder: Holding, item_receiver: Holding) -> bool {
    item_receiver.amount + item_holder.amount <= u64::MAX
}

/// The currency payout is due only when custody actually covers the price; a
/// drained holder skips the payout rather than blocking the item's delivery.
pub open spec fn currency_release_due(a: Auction, currency_holder: Holding) -> bool {
    currency_holder.amount >= a.price
}

/// Whether the currency payout — when due — is accepted by the token service.
pub open spec fn currency_release_accepted(
    a: Auction,
    currency_holder: Holding,
    currency_receiver: Holding,
) -> bool {
    currency_release_due(a, currency_holder) ==> currency_receiver.amount + a.price <= u64::MAX
}

/// Whether the item actually leaves custody: every check before the item
/// transfer passed and the token service accepted it. It executes — and
/// cannot be reversed — even when the currency payout after it fails.
pub open spec fn item_released(
    a: Auction,
    seller: AccountId,
    item_holder: Holding,
    item_receiver: Holding,
    currency_holder: Holding,
    program: AccountId,
) -> bool {
    &&& a.ongoing
    &&& close_authorized(a, seller, item_holder, item_receiver, currency_holder, program)
    &&& item_release_accepted(item_holder, item_receiver)
}

/// A close runs to completion exactly when its checks pass, the item release
/// is accepted, and the currency payout — when due — is accepted.
pub open spec fn close_accepted(
    a: Auction,
    seller: AccountId,
    item_holder: Holding,
    item_receiver: Holding,
    currency_holder: Holding,
    currency_receiver: Holding,
    program: AccountId,
) -> bool {
    &&& a.ongoing
    &&& close_authorized(a, seller, item_holder, item_receiver, currency_holder, program)
    &&& item_release_accepted(item_holder, item_receiver)
    &&& currency_release_accepted(a, currency_holder, currency_receiver)
}

/// The record a successful close commits: settled, everything else — the
/// last refund receiver included — left as it was.
pub open spec fn close_committed(a: Auction) -> Auction {
    Auction {
        ongoing: false,
        seller: a.seller,
        item_holder: a.item_holder,
        currency_holder: a.currency_holder,
        bidder: a.bidder,
        refund_receiver: a.refund_receiver,
        price: a.price,
    }
}

/// Settles the auction on the seller's request: releases the item holder's
/// full balance to the winning bidder, releases exactly the price to the
/// seller's receiver when custody covers it, and only then marks the record
/// settled. Closing a settled record always fails with `NotOngoing` and moves
/// nothing.
pub fn close_auction(
    auction: &mut Auction,
    seller: AccountId,
    item_holder: &mut Holding,
    item_receiver: &mut Holding,
    currency_holder: &mut Holding,
    currency_receiver: &mut Holding,
    program: AccountId,
) -> (r: Result<(), AuctionErr>)
    ensures
        r is Ok <==> close_accepted(
            *old(auction),
            seller,
            *old(item_holder),
            *old(item_receiver),
            *old(currency_holder),
            *old(currency_receiver),
            program,
        ),
        // `ongoing` goes from true to false exactly once, on the one
        // successful close; a failed close leaves the record untouched.
        r is Ok ==> *final(auction) == close_committed(*old(auction)) && old(auction).ongoing
            && !final(auction).ongoing,
        r is Err ==> *final(auction) == *old(auction),
        same_account(*final(item_holder), *old(item_holder)),
        same_account(*final(item_receiver), *old(item_receiver)),
        same_account(*final(currency_holder), *old(currency_holder)),
        same_account(*final(currency_receiver), *old(currency_receiver)),
        // The item leaves custody exactly when everything before the item
        // transfer passed, even if the currency payout after it fails.
        final(item_holder).amount == (if item_released(
            *old(auction),
            seller,
            *old(item_holder),
            *old(item_receiver),
            *old(currency_holder),
            program,
        ) {
            0int
        } else {
            old(item_holder).amount as int
        }),
        final(item_receiver).amount == old(item_receiver).amount + (if item_released(
            *old(auction),
            seller,
            *old(item_holder),
            *old(item_receiver),
            *old(currency_holder),
            program,
        ) {
            old(item_holder).amount as int
        } else {
            0
        }),
        // Exactly the price is paid out, exactly when the close succeeds and
        // custody covers the price.
        final(currency_holder).amount == old(currency_holder).amount - (if r is Ok
            && currency_release_due(*old(auction), *old(currency_holder)) {
            old(auction).price as int
        } else {
            0
        }),
        final(currency_receiver).amount == old(currency_receiver).amount + (if r is Ok
            && currency_release_due(*old(auction), *old(currency_holder)) {
            old(auction).price as int
        } else {
            0
        }),
        // A settled record always answers `NotOngoing`: the record is not
        // mutated and no funds move.
        !old(auction).ongoing ==> r == Err::<(), AuctionErr>(AuctionErr::NotOngoing)
            && *final(auction) == *old(auction) && *final(item_holder) == *old(item_holder)
            && *final(item_receiver) == *old(item_receiver)
            && *final(currency_holder) == *old(currency_holder)
            && *final(currency_receiver) == *old(currency_receiver),
        // The error taxonomy, each case exactly characterized.
        r == Err::<(), AuctionErr>(AuctionErr::NotOngoing) <==> !old(auction).ongoing,
        r == Err::<(), AuctionErr>(AuctionErr::AuthorizationMismatch) <==> old(auction).ongoing
            && !close_authorized(
            *old(auction),
            seller,
            *old(item_holder),
            *old(item_receiver),
            *old(currency_holder),
            program,
        ),
        r == Err::<(), AuctionErr>(AuctionErr::TransferFailure) <==> old(auction).ongoing
            && close_authorized(
            *old(auction),
            seller,
            *old(item_holder),
            *old(item_receiver),
            *old(currency_holder),
            program,
        ) && !(item_release_accepted(*old(item_holder), *old(item_receiver))
            && currency_release_accepted(
            *old(auction),
            *old(currency_holder),
            *old(currency_receiver),
        )),
{
    if !auction.ongoing {
        return Err(AuctionErr::NotOngoing);
    }
    let authorized = {
        let seller_signed = seller == auction.seller;
        let item_bound = item_holder.addr == auction.item_holder;
        let item_custodial = check_custodial_authority(
            &item_holder.authority,
            &auction.seller,
            &program,
        );
        let currency_bound = currency_holder.addr == auction.currency_holder;
        let currency_custodial = check_custodial_authority(
            &currency_holder.authority,
            &auction.seller,
            &program,
        );
        let receiver_is_bidder = item_receiver.authority == auction.bidder;
        seller_signed && item_bound && item_custodial && currency_bound && currency_custodial
            && receiver_is_bidder
    };
    if !authorized {
        return Err(AuctionErr::AuthorizationMismatch);
    }
    // Release the item's full balance to the winning bidder, under the
    // seller-derived custodial authority established by the check above.
    let item_authority = item_holder.authority;
    let full_item_balance = item_holder.amount;
    let released = transfer(item_holder, item_receiver, item_authority, full_item_balance);
    if !released {
        return Err(AuctionErr::TransferFailure);
    }
    // Release the currency only when custody covers the price: a drained
    // holder skips the payout rather than blocking the item's delivery.
    if currency_holder.amount >= auction.price {
        let currency_authority = currency_holder.authority;
        let sale_price = auction.price;
        let paid = transfer(currency_holder, currency_receiver, currency_authority, sale_price);
        if !paid {
            return Err(AuctionErr::TransferFailure);
        }
    }
    auction.ongoing = false;
    Ok(())
}

} // verus!
