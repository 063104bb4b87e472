use auction::holding::{transfer, Holding};
use auction::identity::AccountId;
use auction::protocol::{bid, close_auction, Auction, AuctionErr};

fn id(b: u8) -> AccountId {
    AccountId { bytes: [b; 32] }
}

fn derived(seller: AccountId, program: AccountId) -> AccountId {
    let program_key = anchor_lang::prelude::Pubkey::new_from_array(program.bytes);
    let (authority, _bump) =
        anchor_lang::prelude::Pubkey::try_find_program_address(&[&seller.bytes], &program_key)
            .unwrap();
    AccountId {
        bytes: authority.to_bytes(),
    }
}

/// A record carrying one escrowed bid of 150 owed back to account 21.
fn mid_auction(program: AccountId, seller: AccountId) -> (Auction, Holding) {
    let currency_holder = Holding {
        addr: id(11),
        authority: derived(seller, program),
        mint: id(2),
        amount: 150,
    };
    let auction = Auction {
        ongoing: true,
        seller,
        item_holder: id(10),
        currency_holder: currency_holder.addr,
        bidder: id(20),
        refund_receiver: Some(id(21)),
        price: 150,
    };
    (auction, currency_holder)
}

#[test]
fn bid_rejects_wrong_currency_holder() {
    let (mut auction, currency_holder) = mid_auction(id(9), id(1));
    let before = auction;
    let mut wrong_holder = Holding {
        addr: id(99),
        ..currency_holder
    };
    let y = id(30);
    let mut y_funds = Holding {
        addr: id(31),
        authority: y,
        mint: id(2),
        amount: 1_000,
    };
    let mut x_refund = Holding {
        addr: id(21),
        authority: id(20),
        mint: id(2),
        amount: 0,
    };
    let r = bid(
        &mut auction,
        y,
        &mut y_funds,
        &mut wrong_holder,
        &mut x_refund,
        200,
        id(9),
    );
    assert_eq!(r, Err(AuctionErr::AuthorizationMismatch));
    assert_eq!(auction, before);
    assert_eq!(y_funds.amount, 1_000);
    assert_eq!(wrong_holder.amount, 150);
    assert_eq!(x_refund.amount, 0);
}

#[test]
fn bid_rejects_holder_with_foreign_authority() {
    let (mut auction, currency_holder) = mid_auction(id(9), id(1));
    let before = auction;
    let mut foreign_holder = Holding {
        authority: id(77),
        ..currency_holder
    };
    let y = id(30);
    let mut y_funds = Holding {
        addr: id(31),
        authority: y,
        mint: id(2),
        amount: 1_000,
    };
    let mut x_refund = Holding {
        addr: id(21),
        authority: id(20),
        mint: id(2),
        amount: 0,
    };
    let r = bid(
        &mut auction,
        y,
        &mut y_funds,
        &mut foreign_holder,
        &mut x_refund,
        200,
        id(9),
    );
    assert_eq!(r, Err(AuctionErr::AuthorizationMismatch));
    assert_eq!(auction, before);
}

#[test]
fn bid_rejects_wrong_mint_and_wrong_refund_account() {
    let (mut auction, mut currency_holder) = mid_auction(id(9), id(1));
    let before = auction;
    let y = id(30);
    let mut wrong_mint_funds = Holding {
        addr: id(31),
        authority: y,
        mint: id(66),
        amount: 1_000,
    };
    let mut x_refund = Holding {
        addr: id(21),
        authority: id(20),
        mint: id(2),
        amount: 0,
    };
    let r = bid(
        &mut auction,
        y,
        &mut wrong_mint_funds,
        &mut currency_holder,
        &mut x_refund,
        200,
        id(9),
    );
    assert_eq!(r, Err(AuctionErr::AuthorizationMismatch));
    assert_eq!(auction, before);

    let mut y_funds = Holding {
        addr: id(31),
        authority: y,
        mint: id(2),
        amount: 1_000,
    };
    let mut not_the_owed_account = Holding {
        addr: id(98),
        authority: id(20),
        mint: id(2),
        amount: 0,
    };
    let r = bid(
        &mut auction,
        y,
        &mut y_funds,
        &mut currency_holder,
        &mut not_the_owed_account,
        200,
        id(9),
    );
    assert_eq!(r, Err(AuctionErr::AuthorizationMismatch));
    assert_eq!(auction, before);
    assert_eq!(currency_holder.amount, 150);
}

#[test]
fn bid_fails_when_custody_cannot_cover_refund() {
    let (mut auction, mut currency_holder) = mid_auction(id(9), id(1));
    // Custody was externally drained below the owed refund.
    currency_holder.amount = 149;
    let before = auction;
    let y = id(30);
    let mut y_funds = Holding {
        addr: id(31),
        authority: y,
        mint: id(2),
        amount: 1_000,
    };
    let mut x_refund = Holding {
        addr: id(21),
        authority: id(20),
        mint: id(2),
        amount: 0,
    };
    let r = bid(
        &mut auction,
        y,
        &mut y_funds,
        &mut currency_holder,
        &mut x_refund,
        200,
        id(9),
    );
    assert_eq!(r, Err(AuctionErr::TransferFailure));
    assert_eq!(auction, before);
    // The refund did not execute, and the bidder was never debited.
    assert_eq!(currency_holder.amount, 149);
    assert_eq!(x_refund.amount, 0);
    assert_eq!(y_funds.amount, 1_000);
}

#[test]
fn bid_failing_after_refund_leaves_refund_executed() {
    let (mut auction, mut currency_holder) = mid_auction(id(9), id(1));
    let before = auction;
    let y = id(30);
    // The challenger cannot actually fund the offered price: the escrow
    // transfer fails after the displaced bid was already refunded. The record
    // is not committed, and the executed refund is not reversed.
    let mut y_funds = Holding {
        addr: id(31),
        authority: y,
        mint: id(2),
        amount: 199,
    };
    let mut x_refund = Holding {
        addr: id(21),
        authority: id(20),
        mint: id(2),
        amount: 850,
    };
    let r = bid(
        &mut auction,
        y,
        &mut y_funds,
        &mut currency_holder,
        &mut x_refund,
        200,
        id(9),
    );
    assert_eq!(r, Err(AuctionErr::TransferFailure));
    assert_eq!(auction, before);
    assert_eq!(currency_holder.amount, 0);
    assert_eq!(x_refund.amount, 1_000);
    assert_eq!(y_funds.amount, 199);
}

#[test]
fn close_rejects_non_seller_and_wrong_accounts() {
    let program = id(9);
    let seller = id(1);
    let (mut auction, mut currency_holder) = mid_auction(program, seller);
    let before = auction;
    let mut item_holder = Holding {
        addr: id(10),
        authority: derived(seller, program),
        mint: id(3),
        amount: 1,
    };
    let mut item_receiver = Holding {
        addr: id(40),
        authority: id(20),
        mint: id(3),
        amount: 0,
    };
    let mut seller_receiver = Holding {
        addr: id(41),
        authority: seller,
        mint: id(2),
        amount: 0,
    };

    // Not the seller.
    let r = close_auction(
        &mut auction,
        id(55),
        &mut item_holder,
        &mut item_receiver,
        &mut currency_holder,
        &mut seller_receiver,
        program,
    );
    assert_eq!(r, Err(AuctionErr::AuthorizationMismatch));
    assert_eq!(auction, before);
    assert_eq!(item_holder.amount, 1);

    // Item receiver not controlled by the winning bidder.
    let mut stranger_receiver = Holding {
        addr: id(40),
        authority: id(77),
        mint: id(3),
        amount: 0,
    };
    let r = close_auction(
        &mut auction,
        seller,
        &mut item_holder,
        &mut stranger_receiver,
        &mut currency_holder,
        &mut seller_receiver,
        program,
    );
    assert_eq!(r, Err(AuctionErr::AuthorizationMismatch));
    assert_eq!(auction, before);

    // Wrong item holder account.
    let mut wrong_item_holder = Holding {
        addr: id(97),
        ..item_holder
    };
    let r = close_auction(
        &mut auction,
        seller,
        &mut wrong_item_holder,
        &mut item_receiver,
        &mut currency_holder,
        &mut seller_receiver,
        program,
    );
    assert_eq!(r, Err(AuctionErr::AuthorizationMismatch));
    assert_eq!(auction, before);
    assert_eq!(currency_holder.amount, 150);
    assert_eq!(item_receiver.amount, 0);
    assert_eq!(seller_receiver.amount, 0);
}

#[test]
fn close_skips_payout_when_custody_is_drained() {
    let program = id(9);
    let seller = id(1);
    let (mut auction, mut currency_holder) = mid_auction(program, seller);
    // Custody no longer covers the recorded price; the item is still
    // delivered and the auction still settles.
    currency_holder.amount = 149;
    let mut item_holder = Holding {
        addr: id(10),
        authority: derived(seller, program),
        mint: id(3),
        amount: 1,
    };
    let mut item_receiver = Holding {
        addr: id(40),
        authority: id(20),
        mint: id(3),
        amount: 0,
    };
    let mut seller_receiver = Holding {
        addr: id(41),
        authority: seller,
        mint: id(2),
        amount: 0,
    };
    let r = close_auction(
        &mut auction,
        seller,
        &mut item_holder,
        &mut item_receiver,
        &mut currency_holder,
        &mut seller_receiver,
        program,
    );
    assert_eq!(r, Ok(()));
    assert!(!auction.ongoing);
    assert_eq!(item_holder.amount, 0);
    assert_eq!(item_receiver.amount, 1);
    assert_eq!(currency_holder.amount, 149);
    assert_eq!(seller_receiver.amount, 0);
}

#[test]
fn transfer_moves_exact_amount_or_nothing() {
    let owner = id(5);
    let mut a = Holding {
        addr: id(6),
        authority: owner,
        mint: id(2),
        amount: 70,
    };
    let mut b = Holding {
        addr: id(7),
        authority: id(8),
        mint: id(2),
        amount: 30,
    };
    // Not authorized by the holder's authority.
    assert!(!transfer(&mut a, &mut b, id(8), 10));
    assert_eq!((a.amount, b.amount), (70, 30));
    // Underfunded.
    assert!(!transfer(&mut a, &mut b, owner, 71));
    assert_eq!((a.amount, b.amount), (70, 30));
    // The credit would overflow the receiving balance.
    b.amount = u64::MAX - 9;
    assert!(!transfer(&mut a, &mut b, owner, 10));
    assert_eq!(a.amount, 70);
    b.amount = 30;
    // Accepted: exactly 10 moves.
    assert!(transfer(&mut a, &mut b, owner, 10));
    assert_eq!((a.amount, b.amount), (60, 40));
}
