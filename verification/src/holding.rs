//! Token holding accounts and the transfer capability of the token-custody
//! service, as the protocol observes them.

use vstd::prelude::*;
use crate::identity::AccountId;

verus! {

/// A token account as the protocol reads it: its address, the authority that
/// may debit it, the currency (mint) it is bound to, and its balance.
#[derive(Clone, Copy, PartialEq, Debug)]
pub struct Holding {
    pub addr: AccountId,
    pub authority: AccountId,
    pub mint: AccountId,
    pub amount: u64,
}

/// Two holding states describe the same account: only the balance may differ.
pub open spec fn same_account(a: Holding, b: Holding) -> bool {
    a.addr == b.addr && a.authority == b.authority && a.mint == b.mint
}

/// When the token service accepts `transfer(from, to, authorized_by, amount)`:
/// the debit must be authorized by the holder's authority, the holder must be
/// funded, and the credit must not overflow the receiving balance.
pub open spec fn transfer_accepted(
    from: Holding,
    to: Holding,
    authorized_by: AccountId,
    amount: u64,
) -> bool {
    &&& authorized_by == from.authority
    &&& amount <= from.amount
    &&& to.amount + amount <= u64::MAX
}

/// The token-custody service's transfer: moves exactly `amount` from `from`
/// to `to` when the debit is authorized and funded, or fails and moves
/// nothing. Amounts are exact; nothing is rounded or split.
pub fn transfer(from: &mut Holding, to: &mut Holding, authorized_by: AccountId, amount: u64) -> (ok:
    bool)
    ensures
        ok == transfer_accepted(*old(from), *old(to), authorized_by, amount),
        same_account(*final(from), *old(from)),
        same_account(*final(to), *old(to)),
        ok ==> final(from).amount == old(from).amount - amount,
        ok ==> final(to).amount == old(to).amount + amount,
        !ok ==> *final(from) == *old(from) && *final(to) == *old(to),
{
    if authorized_by == from.authority && amount <= from.amount && amount <= u64::MAX - to.amount {
        from.amount = from.amount - amount;
        to.amount = to.amount + amount;
        true
    } else {
        false
    }
}

} // verus!
