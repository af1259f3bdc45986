//! The custodial value-transfer capability, modeled as a ledger account and a
//! transfer primitive: move `amount` units from one account to another,
//! authorized by the source account's controlling authority. Each transition
//! that settles or refunds a campaign goes through this primitive, signed by
//! the authority derived for exactly that campaign record.

use vstd::prelude::*;
use crate::address::Address;
use crate::errors::CustomErrorCode;

verus! {

/// A token account: its controlling authority, its denomination and its
/// balance. A campaign's custody account is owned by the campaign's derived
/// authority, so no other code path can move its funds.
#[derive(Clone, Copy, Debug)]
pub struct TokenAccount {
    pub owner: Address,
    pub mint: Address,
    pub amount: u64,
}

impl TokenAccount {
    pub fn new(owner: Address, mint: Address, amount: u64) -> (t: TokenAccount)
        ensures
            t.owner@ == owner@,
            t.mint@ == mint@,
            t.amount == amount,
    {
        TokenAccount { owner, mint, amount }
    }
}

/// Whether a transfer of `amount` out of `from` under `authority` goes
/// through: the authority must control the source, whose balance must
/// suffice.
pub open spec fn spec_transfer_ok(from: TokenAccount, amount: u64, authority: Seq<u8>) -> bool {
    from.owner@ == authority && from.amount >= amount
}

/// Moves `amount` units from `from` to `to`, authorized by `authority`. The
/// move is atomic: it succeeds exactly when `authority` controls `from` and
/// `from`'s balance suffices, and a failed transfer moves nothing.
pub fn transfer(
    from: &mut TokenAccount,
    to: &mut TokenAccount,
    amount: u64,
    authority: &Address,
) -> (r: Result<(), CustomErrorCode>)
    requires
        old(to).amount + amount <= u64::MAX,
    ensures
        r is Ok <==> spec_transfer_ok(*old(from), amount, authority@),
        match r {
            Ok(()) => {
                &&& final(from).amount == old(from).amount - amount
                &&& final(to).amount == old(to).amount + amount
                &&& final(from).owner@ == old(from).owner@ && final(from).mint@ == old(from).mint@
                &&& final(to).owner@ == old(to).owner@ && final(to).mint@ == old(to).mint@
            },
            Err(e) => {
                &&& *final(from) == *old(from)
                &&& *final(to) == *old(to)
                &&& (e == CustomErrorCode::Unauthorized <==> old(from).owner@ != authority@)
                &&& (e == CustomErrorCode::InsufficientFunds <==> old(from).owner@ == authority@
                    && old(from).amount < amount)
            },
        },
{
    if !(from.owner == *authority) {
        return Err(CustomErrorCode::Unauthorized);
    }
    if from.amount < amount {
        return Err(CustomErrorCode::InsufficientFunds);
    }
    from.amount = from.amount - amount;
    to.amount = to.amount + amount;
    Ok(())
}

} // verus!
