//! The marketplace registry: the singleton record naming the operator,
//! carrying the monotonic campaign counter, and holding the allow-list of
//! accepted value denominations with their decimal precisions.

use vstd::prelude::*;
use crate::address::Address;
use crate::errors::CustomErrorCode;

verus! {

/// The most denominations the allow-list may hold.
pub const MAX_ALLOWED_TOKENS: usize = 10;

/// The registry singleton. `owner` is immutable after creation and the
/// counter only ever increases; the denomination and decimal lists pair up
/// entry by entry.
#[derive(Debug)]
pub struct MarketplaceState {
    pub owner: Address,
    pub campaign_counter: u32,
    pub allowed_tokens: Vec<Address>,
    pub token_decimals: Vec<u8>,
}

impl MarketplaceState {
    /// Registry well-formedness: one decimal-precision byte per allowed
    /// denomination, and no more denominations than the bound.
    pub open spec fn wf(&self) -> bool {
        &&& self.allowed_tokens@.len() == self.token_decimals@.len()
        &&& self.allowed_tokens@.len() <= MAX_ALLOWED_TOKENS
    }

    /// Whether `mint` is an accepted denomination.
    pub open spec fn spec_is_allowed(&self, mint: Seq<u8>) -> bool {
        exists|i: int| 0 <= i < self.allowed_tokens@.len() && self.allowed_tokens@[i]@ == mint
    }

    /// Membership check against the allow-list; a precondition wherever a
    /// caller supplies a denomination.
    pub fn is_allowed_denomination(&self, mint: &Address) -> (r: bool)
        ensures
            r == self.spec_is_allowed(mint@),
    {
        let mut i: usize = 0;
        while i < self.allowed_tokens.len()
            invariant
                0 <= i <= self.allowed_tokens@.len(),
                forall|j: int| 0 <= j < i ==> self.allowed_tokens@[j]@ != mint@,
            decreases self.allowed_tokens@.len() - i,
        {
            if self.allowed_tokens[i] == *mint {
                return true;
            }
            i = i + 1;
        }
        false
    }

    /// Hands out the current counter value and moves the counter forward by
    /// one; the value is never reused. Counter exhaustion is fatal on the
    /// host, so a full counter is excluded here.
    pub fn next_counter(&mut self) -> (c: u32)
        requires
            old(self).campaign_counter < u32::MAX,
        ensures
            c == old(self).campaign_counter,
            final(self).campaign_counter == old(self).campaign_counter + 1,
            final(self).owner@ == old(self).owner@,
            final(self).allowed_tokens == old(self).allowed_tokens,
            final(self).token_decimals == old(self).token_decimals,
    {
        let c = self.campaign_counter;
        self.campaign_counter = self.campaign_counter + 1;
        c
    }
}

/// Creates the registry singleton: sets the operator, zeroes the counter and
/// stores the allow-list. Rejects lists of unequal length, and a list over
/// the bound. Single-use; the host enforces that it runs once.
pub fn initialize(
    owner: &Address,
    allowed_tokens: Vec<Address>,
    token_decimals: Vec<u8>,
) -> (r: Result<MarketplaceState, CustomErrorCode>)
    ensures
        r is Ok <==> allowed_tokens@.len() == token_decimals@.len() && allowed_tokens@.len()
            <= MAX_ALLOWED_TOKENS,
        match r {
            Ok(state) => {
                &&& state.owner@ == owner@
                &&& state.campaign_counter == 0
                &&& state.allowed_tokens == allowed_tokens
                &&& state.token_decimals == token_decimals
                &&& state.wf()
            },
            Err(e) => {
                &&& (e == CustomErrorCode::InvalidParameters <==> allowed_tokens@.len()
                    != token_decimals@.len())
                &&& (e == CustomErrorCode::TooManyTokens <==> allowed_tokens@.len()
                    == token_decimals@.len() && allowed_tokens@.len() > MAX_ALLOWED_TOKENS)
            },
        },
{
    if allowed_tokens.len() != token_decimals.len() {
        return Err(CustomErrorCode::InvalidParameters);
    }
    if allowed_tokens.len() > MAX_ALLOWED_TOKENS {
        return Err(CustomErrorCode::TooManyTokens);
    }
    Ok(
        MarketplaceState {
            owner: *owner,
            campaign_counter: 0,
            allowed_tokens,
            token_decimals,
        },
    )
}

} // verus!
