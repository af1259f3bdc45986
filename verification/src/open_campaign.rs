//! The open-campaign lifecycle: a pooled offer with no selected promoter.
//! The creator publishes a pool; the marketplace operator completes it
//! exactly once, choosing the terminal outcome. On completion the custody
//! account is drained to the operator's account whatever the outcome — that
//! mirrors the settlement rule as it stands, even for the `Discarded` branch.

use vstd::prelude::*;
use crate::address::Address;
use crate::custody::TokenAccount;
use crate::custody::transfer;
use crate::errors::CustomErrorCode;
use crate::identity::derive_campaign_id;
use crate::identity::derive_address;
use crate::identity::open_campaign_tag;
use crate::identity::spec_campaign_id;
use crate::identity::spec_derived_address;
use crate::identity::spec_open_campaign_tag;
use crate::registry::MarketplaceState;

verus! {

/// The open-campaign states. `Published` is initial; both others are
/// terminal and reachable only through completion by the operator.
#[derive(Clone, Copy, Debug, PartialEq, Eq, Structural)]
pub enum OpenCampaignStatus {
    Published,
    Fulfilled,
    Discarded,
}

/// A status from which no further transition is defined.
pub open spec fn is_open_terminal(s: OpenCampaignStatus) -> bool {
    s == OpenCampaignStatus::Fulfilled || s == OpenCampaignStatus::Discarded
}

/// One legal movement of an open campaign's status: standing still, or one
/// completion edge out of `Published`.
pub open spec fn open_campaign_step_allowed(
    pre: OpenCampaignStatus,
    post: OpenCampaignStatus,
) -> bool {
    ||| pre == post
    ||| (pre == OpenCampaignStatus::Published && post == OpenCampaignStatus::Fulfilled)
    ||| (pre == OpenCampaignStatus::Published && post == OpenCampaignStatus::Discarded)
}

/// Statuses only move forward: a terminal status admits no movement at all.
pub proof fn lemma_open_terminal_status_is_final(pre: OpenCampaignStatus, post: OpenCampaignStatus)
    requires
        is_open_terminal(pre),
        open_campaign_step_allowed(pre, post),
    ensures
        post == pre,
{
}

/// One creator-initiated pooled offer. As with a campaign, the tuple
/// (creator_address, counter) derives the record's address and custody
/// authority; there is no selected promoter and no offer deadline.
#[derive(Clone, Copy, Debug)]
pub struct OpenCampaign {
    pub id: [u8; 4],
    pub counter: u32,
    pub created_at: i64,
    pub creator_address: Address,
    pub token_mint: Address,
    pub promotion_ends_in: i64,
    pub pool_amount: u64,
    pub campaign_status: OpenCampaignStatus,
}

impl OpenCampaign {
    /// The only authority that may move funds out of this record's custody
    /// account.
    pub open spec fn spec_authority(&self) -> Seq<u8> {
        spec_derived_address(spec_open_campaign_tag(), self.creator_address@, self.counter)
    }

    /// Computes this record's custody authority.
    pub fn authority(&self) -> (a: Address)
        ensures
            a@ == self.spec_authority(),
    {
        derive_address(&open_campaign_tag(), &self.creator_address, self.counter)
    }
}

/// Publishes a pooled offer at time `now`: validates the pool, derives the
/// identifier from (now, creator, counter), consumes one counter value, and
/// draws the pool from the creator's account into a fresh custody account
/// owned by the record's derived authority. On a positive pool, a future
/// deadline and a creator account covering the draw, creation always
/// succeeds, leaves custody holding exactly the pool and raises the counter
/// by exactly one. On any error nothing is changed.
pub fn create_open_campaign(
    marketplace_state: &mut MarketplaceState,
    creator: &Address,
    token_mint: &Address,
    promotion_ends_in: i64,
    pool_amount: u64,
    now: i64,
    creator_token_account: &mut TokenAccount,
) -> (r: Result<(OpenCampaign, TokenAccount), CustomErrorCode>)
    requires
        old(marketplace_state).spec_is_allowed(token_mint@),
        old(marketplace_state).campaign_counter < u32::MAX,
        old(creator_token_account).owner@ == creator@,
    ensures
        r is Ok <==> pool_amount > 0 && promotion_ends_in > now && old(
            creator_token_account,
        ).amount >= pool_amount,
        match r {
            Ok((open_campaign, custody)) => {
                &&& open_campaign.id@ == spec_campaign_id(
                    now,
                    creator@,
                    old(marketplace_state).campaign_counter,
                )
                &&& open_campaign.counter == old(marketplace_state).campaign_counter
                &&& open_campaign.created_at == now
                &&& open_campaign.creator_address@ == creator@
                &&& open_campaign.token_mint@ == token_mint@
                &&& open_campaign.promotion_ends_in == promotion_ends_in
                &&& open_campaign.pool_amount == pool_amount
                &&& open_campaign.campaign_status == OpenCampaignStatus::Published
                &&& custody.owner@ == open_campaign.spec_authority()
                &&& custody.mint@ == token_mint@
                &&& custody.amount == pool_amount
                &&& final(marketplace_state).campaign_counter == old(
                    marketplace_state,
                ).campaign_counter + 1
                &&& final(marketplace_state).owner@ == old(marketplace_state).owner@
                &&& final(marketplace_state).allowed_tokens == old(
                    marketplace_state,
                ).allowed_tokens
                &&& final(marketplace_state).token_decimals == old(
                    marketplace_state,
                ).token_decimals
                &&& final(creator_token_account).amount == old(creator_token_account).amount
                    - pool_amount
                &&& final(creator_token_account).owner@ == old(creator_token_account).owner@
                &&& final(creator_token_account).mint@ == old(creator_token_account).mint@
            },
            Err(e) => {
                &&& *final(marketplace_state) == *old(marketplace_state)
                &&& *final(creator_token_account) == *old(creator_token_account)
                &&& (e == CustomErrorCode::InvalidAmount <==> pool_amount == 0)
                &&& (e == CustomErrorCode::InvalidTimeParameters <==> pool_amount > 0
                    && promotion_ends_in <= now)
                &&& (e == CustomErrorCode::InsufficientFunds <==> pool_amount > 0
                    && promotion_ends_in > now && old(creator_token_account).amount < pool_amount)
            },
        },
{
    if pool_amount == 0 {
        return Err(CustomErrorCode::InvalidAmount);
    }
    if promotion_ends_in <= now {
        return Err(CustomErrorCode::InvalidTimeParameters);
    }
    if creator_token_account.amount < pool_amount {
        return Err(CustomErrorCode::InsufficientFunds);
    }

    let counter = marketplace_state.next_counter();
    let id = derive_campaign_id(now, creator, counter);

    let open_campaign = OpenCampaign {
        id,
        counter,
        created_at: now,
        creator_address: *creator,
        token_mint: *token_mint,
        promotion_ends_in,
        pool_amount,
        campaign_status: OpenCampaignStatus::Published,
    };

    let mut custody = TokenAccount::new(open_campaign.authority(), *token_mint, 0);
    match transfer(creator_token_account, &mut custody, pool_amount, creator) {
        Ok(()) => Ok((open_campaign, custody)),
        Err(_) => unreached(),
    }
}

/// The operator completes a published pool exactly once, choosing the
/// terminal outcome by `is_fulfilled`; either way the whole pool amount
/// leaves custody for the operator's account. Fails with `Unauthorized` for
/// any caller but the registry owner and for a custody account that is not
/// the one the record's authority controls, `InvalidOpenCampaignStatus` off
/// the `Published` state, and `InsufficientFunds` when custody holds less
/// than the pool amount; on any error nothing is changed.
pub fn complete_open_campaign(
    marketplace_state: &MarketplaceState,
    open_campaign: &mut OpenCampaign,
    campaign_token_account: &mut TokenAccount,
    owner_token_account: &mut TokenAccount,
    caller: &Address,
    is_fulfilled: bool,
) -> (r: Result<(), CustomErrorCode>)
    requires
        old(owner_token_account).owner@ == marketplace_state.owner@,
        marketplace_state.owner@ == caller@ && old(open_campaign).campaign_status
            == OpenCampaignStatus::Published && old(campaign_token_account).amount >= old(
            open_campaign,
        ).pool_amount ==> old(owner_token_account).amount + old(open_campaign).pool_amount
            <= u64::MAX,
    ensures
        r is Ok <==> marketplace_state.owner@ == caller@ && old(open_campaign).campaign_status
            == OpenCampaignStatus::Published && old(campaign_token_account).owner@ == old(
            open_campaign,
        ).spec_authority() && old(campaign_token_account).amount >= old(
            open_campaign,
        ).pool_amount,
        open_campaign_step_allowed(
            old(open_campaign).campaign_status,
            final(open_campaign).campaign_status,
        ),
        match r {
            Ok(()) => {
                &&& final(open_campaign).campaign_status == (if is_fulfilled {
                    OpenCampaignStatus::Fulfilled
                } else {
                    OpenCampaignStatus::Discarded
                })
                &&& final(open_campaign).id == old(open_campaign).id
                &&& final(open_campaign).counter == old(open_campaign).counter
                &&& final(open_campaign).created_at == old(open_campaign).created_at
                &&& final(open_campaign).creator_address == old(open_campaign).creator_address
                &&& final(open_campaign).token_mint == old(open_campaign).token_mint
                &&& final(open_campaign).promotion_ends_in == old(open_campaign).promotion_ends_in
                &&& final(open_campaign).pool_amount == old(open_campaign).pool_amount
                &&& final(campaign_token_account).amount == old(campaign_token_account).amount
                    - old(open_campaign).pool_amount
                &&& final(owner_token_account).amount == old(owner_token_account).amount + old(
                    open_campaign,
                ).pool_amount
                &&& final(campaign_token_account).owner@ == old(campaign_token_account).owner@
                &&& final(campaign_token_account).mint@ == old(campaign_token_account).mint@
                &&& final(owner_token_account).owner@ == old(owner_token_account).owner@
                &&& final(owner_token_account).mint@ == old(owner_token_account).mint@
            },
            Err(e) => {
                &&& *final(open_campaign) == *old(open_campaign)
                &&& *final(campaign_token_account) == *old(campaign_token_account)
                &&& *final(owner_token_account) == *old(owner_token_account)
                &&& (e == CustomErrorCode::Unauthorized <==> marketplace_state.owner@ != caller@
                    || (old(open_campaign).campaign_status == OpenCampaignStatus::Published && old(
                    campaign_token_account,
                ).owner@ != old(open_campaign).spec_authority()))
                &&& (e == CustomErrorCode::InvalidOpenCampaignStatus <==> marketplace_state.owner@
                    == caller@ && old(open_campaign).campaign_status
                    != OpenCampaignStatus::Published)
                &&& (e == CustomErrorCode::InsufficientFunds <==> marketplace_state.owner@
                    == caller@ && old(open_campaign).campaign_status
                    == OpenCampaignStatus::Published && old(campaign_token_account).owner@ == old(
                    open_campaign,
                ).spec_authority() && old(campaign_token_account).amount < old(
                    open_campaign,
                ).pool_amount)
            },
        },
{
    if !(marketplace_state.owner == *caller) {
        return Err(CustomErrorCode::Unauthorized);
    }
    if !(open_campaign.campaign_status == OpenCampaignStatus::Published) {
        return Err(CustomErrorCode::InvalidOpenCampaignStatus);
    }

    let authority = open_campaign.authority();
    if !(campaign_token_account.owner == authority) {
        return Err(CustomErrorCode::Unauthorized);
    }

    let pool_amount = open_campaign.pool_amount;
    if campaign_token_account.amount < pool_amount {
        return Err(CustomErrorCode::InsufficientFunds);
    }

    open_campaign.campaign_status = if is_fulfilled {
        OpenCampaignStatus::Fulfilled
    } else {
        OpenCampaignStatus::Discarded
    };

    match transfer(campaign_token_account, owner_token_account, pool_amount, &authority) {
        Ok(()) => Ok(()),
        Err(_) => unreached(),
    }
}

} // verus!
