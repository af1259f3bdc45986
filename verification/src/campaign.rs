//! The campaign lifecycle: a per-deal state machine between a creator and a
//! selected promoter, settled by the marketplace operator. Creation draws the
//! offered amount into a custody account owned by the campaign's derived
//! authority; the terminal transitions drain it through the custodial
//! transfer primitive.

use vstd::prelude::*;
use crate::address::Address;
use crate::custody::TokenAccount;
use crate::custody::transfer;
use crate::distribution::KOL_SHARE_PERCENTAGE;
use crate::distribution::calculate_shares;
use crate::distribution::spec_kol_amount;
use crate::distribution::spec_owner_amount;
use crate::errors::CustomErrorCode;
use crate::identity::campaign_tag;
use crate::identity::derive_address;
use crate::identity::derive_campaign_id;
use crate::identity::spec_campaign_id;
use crate::identity::spec_campaign_tag;
use crate::identity::spec_derived_address;
use crate::registry::MarketplaceState;

verus! {

/// The campaign states. `Open`, the initial state, awaits the promoter;
/// `Fulfilled`, `Unfulfilled` and `Discarded` are terminal. `Unfulfilled`
/// belongs to the persisted data model but no transition produces it.
#[derive(Clone, Copy, Debug, PartialEq, Eq, Structural)]
pub enum CampaignStatus {
    Open,
    Accepted,
    Fulfilled,
    Unfulfilled,
    Discarded,
}

/// A status from which no further transition is defined.
pub open spec fn is_terminal(s: CampaignStatus) -> bool {
    ||| s == CampaignStatus::Fulfilled
    ||| s == CampaignStatus::Unfulfilled
    ||| s == CampaignStatus::Discarded
}

/// One legal movement of a campaign's status: standing still, or one forward
/// edge of the lifecycle.
pub open spec fn campaign_step_allowed(pre: CampaignStatus, post: CampaignStatus) -> bool {
    ||| pre == post
    ||| (pre == CampaignStatus::Open && post == CampaignStatus::Accepted)
    ||| (pre == CampaignStatus::Accepted && post == CampaignStatus::Fulfilled)
    ||| (pre == CampaignStatus::Open && post == CampaignStatus::Discarded)
}

/// Statuses only move forward: a terminal status admits no movement at all.
pub proof fn lemma_terminal_status_is_final(pre: CampaignStatus, post: CampaignStatus)
    requires
        is_terminal(pre),
        campaign_step_allowed(pre, post),
    ensures
        post == pre,
{
}

/// One creator-initiated deal with a selected promoter. `creator_address`
/// and `counter` are immutable after creation: together they derive the
/// record's address and its custody authority.
#[derive(Clone, Copy, Debug)]
pub struct Campaign {
    pub id: [u8; 4],
    pub counter: u32,
    pub created_at: i64,
    pub creator_address: Address,
    pub token_mint: Address,
    pub selected_kol: Address,
    pub offer_ends_in: i64,
    pub promotion_ends_in: i64,
    pub amount_offered: u64,
    pub campaign_status: CampaignStatus,
}

impl Campaign {
    /// The only authority that may move funds out of this campaign's custody
    /// account, derived from the campaign domain tag and the record's
    /// uniqueness tuple.
    pub open spec fn spec_authority(&self) -> Seq<u8> {
        spec_derived_address(spec_campaign_tag(), self.creator_address@, self.counter)
    }

    /// Computes this campaign's custody authority.
    pub fn authority(&self) -> (a: Address)
        ensures
            a@ == self.spec_authority(),
    {
        derive_address(&campaign_tag(), &self.creator_address, self.counter)
    }
}

/// Opens a new campaign at time `now`: validates the offer, derives the
/// 4-byte identifier from (now, creator, counter), consumes one counter
/// value, and draws the offered amount from the creator's account into a
/// fresh custody account owned by the campaign's derived authority. On a
/// positive amount, future deadlines and a creator account covering the
/// draw, creation always succeeds, leaves custody holding exactly the
/// offered amount and raises the counter by exactly one. On any error
/// nothing is changed.
pub fn create_new_campaign(
    marketplace_state: &mut MarketplaceState,
    creator: &Address,
    token_mint: &Address,
    selected_kol: &Address,
    offering_amount: u64,
    promotion_ends_in: i64,
    offer_ends_in: i64,
    now: i64,
    creator_token_account: &mut TokenAccount,
) -> (r: Result<(Campaign, TokenAccount), CustomErrorCode>)
    requires
        old(marketplace_state).spec_is_allowed(token_mint@),
        old(marketplace_state).campaign_counter < u32::MAX,
        old(creator_token_account).owner@ == creator@,
    ensures
        r is Ok <==> offering_amount > 0 && offer_ends_in > now && promotion_ends_in > now
            && old(creator_token_account).amount >= offering_amount,
        match r {
            Ok((campaign, custody)) => {
                &&& campaign.id@ == spec_campaign_id(
                    now,
                    creator@,
                    old(marketplace_state).campaign_counter,
                )
                &&& campaign.counter == old(marketplace_state).campaign_counter
                &&& campaign.created_at == now
                &&& campaign.creator_address@ == creator@
                &&& campaign.token_mint@ == token_mint@
                &&& campaign.selected_kol@ == selected_kol@
                &&& campaign.offer_ends_in == offer_ends_in
                &&& campaign.promotion_ends_in == promotion_ends_in
                &&& campaign.amount_offered == offering_amount
                &&& campaign.campaign_status == CampaignStatus::Open
                &&& custody.owner@ == campaign.spec_authority()
                &&& custody.mint@ == token_mint@
                &&& custody.amount == offering_amount
                &&& final(marketplace_state).campaign_counter == old(
                    marketplace_state,
                ).campaign_counter + 1
                &&& final(marketplace_state).owner@ == old(marketplace_state).owner@
                &&& final(marketplace_state).allowed_tokens == old(
                    marketplace_state,
                ).allowed_tokens
                &&& final(marketplace_state).token_decimals == old(
                    marketplace_state,
                ).token_decimals
                &&& final(creator_token_account).amount == old(creator_token_account).amount
                    - offering_amount
                &&& final(creator_token_account).owner@ == old(creator_token_account).owner@
                &&& final(creator_token_account).mint@ == old(creator_token_account).mint@
            },
            Err(e) => {
                &&& *final(marketplace_state) == *old(marketplace_state)
                &&& *final(creator_token_account) == *old(creator_token_account)
                &&& (e == CustomErrorCode::InvalidAmount <==> offering_amount == 0)
                &&& (e == CustomErrorCode::InvalidTimeParameters <==> offering_amount > 0 && (
                offer_ends_in <= now || promotion_ends_in <= now))
                &&& (e == CustomErrorCode::InsufficientFunds <==> offering_amount > 0
                    && offer_ends_in > now && promotion_ends_in > now && old(
                    creator_token_account,
                ).amount < offering_amount)
            },
        },
{
    if offering_amount == 0 {
        return Err(CustomErrorCode::InvalidAmount);
    }
    if offer_ends_in <= now || promotion_ends_in <= now {
        return Err(CustomErrorCode::InvalidTimeParameters);
    }
    if creator_token_account.amount < offering_amount {
        return Err(CustomErrorCode::InsufficientFunds);
    }

    let counter = marketplace_state.next_counter();
    let id = derive_campaign_id(now, creator, counter);

    let campaign = Campaign {
        id,
        counter,
        created_at: now,
        creator_address: *creator,
        token_mint: *token_mint,
        selected_kol: *selected_kol,
        offer_ends_in,
        promotion_ends_in,
        amount_offered: offering_amount,
        campaign_status: CampaignStatus::Open,
    };

    let mut custody = TokenAccount::new(campaign.authority(), *token_mint, 0);
    match transfer(creator_token_account, &mut custody, offering_amount, creator) {
        Ok(()) => Ok((campaign, custody)),
        Err(_) => unreached(),
    }
}

/// Rewrites an open campaign's promoter, denomination, deadlines and amount.
/// Only the creator may update, only while the campaign is open, and never to
/// the null promoter. The custody balance is not reconciled with the new
/// amount; that gap is the host's to close. On any error nothing is changed.
pub fn update_campaign(
    campaign: &mut Campaign,
    caller: &Address,
    selected_kol: &Address,
    token_mint: &Address,
    promotion_ends_in: i64,
    offer_ends_in: i64,
    new_amount_offered: u64,
) -> (r: Result<(), CustomErrorCode>)
    ensures
        r is Ok <==> selected_kol@ != Address::spec_null() && old(campaign).campaign_status
            == CampaignStatus::Open && old(campaign).creator_address@ == caller@,
        campaign_step_allowed(old(campaign).campaign_status, final(campaign).campaign_status),
        match r {
            Ok(()) => {
                &&& final(campaign).token_mint@ == token_mint@
                &&& final(campaign).selected_kol@ == selected_kol@
                &&& final(campaign).promotion_ends_in == promotion_ends_in
                &&& final(campaign).offer_ends_in == offer_ends_in
                &&& final(campaign).amount_offered == new_amount_offered
                &&& final(campaign).id == old(campaign).id
                &&& final(campaign).counter == old(campaign).counter
                &&& final(campaign).created_at == old(campaign).created_at
                &&& final(campaign).creator_address == old(campaign).creator_address
                &&& final(campaign).campaign_status == CampaignStatus::Open
            },
            Err(e) => {
                &&& *final(campaign) == *old(campaign)
                &&& (e == CustomErrorCode::InvalidKolAddress <==> selected_kol@
                    == Address::spec_null())
                &&& (e == CustomErrorCode::InvalidCampaignStatus <==> selected_kol@
                    != Address::spec_null() && old(campaign).campaign_status
                    != CampaignStatus::Open)
                &&& (e == CustomErrorCode::Unauthorized <==> selected_kol@
                    != Address::spec_null() && old(campaign).campaign_status
                    == CampaignStatus::Open && old(campaign).creator_address@ != caller@)
            },
        },
{
    if *selected_kol == Address::default() {
        return Err(CustomErrorCode::InvalidKolAddress);
    }
    if !(campaign.campaign_status == CampaignStatus::Open) {
        return Err(CustomErrorCode::InvalidCampaignStatus);
    }
    if !(campaign.creator_address == *caller) {
        return Err(CustomErrorCode::Unauthorized);
    }

    campaign.token_mint = *token_mint;
    campaign.selected_kol = *selected_kol;
    campaign.promotion_ends_in = promotion_ends_in;
    campaign.offer_ends_in = offer_ends_in;
    campaign.amount_offered = new_amount_offered;
    Ok(())
}

/// The promoter takes the deal: allowed for the selected promoter alone, only
/// while the campaign is open, and only until the offer deadline — at
/// `offer_ends_in` itself acceptance still succeeds, one second later it is
/// expired. On any error nothing is changed.
pub fn accept_project_campaign(campaign: &mut Campaign, caller: &Address, now: i64) -> (r: Result<
    (),
    CustomErrorCode,
>)
    ensures
        r is Ok <==> now <= old(campaign).offer_ends_in && old(campaign).selected_kol@ == caller@
            && old(campaign).campaign_status == CampaignStatus::Open,
        campaign_step_allowed(old(campaign).campaign_status, final(campaign).campaign_status),
        match r {
            Ok(()) => {
                &&& final(campaign).campaign_status == CampaignStatus::Accepted
                &&& final(campaign).id == old(campaign).id
                &&& final(campaign).counter == old(campaign).counter
                &&& final(campaign).created_at == old(campaign).created_at
                &&& final(campaign).creator_address == old(campaign).creator_address
                &&& final(campaign).token_mint == old(campaign).token_mint
                &&& final(campaign).selected_kol == old(campaign).selected_kol
                &&& final(campaign).offer_ends_in == old(campaign).offer_ends_in
                &&& final(campaign).promotion_ends_in == old(campaign).promotion_ends_in
                &&& final(campaign).amount_offered == old(campaign).amount_offered
            },
            Err(e) => {
                &&& *final(campaign) == *old(campaign)
                &&& (e == CustomErrorCode::CampaignExpired <==> now > old(campaign).offer_ends_in)
                &&& (e == CustomErrorCode::Unauthorized <==> now <= old(campaign).offer_ends_in
                    && old(campaign).selected_kol@ != caller@)
                &&& (e == CustomErrorCode::InvalidCampaignStatus <==> now <= old(
                    campaign,
                ).offer_ends_in && old(campaign).selected_kol@ == caller@ && old(
                    campaign,
                ).campaign_status != CampaignStatus::Open)
            },
        },
{
    if now > campaign.offer_ends_in {
        return Err(CustomErrorCode::CampaignExpired);
    }
    if !(campaign.selected_kol == *caller) {
        return Err(CustomErrorCode::Unauthorized);
    }
    if !(campaign.campaign_status == CampaignStatus::Open) {
        return Err(CustomErrorCode::InvalidCampaignStatus);
    }
    campaign.campaign_status = CampaignStatus::Accepted;
    Ok(())
}

/// Settles an accepted deal: the promoter's and the owner's basis-point
/// shares of the offered amount leave custody for their accounts, truncation
/// dust stays in custody, and the campaign becomes `Fulfilled`. Fails with
/// `InvalidCampaignStatus` off the `Accepted` state, `Unauthorized` when the
/// custody account is not the one the campaign's authority controls, and
/// `InsufficientFunds` when custody cannot cover both shares; on any error
/// nothing is changed.
pub fn fulfil_project_campaign(
    marketplace_state: &MarketplaceState,
    campaign: &mut Campaign,
    campaign_token_account: &mut TokenAccount,
    kol_token_account: &mut TokenAccount,
    owner_token_account: &mut TokenAccount,
) -> (r: Result<(), CustomErrorCode>)
    requires
        old(kol_token_account).owner@ == old(campaign).selected_kol@,
        old(owner_token_account).owner@ == marketplace_state.owner@,
        old(campaign).campaign_status == CampaignStatus::Accepted ==> old(
            campaign,
        ).amount_offered * KOL_SHARE_PERCENTAGE <= u64::MAX,
        old(campaign).campaign_status == CampaignStatus::Accepted && old(
            campaign_token_account,
        ).amount >= spec_kol_amount(old(campaign).amount_offered) + spec_owner_amount(
            old(campaign).amount_offered,
        ) ==> old(kol_token_account).amount + spec_kol_amount(old(campaign).amount_offered)
            <= u64::MAX && old(owner_token_account).amount + spec_owner_amount(
            old(campaign).amount_offered,
        ) <= u64::MAX,
    ensures
        r is Ok <==> old(campaign).campaign_status == CampaignStatus::Accepted && old(
            campaign_token_account,
        ).owner@ == old(campaign).spec_authority() && old(campaign_token_account).amount
            >= spec_kol_amount(old(campaign).amount_offered) + spec_owner_amount(
            old(campaign).amount_offered,
        ),
        campaign_step_allowed(old(campaign).campaign_status, final(campaign).campaign_status),
        match r {
            Ok(()) => {
                &&& final(campaign).campaign_status == CampaignStatus::Fulfilled
                &&& final(campaign).id == old(campaign).id
                &&& final(campaign).counter == old(campaign).counter
                &&& final(campaign).created_at == old(campaign).created_at
                &&& final(campaign).creator_address == old(campaign).creator_address
                &&& final(campaign).token_mint == old(campaign).token_mint
                &&& final(campaign).selected_kol == old(campaign).selected_kol
                &&& final(campaign).offer_ends_in == old(campaign).offer_ends_in
                &&& final(campaign).promotion_ends_in == old(campaign).promotion_ends_in
                &&& final(campaign).amount_offered == old(campaign).amount_offered
                &&& final(kol_token_account).amount == old(kol_token_account).amount
                    + spec_kol_amount(old(campaign).amount_offered)
                &&& final(owner_token_account).amount == old(owner_token_account).amount
                    + spec_owner_amount(old(campaign).amount_offered)
                &&& final(campaign_token_account).amount == old(campaign_token_account).amount - (
                spec_kol_amount(old(campaign).amount_offered) + spec_owner_amount(
                    old(campaign).amount_offered,
                ))
                &&& final(campaign_token_account).owner@ == old(campaign_token_account).owner@
                &&& final(campaign_token_account).mint@ == old(campaign_token_account).mint@
                &&& final(kol_token_account).owner@ == old(kol_token_account).owner@
                &&& final(kol_token_account).mint@ == old(kol_token_account).mint@
                &&& final(owner_token_account).owner@ == old(owner_token_account).owner@
                &&& final(owner_token_account).mint@ == old(owner_token_account).mint@
            },
            Err(e) => {
                &&& *final(campaign) == *old(campaign)
                &&& *final(campaign_token_account) == *old(campaign_token_account)
                &&& *final(kol_token_account) == *old(kol_token_account)
                &&& *final(owner_token_account) == *old(owner_token_account)
                &&& (e == CustomErrorCode::InvalidCampaignStatus <==> old(
                    campaign,
                ).campaign_status != CampaignStatus::Accepted)
                &&& (e == CustomErrorCode::Unauthorized <==> old(campaign).campaign_status
                    == CampaignStatus::Accepted && old(campaign_token_account).owner@ != old(
                    campaign,
                ).spec_authority())
                &&& (e == CustomErrorCode::InsufficientFunds <==> old(campaign).campaign_status
                    == CampaignStatus::Accepted && old(campaign_token_account).owner@ == old(
                    campaign,
                ).spec_authority() && old(campaign_token_account).amount < spec_kol_amount(
                    old(campaign).amount_offered,
                ) + spec_owner_amount(old(campaign).amount_offered))
            },
        },
{
    if !(campaign.campaign_status == CampaignStatus::Accepted) {
        return Err(CustomErrorCode::InvalidCampaignStatus);
    }

    let total_amount = campaign.amount_offered;
    let (kol_amount, owner_amount) = calculate_shares(total_amount);

    let authority = campaign.authority();
    if !(campaign_token_account.owner == authority) {
        return Err(CustomErrorCode::Unauthorized);
    }
    if campaign_token_account.amount < kol_amount + owner_amount {
        return Err(CustomErrorCode::InsufficientFunds);
    }

    campaign.campaign_status = CampaignStatus::Fulfilled;

    match transfer(campaign_token_account, kol_token_account, kol_amount, &authority) {
        Ok(()) => {},
        Err(_) => unreached(),
    }
    match transfer(campaign_token_account, owner_token_account, owner_amount, &authority) {
        Ok(()) => {},
        Err(_) => unreached(),
    }
    Ok(())
}

/// The creator takes the deal back: whatever custody still holds returns to
/// the creator's account and the campaign becomes `Discarded`. With an empty
/// custody account the call is a no-op success — no transfer is made and the
/// status stays put. Only the creator may discard, only while the campaign is
/// still open, and only out of the campaign's own custody account: statuses
/// move forward alone, so a settled or already discarded campaign — even one
/// retaining truncation dust — stays as it is. On any error nothing is
/// changed.
pub fn discard_project_campaign(
    campaign: &mut Campaign,
    campaign_token_account: &mut TokenAccount,
    creator_token_account: &mut TokenAccount,
    caller: &Address,
) -> (r: Result<(), CustomErrorCode>)
    requires
        old(creator_token_account).owner@ == old(campaign).creator_address@,
        old(campaign).creator_address@ == caller@ && old(campaign_token_account).amount > 0 ==> old(
            creator_token_account,
        ).amount + old(campaign_token_account).amount <= u64::MAX,
    ensures
        r is Ok <==> old(campaign).creator_address@ == caller@ && old(campaign).campaign_status
            == CampaignStatus::Open && old(campaign_token_account).owner@ == old(
            campaign,
        ).spec_authority(),
        campaign_step_allowed(old(campaign).campaign_status, final(campaign).campaign_status),
        match r {
            Ok(()) => {
                &&& old(campaign_token_account).amount > 0 ==> {
                    &&& final(campaign).campaign_status == CampaignStatus::Discarded
                    &&& final(campaign_token_account).amount == 0
                    &&& final(creator_token_account).amount == old(creator_token_account).amount
                        + old(campaign_token_account).amount
                    &&& final(creator_token_account).owner@ == old(creator_token_account).owner@
                    &&& final(creator_token_account).mint@ == old(creator_token_account).mint@
                    &&& final(campaign_token_account).owner@ == old(campaign_token_account).owner@
                    &&& final(campaign_token_account).mint@ == old(campaign_token_account).mint@
                }
                &&& old(campaign_token_account).amount == 0 ==> {
                    &&& *final(campaign) == *old(campaign)
                    &&& *final(campaign_token_account) == *old(campaign_token_account)
                    &&& *final(creator_token_account) == *old(creator_token_account)
                }
                &&& final(campaign).id == old(campaign).id
                &&& final(campaign).counter == old(campaign).counter
                &&& final(campaign).created_at == old(campaign).created_at
                &&& final(campaign).creator_address == old(campaign).creator_address
                &&& final(campaign).token_mint == old(campaign).token_mint
                &&& final(campaign).selected_kol == old(campaign).selected_kol
                &&& final(campaign).offer_ends_in == old(campaign).offer_ends_in
                &&& final(campaign).promotion_ends_in == old(campaign).promotion_ends_in
                &&& final(campaign).amount_offered == old(campaign).amount_offered
            },
            Err(e) => {
                &&& *final(campaign) == *old(campaign)
                &&& *final(campaign_token_account) == *old(campaign_token_account)
                &&& *final(creator_token_account) == *old(creator_token_account)
                &&& (e == CustomErrorCode::Unauthorized <==> old(campaign).creator_address@
                    != caller@ || (old(campaign).campaign_status == CampaignStatus::Open && old(
                    campaign_token_account,
                ).owner@ != old(campaign).spec_authority()))
                &&& (e == CustomErrorCode::InvalidCampaignStatus <==> old(
                    campaign,
                ).creator_address@ == caller@ && old(campaign).campaign_status
                    != CampaignStatus::Open)
            },
        },
{
    if !(campaign.creator_address == *caller) {
        return Err(CustomErrorCode::Unauthorized);
    }
    if !(campaign.campaign_status == CampaignStatus::Open) {
        return Err(CustomErrorCode::InvalidCampaignStatus);
    }
    let authority = campaign.authority();
    if !(campaign_token_account.owner == authority) {
        return Err(CustomErrorCode::Unauthorized);
    }

    let campaign_balance = campaign_token_account.amount;
    if campaign_balance > 0 {
        campaign.campaign_status = CampaignStatus::Discarded;
        match transfer(campaign_token_account, creator_token_account, campaign_balance, &authority) {
            Ok(()) => {},
            Err(_) => unreached(),
        }
    }
    Ok(())
}

} // verus!
