use sol_cb::address::Address;
use sol_cb::campaign::accept_project_campaign;
use sol_cb::campaign::create_new_campaign;
use sol_cb::campaign::discard_project_campaign;
use sol_cb::campaign::fulfil_project_campaign;
use sol_cb::campaign::update_campaign;
use sol_cb::campaign::Campaign;
use sol_cb::campaign::CampaignStatus;
use sol_cb::custody::TokenAccount;
use sol_cb::errors::CustomErrorCode;
use sol_cb::registry::initialize;
use sol_cb::registry::MarketplaceState;

fn addr(b: u8) -> Address {
    Address::new([b; 32])
}

fn creator() -> Address {
    addr(1)
}

fn kol() -> Address {
    addr(2)
}

fn operator() -> Address {
    addr(3)
}

fn mint() -> Address {
    addr(4)
}

fn fresh_state() -> MarketplaceState {
    initialize(&operator(), vec![mint()], vec![6]).unwrap()
}

/// Creates a funded campaign: offer ends at 100, promotion at 200, now = 10.
fn fresh_campaign(amount: u64) -> (MarketplaceState, Campaign, TokenAccount) {
    let mut state = fresh_state();
    let mut funder = TokenAccount::new(creator(), mint(), amount);
    let (campaign, custody) = create_new_campaign(
        &mut state,
        &creator(),
        &mint(),
        &kol(),
        amount,
        200,
        100,
        10,
        &mut funder,
    )
    .unwrap();
    (state, campaign, custody)
}

#[test]
fn create_funds_custody_and_bumps_counter() {
    let mut state = fresh_state();
    assert_eq!(state.campaign_counter, 0);
    let mut funder = TokenAccount::new(creator(), mint(), 1_500);
    let (campaign, custody) = create_new_campaign(
        &mut state,
        &creator(),
        &mint(),
        &kol(),
        1_000,
        200,
        100,
        10,
        &mut funder,
    )
    .unwrap();
    assert_eq!(custody.amount, campaign.amount_offered);
    assert_eq!(custody.amount, 1_000);
    assert_eq!(funder.amount, 500);
    assert_eq!(state.campaign_counter, 1);
    assert_eq!(campaign.counter, 0);
    assert_eq!(campaign.created_at, 10);
    assert!(campaign.campaign_status == CampaignStatus::Open);
    assert!(custody.owner == campaign.authority());
}

#[test]
fn create_rejects_zero_amount() {
    let mut state = fresh_state();
    let mut funder = TokenAccount::new(creator(), mint(), 1_000);
    let r = create_new_campaign(
        &mut state,
        &creator(),
        &mint(),
        &kol(),
        0,
        200,
        100,
        10,
        &mut funder,
    );
    assert_eq!(r.unwrap_err(), CustomErrorCode::InvalidAmount);
    assert_eq!(state.campaign_counter, 0);
    assert_eq!(funder.amount, 1_000);
}

#[test]
fn create_rejects_past_deadlines() {
    let mut state = fresh_state();
    let mut funder = TokenAccount::new(creator(), mint(), 1_000);
    let r = create_new_campaign(
        &mut state,
        &creator(),
        &mint(),
        &kol(),
        1_000,
        200,
        10,
        10,
        &mut funder,
    );
    assert_eq!(r.unwrap_err(), CustomErrorCode::InvalidTimeParameters);
    let r = create_new_campaign(
        &mut state,
        &creator(),
        &mint(),
        &kol(),
        1_000,
        9,
        100,
        10,
        &mut funder,
    );
    assert_eq!(r.unwrap_err(), CustomErrorCode::InvalidTimeParameters);
}

#[test]
fn create_rejects_poor_funder() {
    let mut state = fresh_state();
    let mut funder = TokenAccount::new(creator(), mint(), 999);
    let r = create_new_campaign(
        &mut state,
        &creator(),
        &mint(),
        &kol(),
        1_000,
        200,
        100,
        10,
        &mut funder,
    );
    assert_eq!(r.unwrap_err(), CustomErrorCode::InsufficientFunds);
    assert_eq!(funder.amount, 999);
    assert_eq!(state.campaign_counter, 0);
}

#[test]
fn accept_succeeds_at_deadline() {
    let (_state, mut campaign, _custody) = fresh_campaign(1_000);
    let r = accept_project_campaign(&mut campaign, &kol(), 100);
    assert!(r.is_ok());
    assert!(campaign.campaign_status == CampaignStatus::Accepted);
}

#[test]
fn accept_expires_one_second_past_deadline() {
    let (_state, mut campaign, _custody) = fresh_campaign(1_000);
    let r = accept_project_campaign(&mut campaign, &kol(), 101);
    assert_eq!(r.unwrap_err(), CustomErrorCode::CampaignExpired);
    assert!(campaign.campaign_status == CampaignStatus::Open);
}

#[test]
fn accept_rejects_other_caller() {
    let (_state, mut campaign, _custody) = fresh_campaign(1_000);
    let r = accept_project_campaign(&mut campaign, &addr(9), 50);
    assert_eq!(r.unwrap_err(), CustomErrorCode::Unauthorized);
}

#[test]
fn accept_rejects_accepted_campaign() {
    let (_state, mut campaign, _custody) = fresh_campaign(1_000);
    accept_project_campaign(&mut campaign, &kol(), 50).unwrap();
    let r = accept_project_campaign(&mut campaign, &kol(), 50);
    assert_eq!(r.unwrap_err(), CustomErrorCode::InvalidCampaignStatus);
    assert!(campaign.campaign_status == CampaignStatus::Accepted);
}

#[test]
fn update_rewrites_open_campaign() {
    let (_state, mut campaign, _custody) = fresh_campaign(1_000);
    let new_kol = addr(7);
    let r = update_campaign(&mut campaign, &creator(), &new_kol, &mint(), 300, 150, 2_000);
    assert!(r.is_ok());
    assert!(campaign.selected_kol == new_kol);
    assert_eq!(campaign.promotion_ends_in, 300);
    assert_eq!(campaign.offer_ends_in, 150);
    assert_eq!(campaign.amount_offered, 2_000);
    assert!(campaign.campaign_status == CampaignStatus::Open);
}

#[test]
fn update_rejects_foreign_caller_even_while_open() {
    let (_state, mut campaign, _custody) = fresh_campaign(1_000);
    let r = update_campaign(&mut campaign, &addr(9), &kol(), &mint(), 300, 150, 2_000);
    assert_eq!(r.unwrap_err(), CustomErrorCode::Unauthorized);
    assert_eq!(campaign.amount_offered, 1_000);
}

#[test]
fn update_rejects_closed_campaign_even_for_creator() {
    let (_state, mut campaign, _custody) = fresh_campaign(1_000);
    accept_project_campaign(&mut campaign, &kol(), 50).unwrap();
    let r = update_campaign(&mut campaign, &creator(), &kol(), &mint(), 300, 150, 2_000);
    assert_eq!(r.unwrap_err(), CustomErrorCode::InvalidCampaignStatus);
    assert_eq!(campaign.amount_offered, 1_000);
}

#[test]
fn update_rejects_null_promoter() {
    let (_state, mut campaign, _custody) = fresh_campaign(1_000);
    let r = update_campaign(
        &mut campaign,
        &creator(),
        &Address::null(),
        &mint(),
        300,
        150,
        2_000,
    );
    assert_eq!(r.unwrap_err(), CustomErrorCode::InvalidKolAddress);
}

#[test]
fn fulfil_splits_thousand_with_no_dust() {
    let (state, mut campaign, mut custody) = fresh_campaign(1_000);
    accept_project_campaign(&mut campaign, &kol(), 50).unwrap();
    let mut kol_account = TokenAccount::new(kol(), mint(), 0);
    let mut owner_account = TokenAccount::new(operator(), mint(), 0);
    fulfil_project_campaign(
        &state,
        &mut campaign,
        &mut custody,
        &mut kol_account,
        &mut owner_account,
    )
    .unwrap();
    assert_eq!(kol_account.amount, 900);
    assert_eq!(owner_account.amount, 100);
    assert_eq!(custody.amount, 0);
    assert!(campaign.campaign_status == CampaignStatus::Fulfilled);
}

#[test]
fn fulfil_truncates_shares_and_leaves_dust() {
    let (state, mut campaign, mut custody) = fresh_campaign(999_999);
    accept_project_campaign(&mut campaign, &kol(), 50).unwrap();
    let mut kol_account = TokenAccount::new(kol(), mint(), 0);
    let mut owner_account = TokenAccount::new(operator(), mint(), 0);
    fulfil_project_campaign(
        &state,
        &mut campaign,
        &mut custody,
        &mut kol_account,
        &mut owner_account,
    )
    .unwrap();
    assert_eq!(kol_account.amount, 999_999 * 9_000 / 10_000);
    assert_eq!(kol_account.amount, 899_999);
    assert_eq!(owner_account.amount, 999_999 * 1_000 / 10_000);
    assert_eq!(owner_account.amount, 99_999);
    assert_eq!(custody.amount, 1);
}

#[test]
fn fulfil_rejects_open_campaign() {
    let (state, mut campaign, mut custody) = fresh_campaign(1_000);
    let mut kol_account = TokenAccount::new(kol(), mint(), 0);
    let mut owner_account = TokenAccount::new(operator(), mint(), 0);
    let r = fulfil_project_campaign(
        &state,
        &mut campaign,
        &mut custody,
        &mut kol_account,
        &mut owner_account,
    );
    assert_eq!(r.unwrap_err(), CustomErrorCode::InvalidCampaignStatus);
    assert!(campaign.campaign_status == CampaignStatus::Open);
    assert_eq!(custody.amount, 1_000);
}

#[test]
fn fulfil_rejects_drained_custody() {
    let (state, mut campaign, mut custody) = fresh_campaign(1_000);
    accept_project_campaign(&mut campaign, &kol(), 50).unwrap();
    custody.amount = 999;
    let mut kol_account = TokenAccount::new(kol(), mint(), 0);
    let mut owner_account = TokenAccount::new(operator(), mint(), 0);
    let r = fulfil_project_campaign(
        &state,
        &mut campaign,
        &mut custody,
        &mut kol_account,
        &mut owner_account,
    );
    assert_eq!(r.unwrap_err(), CustomErrorCode::InsufficientFunds);
    assert!(campaign.campaign_status == CampaignStatus::Accepted);
    assert_eq!(custody.amount, 999);
}

#[test]
fn fulfil_rejects_foreign_custody_account() {
    let (state, mut campaign, _custody) = fresh_campaign(1_000);
    accept_project_campaign(&mut campaign, &kol(), 50).unwrap();
    let mut stray = TokenAccount::new(addr(8), mint(), 5_000);
    let mut kol_account = TokenAccount::new(kol(), mint(), 0);
    let mut owner_account = TokenAccount::new(operator(), mint(), 0);
    let r = fulfil_project_campaign(
        &state,
        &mut campaign,
        &mut stray,
        &mut kol_account,
        &mut owner_account,
    );
    assert_eq!(r.unwrap_err(), CustomErrorCode::Unauthorized);
    assert_eq!(stray.amount, 5_000);
}

#[test]
fn discard_refunds_full_custody_balance() {
    let (_state, mut campaign, mut custody) = fresh_campaign(1_000);
    let mut creator_account = TokenAccount::new(creator(), mint(), 20);
    discard_project_campaign(&mut campaign, &mut custody, &mut creator_account, &creator())
        .unwrap();
    assert_eq!(custody.amount, 0);
    assert_eq!(creator_account.amount, 1_020);
    assert!(campaign.campaign_status == CampaignStatus::Discarded);
}

#[test]
fn discard_of_empty_custody_is_noop_success() {
    let (_state, mut campaign, mut custody) = fresh_campaign(1_000);
    custody.amount = 0;
    let mut creator_account = TokenAccount::new(creator(), mint(), 20);
    let r = discard_project_campaign(&mut campaign, &mut custody, &mut creator_account, &creator());
    assert!(r.is_ok());
    assert_eq!(custody.amount, 0);
    assert_eq!(creator_account.amount, 20);
    assert!(campaign.campaign_status == CampaignStatus::Open);
}

#[test]
fn discard_rejects_accepted_campaign() {
    let (_state, mut campaign, mut custody) = fresh_campaign(1_000);
    accept_project_campaign(&mut campaign, &kol(), 50).unwrap();
    let mut creator_account = TokenAccount::new(creator(), mint(), 0);
    let r = discard_project_campaign(&mut campaign, &mut custody, &mut creator_account, &creator());
    assert_eq!(r.unwrap_err(), CustomErrorCode::InvalidCampaignStatus);
    assert!(campaign.campaign_status == CampaignStatus::Accepted);
    assert_eq!(custody.amount, 1_000);
    assert_eq!(creator_account.amount, 0);
}

#[test]
fn discard_cannot_claw_back_dust_from_settled_campaign() {
    let (state, mut campaign, mut custody) = fresh_campaign(999_999);
    accept_project_campaign(&mut campaign, &kol(), 50).unwrap();
    let mut kol_account = TokenAccount::new(kol(), mint(), 0);
    let mut owner_account = TokenAccount::new(operator(), mint(), 0);
    fulfil_project_campaign(
        &state,
        &mut campaign,
        &mut custody,
        &mut kol_account,
        &mut owner_account,
    )
    .unwrap();
    assert_eq!(custody.amount, 1);
    let mut creator_account = TokenAccount::new(creator(), mint(), 0);
    let r = discard_project_campaign(&mut campaign, &mut custody, &mut creator_account, &creator());
    assert_eq!(r.unwrap_err(), CustomErrorCode::InvalidCampaignStatus);
    assert!(campaign.campaign_status == CampaignStatus::Fulfilled);
    assert_eq!(custody.amount, 1);
    assert_eq!(creator_account.amount, 0);
}

#[test]
fn discard_rejects_foreign_caller() {
    let (_state, mut campaign, mut custody) = fresh_campaign(1_000);
    let mut creator_account = TokenAccount::new(creator(), mint(), 0);
    let r = discard_project_campaign(&mut campaign, &mut custody, &mut creator_account, &addr(9));
    assert_eq!(r.unwrap_err(), CustomErrorCode::Unauthorized);
    assert_eq!(custody.amount, 1_000);
    assert!(campaign.campaign_status == CampaignStatus::Open);
}
