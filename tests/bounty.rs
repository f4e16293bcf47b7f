use solmates::address::{bounty_seeds, find_record_address, profile_seeds, Address};
use solmates::errors::SolmatesError;
use solmates::instructions::cancel_bounty::CancelBounty;
use solmates::instructions::create_bounty::CreateBounty;
use solmates::instructions::create_profile::CreateProfile;
use solmates::instructions::payout_referral::PayoutReferral;
use solmates::instructions::update_bounty::UpdateBounty;
use solmates::instructions::update_profile::UpdateProfile;
use solmates::solmates::{
    cancel_bounty, create_bounty, create_profile, payout_referral, update_bounty, update_profile,
};
use solmates::states::bounty_vault::{BountyStatus, BountyVault};
use solmates::states::user_profile::UserProfile;
use solmates::transfer::{Endpoint, Transfer};
use solmates::ProgramConfig;

fn key(n: u8) -> Address {
    Address::new([n; 32])
}

fn config() -> ProgramConfig {
    ProgramConfig { program_id: key(200), treasury: key(250) }
}

const ISSUER: u8 = 1;
const MINT: u8 = 3;
const MATCHMAKER: u8 = 5;

fn new_bounty(reward: u64) -> (Address, BountyVault) {
    let (bounty_address, _) =
        find_record_address(&bounty_seeds(&key(ISSUER)), &config().program_id).unwrap();
    let mut ctx = CreateBounty {
        issuer: key(ISSUER),
        mint: key(MINT),
        bounty_address,
        bounty: BountyVault {
            issuer: key(0),
            mint: key(0),
            reward_amount: 0,
            status: BountyStatus::Open,
            bump: 0,
        },
    };
    let o = create_bounty(&config(), &mut ctx, reward).unwrap();
    assert_eq!(o.transfers.len(), 1);
    assert!(matches!(o.transfers[0].to, Endpoint::Vault));
    assert_eq!(o.transfers[0].amount, reward);
    (bounty_address, ctx.bounty)
}

fn update(addr: Address, b: BountyVault, amount: u64) -> Result<(BountyVault, Vec<Transfer>), SolmatesError> {
    let mut ctx = UpdateBounty { issuer: key(ISSUER), mint: key(MINT), bounty_address: addr, bounty: b };
    update_bounty(&config(), &mut ctx, amount).map(|o| (ctx.bounty, o.transfers))
}

fn payout_ctx(addr: Address, b: BountyVault) -> PayoutReferral {
    PayoutReferral {
        issuer: key(ISSUER),
        matchmaker: key(MATCHMAKER),
        mint: key(MINT),
        bounty_address: addr,
        bounty: b,
        treasury: key(250),
    }
}

fn cancel_ctx(addr: Address, b: BountyVault) -> CancelBounty {
    CancelBounty { issuer: key(ISSUER), mint: key(MINT), bounty_address: addr, bounty: b }
}

#[test]
fn bounty_update_then_payout_scenario() {
    let (addr, b) = new_bounty(1000);
    assert_eq!(b.reward_amount, 1000);
    assert_eq!(b.status, BountyStatus::Open);

    let (b, t) = update(addr, b, 1500).unwrap();
    assert_eq!(b.reward_amount, 1500);
    assert_eq!(t.len(), 1);
    assert!(matches!(t[0].from, Endpoint::Wallet(w) if w == key(ISSUER)));
    assert!(matches!(t[0].to, Endpoint::Vault));
    assert_eq!(t[0].amount, 500);

    let (b, t) = update(addr, b, 800).unwrap();
    assert_eq!(b.reward_amount, 800);
    assert_eq!(t.len(), 1);
    assert!(matches!(t[0].from, Endpoint::Vault));
    assert!(matches!(t[0].to, Endpoint::Wallet(w) if w == key(ISSUER)));
    assert_eq!(t[0].amount, 700);

    let mut ctx = payout_ctx(addr, b);
    let o = payout_referral(&config(), &mut ctx).unwrap();
    assert_eq!(ctx.bounty.status, BountyStatus::Filled);
    assert_eq!(o.transfers.len(), 2);
    assert!(matches!(o.transfers[0].to, Endpoint::Wallet(w) if w == key(MATCHMAKER)));
    assert_eq!(o.transfers[0].amount, 792);
    assert!(matches!(o.transfers[1].to, Endpoint::Wallet(w) if w == key(250)));
    assert_eq!(o.transfers[1].amount, 8);
    assert_eq!(o.transfers[0].amount + o.transfers[1].amount, 800);
    assert_eq!(o.event.amount, 800);
    assert_eq!(o.event.fee, 8);
    assert!(o.close_to.unwrap() == key(ISSUER));
}

#[test]
fn update_to_same_amount_moves_nothing() {
    let (addr, b) = new_bounty(1000);
    let (b, t) = update(addr, b, 1000).unwrap();
    assert!(t.is_empty());
    assert_eq!(b.reward_amount, 1000);
}

#[test]
fn closed_bounty_refuses_everything() {
    let (addr, b) = new_bounty(1000);
    let mut ctx = cancel_ctx(addr, b);
    let o = cancel_bounty(&config(), &mut ctx).unwrap();
    assert_eq!(o.transfers.len(), 1);
    assert!(matches!(o.transfers[0].to, Endpoint::Wallet(w) if w == key(ISSUER)));
    assert_eq!(o.transfers[0].amount, 1000);
    let closed = ctx.bounty;
    assert_eq!(closed.status, BountyStatus::Cancelled);
    assert_eq!(update(addr, closed, 5).unwrap_err(), SolmatesError::BountyNotOpen);
    assert_eq!(
        payout_referral(&config(), &mut payout_ctx(addr, closed)).unwrap_err(),
        SolmatesError::BountyNotOpen
    );
    assert_eq!(
        cancel_bounty(&config(), &mut cancel_ctx(addr, closed)).unwrap_err(),
        SolmatesError::BountyNotOpen
    );
}

#[test]
fn payout_with_wrong_treasury_is_refused() {
    let (addr, b) = new_bounty(1000);
    let mut ctx = payout_ctx(addr, b);
    ctx.treasury = key(ISSUER);
    assert_eq!(payout_referral(&config(), &mut ctx).unwrap_err(), SolmatesError::InvalidTreasury);
    assert_eq!(ctx.bounty.status, BountyStatus::Open);
}

#[test]
fn bounty_of_another_issuer_is_refused() {
    let (addr, b) = new_bounty(1000);
    let mut ctx = cancel_ctx(addr, b);
    ctx.issuer = key(9);
    assert_eq!(
        cancel_bounty(&config(), &mut ctx).unwrap_err(),
        SolmatesError::InvalidRecordAddress
    );
    let mut ctx = cancel_ctx(addr, b);
    ctx.mint = key(9);
    assert_eq!(cancel_bounty(&config(), &mut ctx).unwrap_err(), SolmatesError::AccountMismatch);
}

#[test]
fn profile_create_and_update() {
    let (profile_address, _) =
        find_record_address(&profile_seeds(&key(7)), &config().program_id).unwrap();
    let blank = UserProfile {
        authority: key(0),
        dm_price: 0,
        asset_gate_mint: None,
        min_asset_amount: 0,
        auction_count: 9,
        bump: 0,
    };
    let mut ctx = CreateProfile { authority: key(7), profile_address, profile: blank };
    let ev = create_profile(&config(), &mut ctx, 100, Some(key(4)), 10).unwrap();
    assert_eq!(ev.dm_price, 100);
    assert_eq!(ctx.profile.auction_count, 0);
    assert_eq!(ctx.profile.dm_price, 100);
    assert!(ctx.profile.asset_gate_mint.unwrap() == key(4));

    let mut up = UpdateProfile { authority: key(7), profile_address, profile: ctx.profile };
    let ev = update_profile(&config(), &mut up, Some(250), Some(None), None).unwrap();
    assert_eq!(ev.dm_price, 250);
    assert_eq!(up.profile.dm_price, 250);
    assert!(up.profile.asset_gate_mint.is_none());
    assert_eq!(up.profile.min_asset_amount, 10);

    let mut other = UpdateProfile { authority: key(8), profile_address, profile: ctx.profile };
    assert_eq!(
        update_profile(&config(), &mut other, Some(1), None, None).unwrap_err(),
        SolmatesError::InvalidRecordAddress
    );

    let mut foreign = up;
    foreign.profile.authority = key(8);
    assert_eq!(
        update_profile(&config(), &mut foreign, Some(1), None, None).unwrap_err(),
        SolmatesError::AccountMismatch
    );

    let mut wrong = CreateProfile { authority: key(7), profile_address: key(1), profile: blank };
    assert_eq!(
        create_profile(&config(), &mut wrong, 1, None, 0).unwrap_err(),
        SolmatesError::InvalidRecordAddress
    );
}
