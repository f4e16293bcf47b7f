//! The program's entry points: each checks the accounts it is given, then
//! runs the operation. Where a check fails nothing changes.

use vstd::prelude::*;
use crate::address::{
    is_canonical_bump, spec_auction_seeds, spec_bounty_seeds, spec_escrow_seeds,
    spec_profile_seeds, Address,
};
use crate::errors::SolmatesError;
use crate::events::{
    AuctionCancelled, AuctionClaimed, AuctionCreated, BidPlaced, BountyCancelled, BountyCreated,
    BountyPaid, BountyUpdated, EscrowAccepted, EscrowCreated, EscrowRefunded, ProfileCreated,
    ProfileUpdated,
};
use crate::instructions::accept_dm::{self, accept_dm_post, AcceptDm};
use crate::instructions::cancel_auction::{self, cancel_auction_post, CancelAuction};
use crate::instructions::cancel_bounty::{self, cancel_bounty_post, CancelBounty};
use crate::instructions::claim_auction::{self, claim_auction_post, ClaimAuction};
use crate::instructions::create_auction::{self, create_auction_post, CreateAuction};
use crate::instructions::create_bounty::{self, CreateBounty};
use crate::instructions::create_profile::{self, CreateProfile};
use crate::instructions::decline_dm::{self, decline_dm_post, DeclineDm};
use crate::instructions::deposit_for_dm::{self, deposit_for_dm_post, DepositForDm};
use crate::instructions::payout_referral::{self, payout_referral_post, PayoutReferral};
use crate::instructions::place_bid::{self, place_bid_post, PlaceBid};
use crate::instructions::refund_dm::{self, refund_dm_post, RefundDm};
use crate::instructions::update_bounty::{self, update_bounty_post, UpdateBounty};
use crate::instructions::update_profile::{self, UpdateProfile};
use crate::states::bounty_vault::{BountyStatus, BountyVault};
use crate::states::message_escrow::{escrow_step, EscrowAction, MessageEscrow};
use crate::states::user_profile::UserProfile;
use crate::transfer::{into_vault, vault_delta, Outcome};
use crate::ProgramConfig;

verus! {

pub fn create_profile(
    config: &ProgramConfig,
    ctx: &mut CreateProfile,
    dm_price: u64,
    asset_gate_mint: Option<Address>,
    min_asset_amount: u64,
) -> (r: Result<ProfileCreated, SolmatesError>)
    ensures
        !old(ctx).accounts_valid(config.program_id@) ==> r == Err::<ProfileCreated, SolmatesError>(
            SolmatesError::InvalidRecordAddress,
        ) && *final(ctx) == *old(ctx),
        old(ctx).accounts_valid(config.program_id@) ==> {
            &&& is_canonical_bump(
                spec_profile_seeds(old(ctx).authority@),
                config.program_id@,
                final(ctx).profile.bump,
            )
            &&& *final(ctx) == (CreateProfile {
                profile: UserProfile {
                    authority: old(ctx).authority,
                    dm_price,
                    asset_gate_mint,
                    min_asset_amount,
                    auction_count: 0,
                    bump: final(ctx).profile.bump,
                },
                ..*old(ctx)
            })
            &&& r == Ok::<ProfileCreated, SolmatesError>(
                ProfileCreated { authority: old(ctx).authority, dm_price },
            )
        },
{
    let bump = match ctx.check(&config.program_id) {
        Ok(b) => b,
        Err(e) => return Err(e),
    };
    Ok(create_profile::handler(ctx, bump, dm_price, asset_gate_mint, min_asset_amount))
}

pub fn update_profile(
    config: &ProgramConfig,
    ctx: &mut UpdateProfile,
    dm_price: Option<u64>,
    asset_gate_mint: Option<Option<Address>>,
    min_asset_amount: Option<u64>,
) -> (r: Result<ProfileUpdated, SolmatesError>)
    ensures
        old(ctx).check_result(config.program_id@) matches Err(e) ==> r == Err::<
            ProfileUpdated,
            SolmatesError,
        >(e) && *final(ctx) == *old(ctx),
        old(ctx).check_result(config.program_id@) is Ok ==> r == Ok::<
            ProfileUpdated,
            SolmatesError,
        >(
            ProfileUpdated {
                authority: old(ctx).profile.authority,
                dm_price: final(ctx).profile.dm_price,
            },
        )
            && *final(ctx) == (UpdateProfile {
            profile: UserProfile {
                dm_price: update_profile::updated(old(ctx).profile.dm_price, dm_price),
                asset_gate_mint: update_profile::updated(
                    old(ctx).profile.asset_gate_mint,
                    asset_gate_mint,
                ),
                min_asset_amount: update_profile::updated(
                    old(ctx).profile.min_asset_amount,
                    min_asset_amount,
                ),
                ..old(ctx).profile
            },
            ..*old(ctx)
        }),
{
    match ctx.check(&config.program_id) {
        Ok(_) => {},
        Err(e) => return Err(e),
    }
    Ok(update_profile::handler(ctx, dm_price, asset_gate_mint, min_asset_amount))
}

pub fn deposit_for_dm(
    config: &ProgramConfig,
    ctx: &mut DepositForDm,
    amount: u64,
    now: i64,
) -> (r: Result<Outcome<EscrowCreated>, SolmatesError>)
    ensures
        !old(ctx).accounts_valid(config.program_id@) ==> (r matches Err(e) && e
            == SolmatesError::InvalidRecordAddress && *final(ctx) == *old(ctx)),
        old(ctx).accounts_valid(config.program_id@) ==> exists|b: u8|
            is_canonical_bump(
                spec_escrow_seeds(old(ctx).sender@, old(ctx).recipient@),
                config.program_id@,
                b,
            ) && deposit_for_dm_post(*old(ctx), *final(ctx), b, amount, now, r),
        r matches Ok(o) ==> vault_delta(o.transfers@) == final(ctx).escrow.owed(),
{
    let bump = match ctx.check(&config.program_id) {
        Ok(b) => b,
        Err(e) => return Err(e),
    };
    deposit_for_dm::handler(ctx, bump, amount, now)
}

pub fn accept_dm(config: &ProgramConfig, ctx: &mut AcceptDm) -> (r: Result<
    Outcome<EscrowAccepted>,
    SolmatesError,
>)
    ensures
        old(ctx).check_result(*config) matches Err(e) ==> r matches Err(e2) && e2 == e
            && *final(ctx) == *old(ctx),
        old(ctx).check_result(*config) is Ok ==> accept_dm_post(*old(ctx), *final(ctx), r),
        r matches Ok(o) ==> old(ctx).escrow.owed() + vault_delta(o.transfers@)
            == final(ctx).escrow.owed(),
        old(ctx).check_result(*config) is Ok ==> (
        forall|t: i64|
            #[trigger] escrow_step(old(ctx).escrow, EscrowAction::Accept, t) == match r {
                Ok(_) => Ok::<MessageEscrow, SolmatesError>(final(ctx).escrow),
                Err(e) => Err(e),
            }),
{
    match ctx.check(config) {
        Ok(_) => {},
        Err(e) => return Err(e),
    }
    accept_dm::handler(ctx)
}

pub fn decline_dm(config: &ProgramConfig, ctx: &mut DeclineDm) -> (r: Result<
    Outcome<EscrowRefunded>,
    SolmatesError,
>)
    ensures
        old(ctx).check_result(config.program_id@) matches Err(e) ==> r matches Err(e2) && e2
            == e && *final(ctx) == *old(ctx),
        old(ctx).check_result(config.program_id@) is Ok ==> decline_dm_post(
            *old(ctx),
            *final(ctx),
            r,
        ),
        r matches Ok(o) ==> old(ctx).escrow.owed() + vault_delta(o.transfers@)
            == final(ctx).escrow.owed(),
        old(ctx).check_result(config.program_id@) is Ok ==> (
        forall|t: i64|
            #[trigger] escrow_step(old(ctx).escrow, EscrowAction::Decline, t) == match r {
                Ok(_) => Ok::<MessageEscrow, SolmatesError>(final(ctx).escrow),
                Err(e) => Err(e),
            }),
{
    match ctx.check(&config.program_id) {
        Ok(_) => {},
        Err(e) => return Err(e),
    }
    decline_dm::handler(ctx)
}

pub fn refund_dm(config: &ProgramConfig, ctx: &mut RefundDm, now: i64) -> (r: Result<
    Outcome<EscrowRefunded>,
    SolmatesError,
>)
    ensures
        old(ctx).check_result(config.program_id@) matches Err(e) ==> r matches Err(e2) && e2
            == e && *final(ctx) == *old(ctx),
        old(ctx).check_result(config.program_id@) is Ok ==> refund_dm_post(
            *old(ctx),
            *final(ctx),
            now,
            r,
        ),
        r matches Ok(o) ==> old(ctx).escrow.owed() + vault_delta(o.transfers@)
            == final(ctx).escrow.owed(),
        old(ctx).check_result(config.program_id@) is Ok ==> (
        escrow_step(old(ctx).escrow, EscrowAction::Refund, now) == match r {
            Ok(_) => Ok::<MessageEscrow, SolmatesError>(final(ctx).escrow),
            Err(e) => Err(e),
        }),
{
    match ctx.check(&config.program_id) {
        Ok(_) => {},
        Err(e) => return Err(e),
    }
    refund_dm::handler(ctx, now)
}

pub fn create_auction(
    config: &ProgramConfig,
    ctx: &mut CreateAuction,
    start_price: u64,
    duration_secs: i64,
    now: i64,
) -> (r: Result<Outcome<AuctionCreated>, SolmatesError>)
    ensures
        !old(ctx).accounts_valid(config.program_id@) ==> (r matches Err(e)
            && e == old(ctx).check_error(config.program_id@) && *final(ctx) == *old(ctx)),
        old(ctx).accounts_valid(config.program_id@) ==> exists|b: u8|
            is_canonical_bump(
                spec_auction_seeds(old(ctx).host@, old(ctx).host_profile.auction_count),
                config.program_id@,
                b,
            ) && create_auction_post(*old(ctx), *final(ctx), b, start_price, duration_secs, now, r),
        r matches Ok(o) ==> vault_delta(o.transfers@) == 0 && final(ctx).auction.owed() == 0,
{
    let bump = match ctx.check(&config.program_id) {
        Ok(b) => b,
        Err(e) => return Err(e),
    };
    create_auction::handler(ctx, bump, start_price, duration_secs, now)
}

pub fn place_bid(config: &ProgramConfig, ctx: &mut PlaceBid, bid_amount: u64, now: i64) -> (r:
    Result<Outcome<BidPlaced>, SolmatesError>)
    requires
        old(ctx).auction.wf(),
    ensures
        old(ctx).check_result(config.program_id@) matches Err(e) ==> r matches Err(e2) && e2
            == e && *final(ctx) == *old(ctx),
        old(ctx).check_result(config.program_id@) is Ok ==> place_bid_post(
            *old(ctx),
            *final(ctx),
            bid_amount,
            now,
            r,
        ),
        final(ctx).auction.wf(),
        r matches Ok(o) ==> old(ctx).auction.owed() + vault_delta(o.transfers@)
            == final(ctx).auction.owed(),
{
    match ctx.check(&config.program_id) {
        Ok(_) => {},
        Err(e) => return Err(e),
    }
    place_bid::handler(ctx, bid_amount, now)
}

pub fn claim_auction(config: &ProgramConfig, ctx: &mut ClaimAuction, now: i64) -> (r: Result<
    Outcome<AuctionClaimed>,
    SolmatesError,
>)
    ensures
        old(ctx).check_result(*config) matches Err(e) ==> r matches Err(e2) && e2 == e
            && *final(ctx) == *old(ctx),
        old(ctx).check_result(*config) is Ok ==> claim_auction_post(
            *old(ctx),
            *final(ctx),
            now,
            r,
        ),
        r matches Ok(o) ==> old(ctx).auction.owed() + vault_delta(o.transfers@) == 0,
{
    match ctx.check(config) {
        Ok(_) => {},
        Err(e) => return Err(e),
    }
    claim_auction::handler(ctx, now)
}

pub fn cancel_auction(config: &ProgramConfig, ctx: &mut CancelAuction) -> (r: Result<
    Outcome<AuctionCancelled>,
    SolmatesError,
>)
    ensures
        old(ctx).check_result(config.program_id@) matches Err(e) ==> r matches Err(e2) && e2
            == e && *final(ctx) == *old(ctx),
        old(ctx).check_result(config.program_id@) is Ok ==> cancel_auction_post(
            *old(ctx),
            *final(ctx),
            r,
        ),
        r matches Ok(o) ==> old(ctx).auction.owed() + vault_delta(o.transfers@) == 0,
{
    match ctx.check(&config.program_id) {
        Ok(_) => {},
        Err(e) => return Err(e),
    }
    cancel_auction::handler(ctx)
}

pub fn create_bounty(config: &ProgramConfig, ctx: &mut CreateBounty, reward_amount: u64) -> (r:
    Result<Outcome<BountyCreated>, SolmatesError>)
    ensures
        !old(ctx).accounts_valid(config.program_id@) ==> (r matches Err(e) && e
            == SolmatesError::InvalidRecordAddress && *final(ctx) == *old(ctx)),
        old(ctx).accounts_valid(config.program_id@) ==> (r matches Ok(o) && {
            &&& is_canonical_bump(
                spec_bounty_seeds(old(ctx).issuer@),
                config.program_id@,
                final(ctx).bounty.bump,
            )
            &&& *final(ctx) == (CreateBounty {
                bounty: BountyVault {
                    issuer: old(ctx).issuer,
                    mint: old(ctx).mint,
                    reward_amount,
                    status: BountyStatus::Open,
                    bump: final(ctx).bounty.bump,
                },
                ..*old(ctx)
            })
            &&& o.transfers@ == seq![into_vault(old(ctx).issuer, reward_amount)]
            &&& o.event == (BountyCreated { issuer: old(ctx).issuer, reward_amount })
            &&& o.close_to is None
        }),
        r matches Ok(o) ==> vault_delta(o.transfers@) == final(ctx).bounty.owed(),
{
    let bump = match ctx.check(&config.program_id) {
        Ok(b) => b,
        Err(e) => return Err(e),
    };
    Ok(create_bounty::handler(ctx, bump, reward_amount))
}

pub fn update_bounty(config: &ProgramConfig, ctx: &mut UpdateBounty, new_amount: u64) -> (r:
    Result<Outcome<BountyUpdated>, SolmatesError>)
    ensures
        old(ctx).check_result(config.program_id@) matches Err(e) ==> r matches Err(e2) && e2
            == e && *final(ctx) == *old(ctx),
        old(ctx).check_result(config.program_id@) is Ok ==> update_bounty_post(
            *old(ctx),
            *final(ctx),
            new_amount,
            r,
        ),
        r matches Ok(o) ==> old(ctx).bounty.owed() + vault_delta(o.transfers@)
            == final(ctx).bounty.owed(),
{
    match ctx.check(&config.program_id) {
        Ok(_) => {},
        Err(e) => return Err(e),
    }
    update_bounty::handler(ctx, new_amount)
}

pub fn payout_referral(config: &ProgramConfig, ctx: &mut PayoutReferral) -> (r: Result<
    Outcome<BountyPaid>,
    SolmatesError,
>)
    ensures
        old(ctx).check_result(*config) matches Err(e) ==> r matches Err(e2) && e2 == e
            && *final(ctx) == *old(ctx),
        old(ctx).check_result(*config) is Ok ==> payout_referral_post(*old(ctx), *final(ctx), r),
        r matches Ok(o) ==> old(ctx).bounty.owed() + vault_delta(o.transfers@)
            == final(ctx).bounty.owed(),
{
    match ctx.check(config) {
        Ok(_) => {},
        Err(e) => return Err(e),
    }
    payout_referral::handler(ctx)
}

pub fn cancel_bounty(config: &ProgramConfig, ctx: &mut CancelBounty) -> (r: Result<
    Outcome<BountyCancelled>,
    SolmatesError,
>)
    ensures
        old(ctx).check_result(config.program_id@) matches Err(e) ==> r matches Err(e2) && e2
            == e && *final(ctx) == *old(ctx),
        old(ctx).check_result(config.program_id@) is Ok ==> cancel_bounty_post(
            *old(ctx),
            *final(ctx),
            r,
        ),
        r matches Ok(o) ==> old(ctx).bounty.owed() + vault_delta(o.transfers@)
            == final(ctx).bounty.owed(),
{
    match ctx.check(&config.program_id) {
        Ok(_) => {},
        Err(e) => return Err(e),
    }
    cancel_bounty::handler(ctx)
}

} // verus!
