//! The issuer pays an open bounty to the matchmaker: the reward, less the
//! platform fee, goes to the matchmaker, the fee to the treasury, and the
//! bounty is closed as filled.

use vstd::prelude::*;
use crate::address::Address;
use crate::errors::SolmatesError;
use crate::events::BountyPaid;
use crate::fees::{settle, settlement, Settlement};
use crate::instructions::create_bounty::{bounty_accounts_result, check_bounty_accounts};
use crate::states::bounty_vault::{BountyStatus, BountyVault};
use crate::transfer::{payout, payout_transfers, vault_delta, Outcome};
use crate::{ProgramConfig, PLATFORM_FEE_BPS};

verus! {

/// The accounts of a payout.
#[derive(Clone, Copy, Debug)]
pub struct PayoutReferral {
    /// Signer; receives the record's deposit.
    pub issuer: Address,
    /// Receives the net reward.
    pub matchmaker: Address,
    pub mint: Address,
    pub bounty_address: Address,
    pub bounty: BountyVault,
    /// Receives the fee; must be the configured treasury.
    pub treasury: Address,
}

impl PayoutReferral {
    pub open spec fn check_result(&self, config: ProgramConfig) -> Result<(), SolmatesError> {
        match bounty_accounts_result(
            self.issuer,
            self.mint,
            self.bounty_address,
            self.bounty,
            config.program_id@,
        ) {
            Err(e) => Err(e),
            Ok(_) => if self.treasury@ != config.treasury@ {
                Err(SolmatesError::InvalidTreasury)
            } else {
                Ok(())
            },
        }
    }

    pub fn check(&self, config: &ProgramConfig) -> (r: Result<(), SolmatesError>)
        ensures
            r == self.check_result(*config),
    {
        match check_bounty_accounts(
            &self.issuer,
            &self.mint,
            &self.bounty_address,
            &self.bounty,
            &config.program_id,
        ) {
            Err(e) => return Err(e),
            Ok(_) => {},
        }
        if !(self.treasury == config.treasury) {
            return Err(SolmatesError::InvalidTreasury);
        }
        Ok(())
    }
}

/// The settlement of a payout, or why it is refused.
pub open spec fn payout_result(b: BountyVault) -> Result<Settlement, SolmatesError> {
    if b.status != BountyStatus::Open {
        Err(SolmatesError::BountyNotOpen)
    } else {
        settlement(b.reward_amount, PLATFORM_FEE_BPS)
    }
}

pub open spec fn payout_referral_post(
    old: PayoutReferral,
    new: PayoutReferral,
    r: Result<Outcome<BountyPaid>, SolmatesError>,
) -> bool {
    match payout_result(old.bounty) {
        Err(e) => r matches Err(e2) && e2 == e && new == old,
        Ok(s) => r matches Ok(o) && new == (PayoutReferral {
            bounty: BountyVault { status: BountyStatus::Filled, ..old.bounty },
            ..old
        }) && o.transfers@ == payout_transfers(old.matchmaker, old.treasury, s) && o.event == (
        BountyPaid {
            issuer: old.bounty.issuer,
            matchmaker: old.matchmaker,
            amount: old.bounty.reward_amount,
            fee: s.fee,
        }) && o.close_to == Some(old.issuer),
    }
}

pub fn handler(ctx: &mut PayoutReferral) -> (r: Result<Outcome<BountyPaid>, SolmatesError>)
    ensures
        payout_referral_post(*old(ctx), *final(ctx), r),
        r matches Ok(o) ==> old(ctx).bounty.owed() + vault_delta(o.transfers@)
            == final(ctx).bounty.owed(),
{
    let bounty = ctx.bounty;
    if bounty.status != BountyStatus::Open {
        return Err(SolmatesError::BountyNotOpen);
    }
    let s = match settle(bounty.reward_amount, PLATFORM_FEE_BPS) {
        Ok(s) => s,
        Err(e) => return Err(e),
    };
    ctx.bounty.status = BountyStatus::Filled;
    let transfers = payout(ctx.matchmaker, ctx.treasury, s);
    let event = BountyPaid {
        issuer: bounty.issuer,
        matchmaker: ctx.matchmaker,
        amount: bounty.reward_amount,
        fee: s.fee,
    };
    Ok(Outcome { transfers, event, close_to: Some(ctx.issuer) })
}

} // verus!
