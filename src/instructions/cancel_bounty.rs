//! The issuer withdraws an open bounty: the whole reward goes back, no fee is
//! taken, and the bounty is closed.

use vstd::prelude::*;
use crate::address::Address;
use crate::errors::SolmatesError;
use crate::events::BountyCancelled;
use crate::instructions::create_bounty::{bounty_accounts_result, check_bounty_accounts};
use crate::states::bounty_vault::{BountyStatus, BountyVault};
use crate::transfer::{out_of_vault, out_of_vault_transfer, single, vault_delta, Outcome};

verus! {

/// The accounts of a cancellation.
#[derive(Clone, Copy, Debug)]
pub struct CancelBounty {
    /// Signer; receives the reward and the record's deposit.
    pub issuer: Address,
    pub mint: Address,
    pub bounty_address: Address,
    pub bounty: BountyVault,
}

impl CancelBounty {
    pub open spec fn check_result(&self, program_id: Seq<u8>) -> Result<(), SolmatesError> {
        bounty_accounts_result(self.issuer, self.mint, self.bounty_address, self.bounty, program_id)
    }

    pub fn check(&self, program_id: &Address) -> (r: Result<(), SolmatesError>)
        ensures
            r == self.check_result(program_id@),
    {
        check_bounty_accounts(
            &self.issuer,
            &self.mint,
            &self.bounty_address,
            &self.bounty,
            program_id,
        )
    }
}

pub open spec fn cancel_bounty_post(
    old: CancelBounty,
    new: CancelBounty,
    r: Result<Outcome<BountyCancelled>, SolmatesError>,
) -> bool {
    if old.bounty.status != BountyStatus::Open {
        r matches Err(e) && e == SolmatesError::BountyNotOpen && new == old
    } else {
        r matches Ok(o) && new == (CancelBounty {
            bounty: BountyVault { status: BountyStatus::Cancelled, ..old.bounty },
            ..old
        }) && o.transfers@ == seq![out_of_vault(old.issuer, old.bounty.reward_amount)]
            && o.event == (BountyCancelled {
            issuer: old.bounty.issuer,
            amount: old.bounty.reward_amount,
        }) && o.close_to == Some(old.issuer)
    }
}

pub fn handler(ctx: &mut CancelBounty) -> (r: Result<Outcome<BountyCancelled>, SolmatesError>)
    ensures
        cancel_bounty_post(*old(ctx), *final(ctx), r),
        r matches Ok(o) ==> old(ctx).bounty.owed() + vault_delta(o.transfers@)
            == final(ctx).bounty.owed(),
{
    let bounty = ctx.bounty;
    if bounty.status != BountyStatus::Open {
        return Err(SolmatesError::BountyNotOpen);
    }
    ctx.bounty.status = BountyStatus::Cancelled;
    let transfers = single(out_of_vault_transfer(ctx.issuer, bounty.reward_amount));
    let event = BountyCancelled { issuer: bounty.issuer, amount: bounty.reward_amount };
    Ok(Outcome { transfers, event, close_to: Some(ctx.issuer) })
}

} // verus!
