//! An issuer posts a referral bounty: the reward goes into a new vault.

use vstd::prelude::*;
use crate::address::{
    is_canonical_bump,
    bounty_seeds, check_derived_address, is_derived_address, is_new_record_address,
    new_record_bump, spec_bounty_seeds, Address,
};
use crate::errors::SolmatesError;
use crate::events::BountyCreated;
use crate::states::bounty_vault::{BountyStatus, BountyVault};
use crate::transfer::{into_vault, into_vault_transfer, single, vault_delta, Outcome};

verus! {

/// The record is `issuer`'s bounty and names `issuer` and `mint`.
pub open spec fn bounty_accounts_result(
    issuer: Address,
    mint: Address,
    bounty_address: Address,
    bounty: BountyVault,
    program_id: Seq<u8>,
) -> Result<(), SolmatesError> {
    if !is_derived_address(spec_bounty_seeds(issuer@), bounty.bump, program_id, bounty_address@) {
        Err(SolmatesError::InvalidRecordAddress)
    } else if bounty.issuer@ != issuer@ || bounty.mint@ != mint@ {
        Err(SolmatesError::AccountMismatch)
    } else {
        Ok(())
    }
}

pub fn check_bounty_accounts(
    issuer: &Address,
    mint: &Address,
    bounty_address: &Address,
    bounty: &BountyVault,
    program_id: &Address,
) -> (r: Result<(), SolmatesError>)
    ensures
        r == bounty_accounts_result(*issuer, *mint, *bounty_address, *bounty, program_id@),
{
    if !check_derived_address(bounty_seeds(issuer), bounty.bump, program_id, bounty_address) {
        return Err(SolmatesError::InvalidRecordAddress);
    }
    if !(bounty.issuer == *issuer) || !(bounty.mint == *mint) {
        return Err(SolmatesError::AccountMismatch);
    }
    Ok(())
}

/// The accounts of a new bounty.
#[derive(Clone, Copy, Debug)]
pub struct CreateBounty {
    /// Signer; pays the reward and the record.
    pub issuer: Address,
    pub mint: Address,
    /// Where the new record goes.
    pub bounty_address: Address,
    /// The record, written by the handler.
    pub bounty: BountyVault,
}

impl CreateBounty {
    pub open spec fn accounts_valid(&self, program_id: Seq<u8>) -> bool {
        is_new_record_address(spec_bounty_seeds(self.issuer@), program_id, self.bounty_address@)
    }

    /// On success, the new record's canonical bump.
    pub fn check(&self, program_id: &Address) -> (r: Result<u8, SolmatesError>)
        ensures
            r is Ok <==> self.accounts_valid(program_id@),
            r matches Ok(b) ==> is_canonical_bump(spec_bounty_seeds(self.issuer@), program_id@, b)
                && is_derived_address(
                spec_bounty_seeds(self.issuer@),
                b,
                program_id@,
                self.bounty_address@,
            ),
            r matches Err(e) ==> e == SolmatesError::InvalidRecordAddress,
    {
        match new_record_bump(&bounty_seeds(&self.issuer), program_id, &self.bounty_address) {
            Some(b) => Ok(b),
            None => Err(SolmatesError::InvalidRecordAddress),
        }
    }
}

/// Posting a bounty always goes through: the record holds the reward, open.
pub fn handler(ctx: &mut CreateBounty, bump: u8, reward_amount: u64) -> (r: Outcome<BountyCreated>)
    ensures
        *final(ctx) == (CreateBounty {
            bounty: BountyVault {
                issuer: old(ctx).issuer,
                mint: old(ctx).mint,
                reward_amount,
                status: BountyStatus::Open,
                bump,
            },
            ..*old(ctx)
        }),
        r.transfers@ == seq![into_vault(old(ctx).issuer, reward_amount)],
        r.event == (BountyCreated { issuer: old(ctx).issuer, reward_amount }),
        r.close_to is None,
        vault_delta(r.transfers@) == final(ctx).bounty.owed(),
{
    ctx.bounty = BountyVault {
        issuer: ctx.issuer,
        mint: ctx.mint,
        reward_amount,
        status: BountyStatus::Open,
        bump,
    };
    let transfers = single(into_vault_transfer(ctx.issuer, reward_amount));
    let event = BountyCreated { issuer: ctx.issuer, reward_amount };
    Outcome { transfers, event, close_to: None }
}

} // verus!
