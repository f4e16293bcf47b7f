//! The owner of a profile changes any of its price, its asset gate and the
//! gate's minimum. An open escrow keeps the terms it was opened under.

use vstd::prelude::*;
use crate::address::{
    check_derived_address, is_derived_address, profile_seeds, spec_profile_seeds, Address,
};
use crate::errors::SolmatesError;
use crate::events::ProfileUpdated;
use crate::states::user_profile::UserProfile;

verus! {

/// The accounts of an update.
#[derive(Clone, Copy, Debug)]
pub struct UpdateProfile {
    /// Signer; must own the profile.
    pub authority: Address,
    pub profile_address: Address,
    pub profile: UserProfile,
}

impl UpdateProfile {
    pub open spec fn check_result(&self, program_id: Seq<u8>) -> Result<(), SolmatesError> {
        if !is_derived_address(
            spec_profile_seeds(self.authority@),
            self.profile.bump,
            program_id,
            self.profile_address@,
        ) {
            Err(SolmatesError::InvalidRecordAddress)
        } else if self.profile.authority@ != self.authority@ {
            Err(SolmatesError::AccountMismatch)
        } else {
            Ok(())
        }
    }

    pub fn check(&self, program_id: &Address) -> (r: Result<(), SolmatesError>)
        ensures
            r == self.check_result(program_id@),
    {
        if !check_derived_address(
            profile_seeds(&self.authority),
            self.profile.bump,
            program_id,
            &self.profile_address,
        ) {
            return Err(SolmatesError::InvalidRecordAddress);
        }
        if !(self.profile.authority == self.authority) {
            return Err(SolmatesError::AccountMismatch);
        }
        Ok(())
    }
}

/// `current` replaced by the given value, where one is given.
pub open spec fn updated<T>(current: T, given: Option<T>) -> T {
    match given {
        Some(v) => v,
        None => current,
    }
}

pub fn handler(
    ctx: &mut UpdateProfile,
    dm_price: Option<u64>,
    asset_gate_mint: Option<Option<Address>>,
    min_asset_amount: Option<u64>,
) -> (r: ProfileUpdated)
    ensures
        *final(ctx) == (UpdateProfile {
            profile: UserProfile {
                dm_price: updated(old(ctx).profile.dm_price, dm_price),
                asset_gate_mint: updated(old(ctx).profile.asset_gate_mint, asset_gate_mint),
                min_asset_amount: updated(old(ctx).profile.min_asset_amount, min_asset_amount),
                ..old(ctx).profile
            },
            ..*old(ctx)
        }),
        r == (ProfileUpdated {
            authority: old(ctx).profile.authority,
            dm_price: final(ctx).profile.dm_price,
        }),
{
    if let Some(price) = dm_price {
        ctx.profile.dm_price = price;
    }
    if let Some(gate) = asset_gate_mint {
        ctx.profile.asset_gate_mint = gate;
    }
    if let Some(amount) = min_asset_amount {
        ctx.profile.min_asset_amount = amount;
    }
    ProfileUpdated { authority: ctx.profile.authority, dm_price: ctx.profile.dm_price }
}

} // verus!
