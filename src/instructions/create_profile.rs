//! A user sets up a profile: the price of a direct message and an optional
//! asset gate. The auction counter starts at zero.

use vstd::prelude::*;
use crate::address::{
    is_canonical_bump,
    is_derived_address, is_new_record_address, new_record_bump, profile_seeds,
    spec_profile_seeds, Address,
};
use crate::errors::SolmatesError;
use crate::events::ProfileCreated;
use crate::states::user_profile::UserProfile;

verus! {

/// The accounts of a new profile.
#[derive(Clone, Copy, Debug)]
pub struct CreateProfile {
    /// Signer; owns the profile.
    pub authority: Address,
    /// Where the new record goes.
    pub profile_address: Address,
    /// The record, written by the handler.
    pub profile: UserProfile,
}

impl CreateProfile {
    pub open spec fn accounts_valid(&self, program_id: Seq<u8>) -> bool {
        is_new_record_address(
            spec_profile_seeds(self.authority@),
            program_id,
            self.profile_address@,
        )
    }

    /// On success, the new record's canonical bump.
    pub fn check(&self, program_id: &Address) -> (r: Result<u8, SolmatesError>)
        ensures
            r is Ok <==> self.accounts_valid(program_id@),
            r matches Ok(b) ==> is_canonical_bump(
                spec_profile_seeds(self.authority@),
                program_id@,
                b,
            )
                && is_derived_address(
                spec_profile_seeds(self.authority@),
                b,
                program_id@,
                self.profile_address@,
            ),
            r matches Err(e) ==> e == SolmatesError::InvalidRecordAddress,
    {
        match new_record_bump(&profile_seeds(&self.authority), program_id, &self.profile_address) {
            Some(b) => Ok(b),
            None => Err(SolmatesError::InvalidRecordAddress),
        }
    }
}

pub fn handler(
    ctx: &mut CreateProfile,
    bump: u8,
    dm_price: u64,
    asset_gate_mint: Option<Address>,
    min_asset_amount: u64,
) -> (r: ProfileCreated)
    ensures
        *final(ctx) == (CreateProfile {
            profile: UserProfile {
                authority: old(ctx).authority,
                dm_price,
                asset_gate_mint,
                min_asset_amount,
                auction_count: 0,
                bump,
            },
            ..*old(ctx)
        }),
        r == (ProfileCreated { authority: old(ctx).authority, dm_price }),
{
    ctx.profile = UserProfile {
        authority: ctx.authority,
        dm_price,
        asset_gate_mint,
        min_asset_amount,
        auction_count: 0,
        bump,
    };
    ProfileCreated { authority: ctx.authority, dm_price }
}

} // verus!
