//! A host opens an auction, numbered by the counter of the host's profile.
//! No funds move: the host holds the auction as sentinel bidder at the
//! starting price.

use vstd::prelude::*;
use crate::address::{
    is_canonical_bump,
    auction_seeds, check_derived_address, is_derived_address, is_new_record_address,
    new_record_bump, profile_seeds, spec_auction_seeds, spec_profile_seeds, Address,
};
use crate::errors::SolmatesError;
use crate::events::AuctionCreated;
use crate::states::date_auction::DateAuction;
use crate::states::user_profile::UserProfile;
use crate::transfer::{lemma_vault_delta_empty, vault_delta, Outcome, Transfer};

verus! {

/// The accounts of a new auction.
#[derive(Clone, Copy, Debug)]
pub struct CreateAuction {
    /// Signer; pays for the record.
    pub host: Address,
    pub host_profile_address: Address,
    pub host_profile: UserProfile,
    pub mint: Address,
    /// Where the new record goes.
    pub auction_address: Address,
    /// The record, written by the handler.
    pub auction: DateAuction,
}

impl CreateAuction {
    /// The checks before the handler; on success the handler gets the new
    /// record's canonical bump.
    pub open spec fn accounts_valid(&self, program_id: Seq<u8>) -> bool {
        &&& is_derived_address(
            spec_profile_seeds(self.host@),
            self.host_profile.bump,
            program_id,
            self.host_profile_address@,
        )
        &&& self.host_profile.authority@ == self.host@
        &&& is_new_record_address(
            spec_auction_seeds(self.host@, self.host_profile.auction_count),
            program_id,
            self.auction_address@,
        )
    }

    /// Why the checks fail, where they do: `Unauthorized` where the profile
    /// is not the host's, else a wrong address.
    pub open spec fn check_error(&self, program_id: Seq<u8>) -> SolmatesError {
        if is_derived_address(
            spec_profile_seeds(self.host@),
            self.host_profile.bump,
            program_id,
            self.host_profile_address@,
        ) && self.host_profile.authority@ != self.host@ {
            SolmatesError::Unauthorized
        } else {
            SolmatesError::InvalidRecordAddress
        }
    }

    pub fn check(&self, program_id: &Address) -> (r: Result<u8, SolmatesError>)
        ensures
            r is Ok <==> self.accounts_valid(program_id@),
            r matches Ok(b) ==> is_canonical_bump(
                spec_auction_seeds(self.host@, self.host_profile.auction_count),
                program_id@,
                b,
            )
                && is_derived_address(
                spec_auction_seeds(self.host@, self.host_profile.auction_count),
                b,
                program_id@,
                self.auction_address@,
            ),
            r matches Err(e) ==> e == self.check_error(program_id@),
    {
        if !check_derived_address(
            profile_seeds(&self.host),
            self.host_profile.bump,
            program_id,
            &self.host_profile_address,
        ) {
            return Err(SolmatesError::InvalidRecordAddress);
        }
        if !(self.host_profile.authority == self.host) {
            return Err(SolmatesError::Unauthorized);
        }
        let seeds = auction_seeds(&self.host, self.host_profile.auction_count);
        match new_record_bump(&seeds, program_id, &self.auction_address) {
            Some(b) => Ok(b),
            None => Err(SolmatesError::InvalidRecordAddress),
        }
    }
}

/// The accounts after `host` opens an auction at `now`, or why it is
/// refused: the end time and the host's counter must not overflow.
pub open spec fn create_auction_result(
    ctx: CreateAuction,
    bump: u8,
    start_price: u64,
    duration_secs: i64,
    now: i64,
) -> Result<CreateAuction, SolmatesError> {
    if now + duration_secs > i64::MAX || now + duration_secs < i64::MIN
        || ctx.host_profile.auction_count + 1 > u64::MAX {
        Err(SolmatesError::ArithmeticOverflow)
    } else {
        Ok(
            CreateAuction {
                auction: DateAuction {
                    host: ctx.host,
                    auction_id: ctx.host_profile.auction_count,
                    mint: ctx.mint,
                    highest_bidder: ctx.host,
                    highest_bid: start_price,
                    end_time: (now + duration_secs) as i64,
                    total_extended: 0,
                    bump,
                },
                host_profile: UserProfile {
                    auction_count: (ctx.host_profile.auction_count + 1) as u64,
                    ..ctx.host_profile
                },
                ..ctx
            },
        )
    }
}

pub open spec fn create_auction_post(
    old: CreateAuction,
    new: CreateAuction,
    bump: u8,
    start_price: u64,
    duration_secs: i64,
    now: i64,
    r: Result<Outcome<AuctionCreated>, SolmatesError>,
) -> bool {
    match create_auction_result(old, bump, start_price, duration_secs, now) {
        Err(e) => r matches Err(e2) && e2 == e && new == old,
        Ok(c) => r matches Ok(o) && new == c && o.transfers@.len() == 0 && o.event == (
        AuctionCreated {
            host: old.host,
            auction_id: old.host_profile.auction_count,
            start_price,
            end_time: c.auction.end_time,
        }) && o.close_to is None,
    }
}

pub fn handler(
    ctx: &mut CreateAuction,
    bump: u8,
    start_price: u64,
    duration_secs: i64,
    now: i64,
) -> (r: Result<Outcome<AuctionCreated>, SolmatesError>)
    ensures
        create_auction_post(*old(ctx), *final(ctx), bump, start_price, duration_secs, now, r),
        r is Ok ==> final(ctx).auction.wf() && final(ctx).auction.owed() == 0,
        r matches Ok(o) ==> vault_delta(o.transfers@) == 0,
{
    let end_time = match now.checked_add(duration_secs) {
        Some(t) => t,
        None => return Err(SolmatesError::ArithmeticOverflow),
    };
    let next_count = match ctx.host_profile.auction_count.checked_add(1) {
        Some(c) => c,
        None => return Err(SolmatesError::ArithmeticOverflow),
    };
    let auction_id = ctx.host_profile.auction_count;
    ctx.auction = DateAuction {
        host: ctx.host,
        auction_id,
        mint: ctx.mint,
        highest_bidder: ctx.host,
        highest_bid: start_price,
        end_time,
        total_extended: 0,
        bump,
    };
    ctx.host_profile.auction_count = next_count;
    let transfers: Vec<Transfer> = Vec::new();
    proof {
        lemma_vault_delta_empty();
        assert(transfers@ =~= Seq::<Transfer>::empty());
    }
    let event = AuctionCreated { host: ctx.host, auction_id, start_price, end_time };
    Ok(Outcome { transfers, event, close_to: None })
}

} // verus!
