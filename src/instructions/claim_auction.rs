//! The host collects the winning bid of an ended auction, less the platform
//! fee, and the auction is closed.

use vstd::prelude::*;
use crate::address::{
    auction_seeds, check_derived_address, is_derived_address, spec_auction_seeds, Address,
};
use crate::errors::SolmatesError;
use crate::events::AuctionClaimed;
use crate::fees::{settle, settlement, Settlement};
use crate::states::date_auction::DateAuction;
use crate::transfer::{payout, payout_transfers, vault_delta, Outcome};
use crate::{ProgramConfig, PLATFORM_FEE_BPS};

verus! {

/// The accounts of a claim.
#[derive(Clone, Copy, Debug)]
pub struct ClaimAuction {
    /// Signer; receives the net amount and the record's deposit.
    pub host: Address,
    pub mint: Address,
    pub auction_address: Address,
    pub auction: DateAuction,
    /// Receives the fee; must be the configured treasury.
    pub treasury: Address,
}

impl ClaimAuction {
    pub open spec fn check_result(&self, config: ProgramConfig) -> Result<(), SolmatesError> {
        if !is_derived_address(
            spec_auction_seeds(self.host@, self.auction.auction_id),
            self.auction.bump,
            config.program_id@,
            self.auction_address@,
        ) {
            Err(SolmatesError::InvalidRecordAddress)
        } else if self.auction.host@ != self.host@ || self.auction.mint@ != self.mint@ {
            Err(SolmatesError::AccountMismatch)
        } else if self.treasury@ != config.treasury@ {
            Err(SolmatesError::InvalidTreasury)
        } else {
            Ok(())
        }
    }

    pub fn check(&self, config: &ProgramConfig) -> (r: Result<(), SolmatesError>)
        ensures
            r == self.check_result(*config),
    {
        let seeds = auction_seeds(&self.host, self.auction.auction_id);
        if !check_derived_address(
            seeds,
            self.auction.bump,
            &config.program_id,
            &self.auction_address,
        ) {
            return Err(SolmatesError::InvalidRecordAddress);
        }
        if !(self.auction.host == self.host) || !(self.auction.mint == self.mint) {
            return Err(SolmatesError::AccountMismatch);
        }
        if !(self.treasury == config.treasury) {
            return Err(SolmatesError::InvalidTreasury);
        }
        Ok(())
    }
}

/// The settlement of a claim on `a` at `now`, or why it is refused: the
/// auction must have ended and hold a real bid.
pub open spec fn claim_result(a: DateAuction, now: i64) -> Result<Settlement, SolmatesError> {
    if now <= a.end_time {
        Err(SolmatesError::AuctionNotEnded)
    } else if !a.has_bids() {
        Err(SolmatesError::NoBidsPlaced)
    } else {
        settlement(a.highest_bid, PLATFORM_FEE_BPS)
    }
}

pub open spec fn claim_auction_post(
    old: ClaimAuction,
    new: ClaimAuction,
    now: i64,
    r: Result<Outcome<AuctionClaimed>, SolmatesError>,
) -> bool {
    &&& new == old
    &&& match claim_result(old.auction, now) {
        Err(e) => r matches Err(e2) && e2 == e,
        Ok(s) => r matches Ok(o) && o.transfers@ == payout_transfers(old.host, old.treasury, s)
            && o.event == (AuctionClaimed {
            auction_id: old.auction.auction_id,
            host: old.auction.host,
            winner: old.auction.highest_bidder,
            amount: old.auction.highest_bid,
            fee: s.fee,
        }) && o.close_to == Some(old.host),
    }
}

pub fn handler(ctx: &mut ClaimAuction, now: i64) -> (r: Result<
    Outcome<AuctionClaimed>,
    SolmatesError,
>)
    ensures
        claim_auction_post(*old(ctx), *final(ctx), now, r),
        r matches Ok(o) ==> old(ctx).auction.owed() + vault_delta(o.transfers@) == 0,
{
    let auction = ctx.auction;
    if !(now > auction.end_time) {
        return Err(SolmatesError::AuctionNotEnded);
    }
    if auction.highest_bidder == auction.host {
        return Err(SolmatesError::NoBidsPlaced);
    }
    let s = match settle(auction.highest_bid, PLATFORM_FEE_BPS) {
        Ok(s) => s,
        Err(e) => return Err(e),
    };
    let transfers = payout(ctx.host, ctx.treasury, s);
    let event = AuctionClaimed {
        auction_id: auction.auction_id,
        host: auction.host,
        winner: auction.highest_bidder,
        amount: auction.highest_bid,
        fee: s.fee,
    };
    Ok(Outcome { transfers, event, close_to: Some(ctx.host) })
}

} // verus!
