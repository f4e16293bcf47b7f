//! The host withdraws an auction that no one has bid on; nothing moves and
//! the auction is closed.

use vstd::prelude::*;
use crate::address::{
    auction_seeds, check_derived_address, is_derived_address, spec_auction_seeds, Address,
};
use crate::errors::SolmatesError;
use crate::events::AuctionCancelled;
use crate::states::date_auction::DateAuction;
use crate::instructions::place_bid::{bid_result, lemma_bid_step, lemma_snipe_cap, run_bids};
use crate::transfer::{lemma_vault_delta_empty, vault_delta, Outcome, Transfer};

verus! {

/// The accounts of a cancellation.
#[derive(Clone, Copy, Debug)]
pub struct CancelAuction {
    /// Signer; receives the record's deposit.
    pub host: Address,
    pub mint: Address,
    pub auction_address: Address,
    pub auction: DateAuction,
}

impl CancelAuction {
    pub open spec fn check_result(&self, program_id: Seq<u8>) -> Result<(), SolmatesError> {
        if !is_derived_address(
            spec_auction_seeds(self.host@, self.auction.auction_id),
            self.auction.bump,
            program_id,
            self.auction_address@,
        ) {
            Err(SolmatesError::InvalidRecordAddress)
        } else if self.auction.host@ != self.host@ || self.auction.mint@ != self.mint@ {
            Err(SolmatesError::AccountMismatch)
        } else {
            Ok(())
        }
    }

    pub fn check(&self, program_id: &Address) -> (r: Result<(), SolmatesError>)
        ensures
            r == self.check_result(program_id@),
    {
        let seeds = auction_seeds(&self.host, self.auction.auction_id);
        if !check_derived_address(seeds, self.auction.bump, program_id, &self.auction_address) {
            return Err(SolmatesError::InvalidRecordAddress);
        }
        if !(self.auction.host == self.host) || !(self.auction.mint == self.mint) {
            return Err(SolmatesError::AccountMismatch);
        }
        Ok(())
    }
}

/// A cancellation goes through exactly while the host is still the highest
/// bidder.
pub open spec fn cancel_result(a: DateAuction) -> Result<(), SolmatesError> {
    if a.has_bids() {
        Err(SolmatesError::AuctionHasBids)
    } else {
        Ok(())
    }
}

pub open spec fn cancel_auction_post(
    old: CancelAuction,
    new: CancelAuction,
    r: Result<Outcome<AuctionCancelled>, SolmatesError>,
) -> bool {
    &&& new == old
    &&& match cancel_result(old.auction) {
        Err(e) => r matches Err(e2) && e2 == e,
        Ok(_) => r matches Ok(o) && o.transfers@.len() == 0 && o.event == (AuctionCancelled {
            host: old.auction.host,
            auction_id: old.auction.auction_id,
        }) && o.close_to == Some(old.host),
    }
}

pub fn handler(ctx: &mut CancelAuction) -> (r: Result<Outcome<AuctionCancelled>, SolmatesError>)
    ensures
        cancel_auction_post(*old(ctx), *final(ctx), r),
        r matches Ok(o) ==> old(ctx).auction.owed() + vault_delta(o.transfers@) == 0,
{
    let auction = ctx.auction;
    if !(auction.highest_bidder == auction.host) {
        return Err(SolmatesError::AuctionHasBids);
    }
    let transfers: Vec<Transfer> = Vec::new();
    proof {
        lemma_vault_delta_empty();
        assert(transfers@ =~= Seq::<Transfer>::empty());
    }
    let event = AuctionCancelled { host: auction.host, auction_id: auction.auction_id };
    Ok(Outcome { transfers, event, close_to: Some(ctx.host) })
}

/// Once a bid lands, the auction has bids.
pub proof fn lemma_bid_blocks_cancel(a: DateAuction, bidder: Address, amount: u64, now: i64)
    requires
        a.wf(),
    ensures
        bid_result(a, bidder, amount, now) matches Ok(next) ==> cancel_result(next) is Err,
{
    lemma_bid_step(a, bidder, amount, now);
}

/// No-bid cancel only: a cancellation goes through exactly while no bid has
/// landed, and once the auction has bids, no later run of bids makes it
/// cancellable again.
pub proof fn lemma_cancel_only_without_bids(
    a: DateAuction,
    bids: Seq<(Address, u64, i64)>,
    later: Seq<(Address, u64, i64)>,
)
    requires
        a.wf(),
    ensures
        cancel_result(a) is Ok <==> !a.has_bids(),
        cancel_result(run_bids(a, bids)) is Err ==> cancel_result(run_bids(a, bids + later))
            is Err,
    decreases later.len(),
{
    if later.len() > 0 {
        let shorter = later.drop_last();
        assert((bids + later).drop_last() =~= bids + shorter);
        assert((bids + later).last() == later.last());
        lemma_cancel_only_without_bids(a, bids, shorter);
        let prev = run_bids(a, bids + shorter);
        lemma_snipe_cap(a, bids + shorter);
        let b = later.last();
        assert(b == later[later.len() - 1]);
        lemma_bid_step(prev, b.0, b.1, b.2);
    } else {
        assert(bids + later =~= bids);
    }
}

} // verus!
