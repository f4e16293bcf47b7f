//! A bid on a running auction. The previous highest bidder, if any, gets the
//! full bid back; a bid near the end extends the auction, up to a cap.

use vstd::prelude::*;
use crate::address::{
    auction_seeds, check_derived_address, is_derived_address, spec_auction_seeds, Address,
};
use crate::errors::SolmatesError;
use crate::events::BidPlaced;
use crate::fees::{min_next_bid, minimum_next_bid};
use crate::states::date_auction::DateAuction;
use crate::transfer::{
    into_vault, into_vault_transfer, lemma_vault_delta_one, lemma_vault_delta_two, out_of_vault,
    out_of_vault_transfer, vault_delta, Outcome, Transfer,
};
use crate::{MAX_SNIPE_EXTENSIONS, SNIPE_EXTENSION, SNIPE_THRESHOLD};

verus! {

/// The accounts of a bid.
#[derive(Clone, Copy, Debug)]
pub struct PlaceBid {
    /// Signer; pays the bid.
    pub bidder: Address,
    /// Who the bidder believes holds the highest bid; refunded.
    pub previous_bidder: Address,
    pub host: Address,
    pub mint: Address,
    pub auction_address: Address,
    pub auction: DateAuction,
}

impl PlaceBid {
    /// The auction is `host`'s record of that id, in `mint`, and the stated
    /// previous bidder is the current highest bidder.
    pub open spec fn check_result(&self, program_id: Seq<u8>) -> Result<(), SolmatesError> {
        if !is_derived_address(
            spec_auction_seeds(self.host@, self.auction.auction_id),
            self.auction.bump,
            program_id,
            self.auction_address@,
        ) {
            Err(SolmatesError::InvalidRecordAddress)
        } else if self.auction.host@ != self.host@ || self.auction.mint@ != self.mint@ {
            Err(SolmatesError::AccountMismatch)
        } else if self.auction.highest_bidder@ != self.previous_bidder@ {
            Err(SolmatesError::InvalidPreviousBidder)
        } else {
            Ok(())
        }
    }

    pub fn check(&self, program_id: &Address) -> (r: Result<(), SolmatesError>)
        ensures
            r == self.check_result(program_id@),
    {
        let seeds = auction_seeds(&self.host, self.auction.auction_id);
        if !check_derived_address(seeds, self.auction.bump, program_id, &self.auction_address) {
            return Err(SolmatesError::InvalidRecordAddress);
        }
        if !(self.auction.host == self.host) || !(self.auction.mint == self.mint) {
            return Err(SolmatesError::AccountMismatch);
        }
        if !(self.auction.highest_bidder == self.previous_bidder) {
            return Err(SolmatesError::InvalidPreviousBidder);
        }
        Ok(())
    }
}

/// How long the auction still runs at `now`.
pub open spec fn time_remaining(end_time: i64, now: i64) -> int {
    end_time - now
}

/// How far a bid at `now` pushes the end of `a`: `SNIPE_EXTENSION` when it
/// lands within `SNIPE_THRESHOLD` of the end, cut to what is left of the cap.
pub open spec fn snipe_extension(a: DateAuction, now: i64) -> int {
    if time_remaining(a.end_time, now) < SNIPE_THRESHOLD && a.total_extended
        < MAX_SNIPE_EXTENSIONS {
        let left = MAX_SNIPE_EXTENSIONS - a.total_extended;
        if SNIPE_EXTENSION < left {
            SNIPE_EXTENSION as int
        } else {
            left
        }
    } else {
        0
    }
}

/// The auction after `bidder` bids `amount` at `now`, or why the bid is
/// refused. After the checks on time and amount, a bid from the host is
/// refused: while the host is the highest bidder the auction has no bids.
pub open spec fn bid_result(a: DateAuction, bidder: Address, amount: u64, now: i64) -> Result<
    DateAuction,
    SolmatesError,
> {
    if now >= a.end_time {
        Err(SolmatesError::AuctionEnded)
    } else if amount <= a.highest_bid {
        Err(SolmatesError::BidTooLow)
    } else if amount < min_next_bid(a.highest_bid) {
        Err(SolmatesError::BidIncrementTooSmall)
    } else if bidder@ == a.host@ {
        Err(SolmatesError::HostCannotBid)
    } else if a.end_time + snipe_extension(a, now) > i64::MAX {
        Err(SolmatesError::ArithmeticOverflow)
    } else {
        Ok(
            DateAuction {
                highest_bidder: bidder,
                highest_bid: amount,
                end_time: (a.end_time + snipe_extension(a, now)) as i64,
                total_extended: (a.total_extended + snipe_extension(a, now)) as i64,
                ..a
            },
        )
    }
}

/// The previous highest bid goes back to its bidder, unless the host still
/// holds the auction; then the new bid comes in.
pub open spec fn bid_transfers(a: DateAuction, bidder: Address, amount: u64) -> Seq<Transfer> {
    if a.has_bids() {
        seq![out_of_vault(a.highest_bidder, a.highest_bid), into_vault(bidder, amount)]
    } else {
        seq![into_vault(bidder, amount)]
    }
}

/// What `handler` does: on refusal nothing; otherwise the auction becomes
/// `bid_result`, with the transfers of `bid_transfers`.
pub open spec fn place_bid_post(
    old: PlaceBid,
    new: PlaceBid,
    amount: u64,
    now: i64,
    r: Result<Outcome<BidPlaced>, SolmatesError>,
) -> bool {
    match bid_result(old.auction, old.bidder, amount, now) {
        Err(e) => r matches Err(e2) && e2 == e && new == old,
        Ok(a) => r matches Ok(o) && new == (PlaceBid { auction: a, ..old }) && o.transfers@
            == bid_transfers(old.auction, old.bidder, amount) && o.event == (BidPlaced {
            auction_id: old.auction.auction_id,
            bidder: old.bidder,
            amount,
            previous_bidder: old.auction.highest_bidder,
            new_end_time: a.end_time,
        }) && o.close_to is None,
    }
}

pub fn handler(ctx: &mut PlaceBid, bid_amount: u64, now: i64) -> (r: Result<
    Outcome<BidPlaced>,
    SolmatesError,
>)
    requires
        old(ctx).auction.wf(),
    ensures
        place_bid_post(*old(ctx), *final(ctx), bid_amount, now, r),
        final(ctx).auction.wf(),
        r matches Ok(o) ==> old(ctx).auction.owed() + vault_delta(o.transfers@)
            == final(ctx).auction.owed(),
{
    let auction = ctx.auction;
    if !(now < auction.end_time) {
        return Err(SolmatesError::AuctionEnded);
    }
    if !(bid_amount > auction.highest_bid) {
        return Err(SolmatesError::BidTooLow);
    }
    if (bid_amount as u128) < minimum_next_bid(auction.highest_bid) {
        return Err(SolmatesError::BidIncrementTooSmall);
    }
    if ctx.bidder == auction.host {
        return Err(SolmatesError::HostCannotBid);
    }
    let previous_bidder = auction.highest_bidder;
    let is_first_bid = previous_bidder == auction.host;

    // Where the difference leaves i64 the end is far away: no extension.
    let time_remaining: i64 = match auction.end_time.checked_sub(now) {
        Some(t) => t,
        None => i64::MAX,
    };
    let mut end_time: i64 = auction.end_time;
    let mut total_extended: i64 = auction.total_extended;
    if time_remaining < SNIPE_THRESHOLD && total_extended < MAX_SNIPE_EXTENSIONS {
        let left: i64 = MAX_SNIPE_EXTENSIONS - total_extended;
        let extension: i64 = if SNIPE_EXTENSION < left {
            SNIPE_EXTENSION
        } else {
            left
        };
        end_time = match end_time.checked_add(extension) {
            Some(e) => e,
            None => return Err(SolmatesError::ArithmeticOverflow),
        };
        total_extended = total_extended + extension;
    }
    assert(end_time == auction.end_time + snipe_extension(auction, now));

    let mut transfers: Vec<Transfer> = Vec::new();
    if !is_first_bid {
        transfers.push(out_of_vault_transfer(previous_bidder, auction.highest_bid));
    }
    transfers.push(into_vault_transfer(ctx.bidder, bid_amount));
    proof {
        if is_first_bid {
            assert(transfers@ =~= seq![into_vault(ctx.bidder, bid_amount)]);
            lemma_vault_delta_one(into_vault(ctx.bidder, bid_amount));
        } else {
            assert(transfers@ =~= seq![
                out_of_vault(previous_bidder, auction.highest_bid),
                into_vault(ctx.bidder, bid_amount),
            ]);
            lemma_vault_delta_two(
                out_of_vault(previous_bidder, auction.highest_bid),
                into_vault(ctx.bidder, bid_amount),
            );
        }
    }

    ctx.auction.highest_bidder = ctx.bidder;
    ctx.auction.highest_bid = bid_amount;
    ctx.auction.end_time = end_time;
    ctx.auction.total_extended = total_extended;

    let event = BidPlaced {
        auction_id: auction.auction_id,
        bidder: ctx.bidder,
        amount: bid_amount,
        previous_bidder,
        new_end_time: end_time,
    };
    Ok(Outcome { transfers, event, close_to: None })
}

/// The auction after a run of bids, each a bidder, an amount and a time:
/// those that go through are applied in turn, the others change nothing.
pub open spec fn run_bids(a: DateAuction, bids: Seq<(Address, u64, i64)>) -> DateAuction
    decreases bids.len(),
{
    if bids.len() == 0 {
        a
    } else {
        let prev = run_bids(a, bids.drop_last());
        let b = bids.last();
        match bid_result(prev, b.0, b.1, b.2) {
            Ok(next) => next,
            Err(_) => prev,
        }
    }
}

/// Monotonic bidding: a bid that goes through is strictly higher than the
/// one before and at least `MIN_BID_INCREMENT_BPS` above it, and its bidder is
/// not the host. A bid while the auction runs that is not higher is refused
/// as `BidTooLow`, one that raises by less as `BidIncrementTooSmall`, whoever
/// places it.
pub proof fn lemma_bid_increment(a: DateAuction, bidder: Address, amount: u64, now: i64)
    ensures
        bid_result(a, bidder, amount, now) matches Ok(next) ==> next.highest_bid == amount
            && amount > a.highest_bid && amount >= min_next_bid(a.highest_bid)
            && next.highest_bidder@ != a.host@,
        now < a.end_time && amount <= a.highest_bid ==> bid_result(
            a,
            bidder,
            amount,
            now,
        ) == Err::<DateAuction, SolmatesError>(SolmatesError::BidTooLow),
        now < a.end_time && a.highest_bid < amount < min_next_bid(
            a.highest_bid,
        ) ==> bid_result(a, bidder, amount, now) == Err::<DateAuction, SolmatesError>(
            SolmatesError::BidIncrementTooSmall,
        ),
{
}

/// One bid keeps the host and the record's identity, keeps the extension
/// within its cap, and moves the end time by exactly the extension it adds.
pub proof fn lemma_bid_step(a: DateAuction, bidder: Address, amount: u64, now: i64)
    requires
        a.wf(),
    ensures
        bid_result(a, bidder, amount, now) matches Ok(next) ==> {
            &&& next.wf()
            &&& next.host == a.host
            &&& next.auction_id == a.auction_id
            &&& next.total_extended >= a.total_extended
            &&& next.end_time - a.end_time == next.total_extended - a.total_extended
            &&& next.highest_bidder == bidder
            &&& next.has_bids()
        },
{
}

/// Snipe cap: from an auction within its cap, however many bids land and
/// when, the total extension stays within `MAX_SNIPE_EXTENSIONS`, the end
/// time has moved by exactly what was added to it, and the highest bid has
/// not gone down.
pub proof fn lemma_snipe_cap(a: DateAuction, bids: Seq<(Address, u64, i64)>)
    requires
        a.wf(),
    ensures
        run_bids(a, bids).wf(),
        run_bids(a, bids).total_extended <= MAX_SNIPE_EXTENSIONS,
        run_bids(a, bids).end_time - a.end_time == run_bids(a, bids).total_extended
            - a.total_extended,
        run_bids(a, bids).highest_bid >= a.highest_bid,
        run_bids(a, bids).host == a.host,
    decreases bids.len(),
{
    if bids.len() > 0 {
        lemma_snipe_cap(a, bids.drop_last());
        let prev = run_bids(a, bids.drop_last());
        let b = bids.last();
        lemma_bid_step(prev, b.0, b.1, b.2);
    }
}

} // verus!
