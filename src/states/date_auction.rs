//! A timed auction. It accepts bids while the clock is before `end_time`;
//! the host is the highest bidder until a real bid lands.

use vstd::prelude::*;
use crate::address::Address;
use crate::MAX_SNIPE_EXTENSIONS;

verus! {

#[derive(Clone, Copy, Debug)]
pub struct DateAuction {
    pub host: Address,
    pub auction_id: u64,
    pub mint: Address,
    /// The host itself while no bid has been placed.
    pub highest_bidder: Address,
    pub highest_bid: u64,
    pub end_time: i64,
    /// Time added to `end_time` by late bids so far.
    pub total_extended: i64,
    pub bump: u8,
}

impl DateAuction {
    pub open spec fn has_bids(&self) -> bool {
        self.highest_bidder@ != self.host@
    }

    /// What the vault must hold: the highest bid once there is one.
    pub open spec fn owed(&self) -> int {
        if self.has_bids() {
            self.highest_bid as int
        } else {
            0
        }
    }

    /// The extension stays within its cap.
    pub open spec fn wf(&self) -> bool {
        0 <= self.total_extended <= MAX_SNIPE_EXTENSIONS
    }
}

} // verus!
