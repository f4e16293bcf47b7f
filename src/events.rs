//! What each transition reports once it has gone through. Amounts are
//! gross; where a fee was taken it is reported beside them.

use vstd::prelude::*;
use crate::address::Address;

verus! {

#[derive(Clone, Copy, Debug)]
pub struct ProfileCreated {
    pub authority: Address,
    pub dm_price: u64,
}

#[derive(Clone, Copy, Debug)]
pub struct ProfileUpdated {
    pub authority: Address,
    pub dm_price: u64,
}

#[derive(Clone, Copy, Debug)]
pub struct EscrowCreated {
    pub sender: Address,
    pub recipient: Address,
    pub amount: u64,
    pub expiry: i64,
}

#[derive(Clone, Copy, Debug)]
pub struct EscrowAccepted {
    pub sender: Address,
    pub recipient: Address,
    pub amount: u64,
    pub fee: u64,
}

#[derive(Clone, Copy, Debug)]
pub struct EscrowRefunded {
    pub sender: Address,
    pub recipient: Address,
    pub amount: u64,
}

#[derive(Clone, Copy, Debug)]
pub struct AuctionCreated {
    pub host: Address,
    pub auction_id: u64,
    pub start_price: u64,
    pub end_time: i64,
}

#[derive(Clone, Copy, Debug)]
pub struct BidPlaced {
    pub auction_id: u64,
    pub bidder: Address,
    pub amount: u64,
    pub previous_bidder: Address,
    pub new_end_time: i64,
}

#[derive(Clone, Copy, Debug)]
pub struct AuctionCancelled {
    pub host: Address,
    pub auction_id: u64,
}

#[derive(Clone, Copy, Debug)]
pub struct AuctionClaimed {
    pub auction_id: u64,
    pub host: Address,
    pub winner: Address,
    pub amount: u64,
    pub fee: u64,
}

#[derive(Clone, Copy, Debug)]
pub struct BountyCreated {
    pub issuer: Address,
    pub reward_amount: u64,
}

#[derive(Clone, Copy, Debug)]
pub struct BountyUpdated {
    pub issuer: Address,
    pub new_amount: u64,
}

#[derive(Clone, Copy, Debug)]
pub struct BountyPaid {
    pub issuer: Address,
    pub matchmaker: Address,
    pub amount: u64,
    pub fee: u64,
}

#[derive(Clone, Copy, Debug)]
pub struct BountyCancelled {
    pub issuer: Address,
    pub amount: u64,
}

} // verus!
