//! A user's profile: the price of a direct message, an optional asset gate
//! and the counter that numbers the user's auctions.

use vstd::prelude::*;
use crate::address::Address;

verus! {

#[derive(Clone, Copy, Debug)]
pub struct UserProfile {
    pub authority: Address,
    /// Least deposit that a direct message to this user must carry.
    pub dm_price: u64,
    /// Mint of which a sender must hold at least `min_asset_amount`.
    pub asset_gate_mint: Option<Address>,
    pub min_asset_amount: u64,
    /// Number of auctions this user has created; the next one gets this id.
    pub auction_count: u64,
    pub bump: u8,
}

} // verus!
