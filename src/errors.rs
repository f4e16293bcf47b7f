//! Why an operation was refused. A refused operation has no effect.

use vstd::prelude::*;

verus! {

#[derive(Clone, Copy, Debug, PartialEq, Eq, Structural)]
pub enum SolmatesError {
    /// Bid amount must be higher than the current highest bid.
    BidTooLow,
    /// Bid increment too small: it must be at least 5% higher.
    BidIncrementTooSmall,
    /// The auction has ended.
    AuctionEnded,
    /// The host cannot bid on their own auction: the host stands for "no bid
    /// yet".
    HostCannotBid,
    /// The auction has not ended yet.
    AuctionNotEnded,
    /// No bids were placed on this auction.
    NoBidsPlaced,
    /// An auction with bids cannot be cancelled.
    AuctionHasBids,
    /// The escrow has not expired yet.
    EscrowNotExpired,
    /// The escrow is not pending.
    EscrowNotPending,
    /// The caller is not allowed to do this.
    Unauthorized,
    /// Token balance too low for the recipient's asset gate.
    InsufficientAssetBalance,
    /// The token account is not of the asset gate's mint.
    InvalidAssetGate,
    /// The recipient has an asset gate and no token account was given for it.
    AssetGateRequired,
    /// The deposit is below the recipient's price for a direct message.
    InsufficientDmDeposit,
    /// The bounty is not open.
    BountyNotOpen,
    /// The previous bidder given is not the current highest bidder.
    InvalidPreviousBidder,
    /// The fee account is not the configured treasury.
    InvalidTreasury,
    /// An amount or a time left the range of its integer type.
    ArithmeticOverflow,
    /// A record is not at the address that its seeds and bump derive.
    InvalidRecordAddress,
    /// A record names another party or mint than the one given.
    AccountMismatch,
}

} // verus!
