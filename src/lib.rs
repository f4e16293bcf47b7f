//! Custody state machines for a peer-to-peer social marketplace: paid direct
//! messages held in escrow, timed auctions with snipe protection, and
//! adjustable referral bounties, together with the fee arithmetic and the
//! deterministic addressing of their custody records.

use vstd::prelude::*;

pub mod address;
pub mod errors;
pub mod events;
pub mod fees;
pub mod instructions;
pub mod solmates;
pub mod states;
pub mod transfer;

verus! {

/// How long a direct-message escrow stays open before the sender may take
/// the deposit back: 48 hours, in seconds.
pub const ESCROW_DURATION: i64 = 172800;

/// A bid that lands closer than this to the end of an auction extends it
/// (5 minutes, in seconds).
pub const SNIPE_THRESHOLD: i64 = 300;

/// How far one late bid pushes the end of an auction (5 minutes, in seconds).
pub const SNIPE_EXTENSION: i64 = 300;

/// Cap on the total extension of one auction (1 hour, in seconds).
pub const MAX_SNIPE_EXTENSIONS: i64 = 3600;

/// Smallest raise over the current highest bid, in basis points (5%).
pub const MIN_BID_INCREMENT_BPS: u64 = 500;

/// Platform fee on every settlement, in basis points (1%).
pub const PLATFORM_FEE_BPS: u16 = 100;

/// Basis points in a whole.
pub const BPS_DENOMINATOR: u64 = 10000;

/// Fixed configuration of a deployment: the program's own id, under which
/// record addresses are derived, and the one account that receives fees.
#[derive(Clone, Copy, Debug)]
pub struct ProgramConfig {
    pub program_id: address::Address,
    pub treasury: address::Address,
}

} // verus!
