//! A referral bounty: the reward waits in the vault, adjustable by the
//! issuer, until it is paid to a matchmaker or cancelled.

use vstd::prelude::*;
use crate::address::Address;

verus! {

#[derive(Clone, Copy, Debug, PartialEq, Eq, Structural)]
pub enum BountyStatus {
    Open,
    Filled,
    Cancelled,
}

#[derive(Clone, Copy, Debug)]
pub struct BountyVault {
    pub issuer: Address,
    pub mint: Address,
    pub reward_amount: u64,
    pub status: BountyStatus,
    pub bump: u8,
}

impl BountyVault {
    /// What the vault must hold: the reward while open, nothing after.
    pub open spec fn owed(&self) -> int {
        if self.status == BountyStatus::Open {
            self.reward_amount as int
        } else {
            0
        }
    }
}

} // verus!
