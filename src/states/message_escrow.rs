//! A paid direct message: the deposit waits in the vault until the recipient
//! accepts or declines, or the sender takes it back after expiry.

use vstd::prelude::*;
use crate::address::Address;
use crate::errors::SolmatesError;
use crate::fees::{settlement, Settlement};
use crate::PLATFORM_FEE_BPS;

verus! {

#[derive(Clone, Copy, Debug, PartialEq, Eq, Structural)]
pub enum EscrowStatus {
    Pending,
    Accepted,
    Refunded,
}

#[derive(Clone, Copy, Debug)]
pub struct MessageEscrow {
    pub sender: Address,
    pub recipient: Address,
    pub mint: Address,
    pub amount: u64,
    /// Unix time after which the sender may take the deposit back.
    pub expiry: i64,
    pub status: EscrowStatus,
    pub bump: u8,
}

impl MessageEscrow {
    /// What the vault must hold: the deposit while pending, nothing after.
    pub open spec fn owed(&self) -> int {
        if self.status == EscrowStatus::Pending {
            self.amount as int
        } else {
            0
        }
    }
}

/// The settlement of an acceptance, or why it is refused.
pub open spec fn accept_result(e: MessageEscrow) -> Result<Settlement, SolmatesError> {
    if e.status != EscrowStatus::Pending {
        Err(SolmatesError::EscrowNotPending)
    } else {
        settlement(e.amount, PLATFORM_FEE_BPS)
    }
}

/// Whether the recipient may decline: at any time while pending.
pub open spec fn decline_result(e: MessageEscrow) -> Result<(), SolmatesError> {
    if e.status != EscrowStatus::Pending {
        Err(SolmatesError::EscrowNotPending)
    } else {
        Ok(())
    }
}

/// Whether the sender may take the deposit back at `now`: while pending,
/// once the expiry has passed.
pub open spec fn refund_result(e: MessageEscrow, now: i64) -> Result<(), SolmatesError> {
    if e.status != EscrowStatus::Pending {
        Err(SolmatesError::EscrowNotPending)
    } else if now <= e.expiry {
        Err(SolmatesError::EscrowNotExpired)
    } else {
        Ok(())
    }
}

/// The three ways an escrow ends.
#[derive(Clone, Copy, Debug, PartialEq, Eq, Structural)]
pub enum EscrowAction {
    Accept,
    Decline,
    Refund,
}

/// The escrow after `action` at `now`, or why it is refused.
pub open spec fn escrow_step(e: MessageEscrow, action: EscrowAction, now: i64) -> Result<
    MessageEscrow,
    SolmatesError,
> {
    match action {
        EscrowAction::Accept => match accept_result(e) {
            Ok(_) => Ok(MessageEscrow { status: EscrowStatus::Accepted, ..e }),
            Err(x) => Err(x),
        },
        EscrowAction::Decline => match decline_result(e) {
            Ok(_) => Ok(MessageEscrow { status: EscrowStatus::Refunded, ..e }),
            Err(x) => Err(x),
        },
        EscrowAction::Refund => match refund_result(e, now) {
            Ok(_) => Ok(MessageEscrow { status: EscrowStatus::Refunded, ..e }),
            Err(x) => Err(x),
        },
    }
}

/// At most one terminal transition: after any of accept, decline or refund
/// has gone through, every further one fails with `EscrowNotPending`.
pub proof fn lemma_one_terminal_transition(
    e: MessageEscrow,
    first: EscrowAction,
    t1: i64,
    second: EscrowAction,
    t2: i64,
)
    ensures
        escrow_step(e, first, t1) matches Ok(after) ==> escrow_step(after, second, t2) == Err::<
            MessageEscrow,
            SolmatesError,
        >(SolmatesError::EscrowNotPending),
{
}

} // verus!
