//! The recipient accepts a paid direct message: the deposit, less the
//! platform fee, goes to the recipient, the fee to the treasury, and the
//! escrow is closed.

use vstd::prelude::*;
use crate::address::{
    check_derived_address, escrow_seeds, is_derived_address, spec_escrow_seeds, Address,
};
use crate::errors::SolmatesError;
use crate::events::EscrowAccepted;
use crate::fees::settle;
use crate::states::message_escrow::{
    accept_result, escrow_step, EscrowAction, EscrowStatus, MessageEscrow,
};
use crate::transfer::{payout, payout_transfers, vault_delta, Outcome};
use crate::{ProgramConfig, PLATFORM_FEE_BPS};

verus! {

/// The escrow is the record of `sender` towards `recipient` and names both,
/// and `mint`.
pub open spec fn escrow_accounts_result(
    sender: Address,
    recipient: Address,
    mint: Address,
    escrow_address: Address,
    escrow: MessageEscrow,
    program_id: Seq<u8>,
) -> Result<(), SolmatesError> {
    if !is_derived_address(
        spec_escrow_seeds(sender@, recipient@),
        escrow.bump,
        program_id,
        escrow_address@,
    ) {
        Err(SolmatesError::InvalidRecordAddress)
    } else if escrow.sender@ != sender@ || escrow.recipient@ != recipient@ || escrow.mint@
        != mint@ {
        Err(SolmatesError::AccountMismatch)
    } else {
        Ok(())
    }
}

pub fn check_escrow_accounts(
    sender: &Address,
    recipient: &Address,
    mint: &Address,
    escrow_address: &Address,
    escrow: &MessageEscrow,
    program_id: &Address,
) -> (r: Result<(), SolmatesError>)
    ensures
        r == escrow_accounts_result(
            *sender,
            *recipient,
            *mint,
            *escrow_address,
            *escrow,
            program_id@,
        ),
{
    let seeds = escrow_seeds(sender, recipient);
    if !check_derived_address(seeds, escrow.bump, program_id, escrow_address) {
        return Err(SolmatesError::InvalidRecordAddress);
    }
    if !(escrow.sender == *sender) || !(escrow.recipient == *recipient) || !(escrow.mint == *mint) {
        return Err(SolmatesError::AccountMismatch);
    }
    Ok(())
}

/// The accounts of an acceptance.
#[derive(Clone, Copy, Debug)]
pub struct AcceptDm {
    /// Receives the record's deposit.
    pub sender: Address,
    /// Signer; receives the net amount.
    pub recipient: Address,
    pub mint: Address,
    pub escrow_address: Address,
    pub escrow: MessageEscrow,
    /// Receives the fee; must be the configured treasury.
    pub treasury: Address,
}

impl AcceptDm {
    pub open spec fn check_result(&self, config: ProgramConfig) -> Result<(), SolmatesError> {
        match escrow_accounts_result(
            self.sender,
            self.recipient,
            self.mint,
            self.escrow_address,
            self.escrow,
            config.program_id@,
        ) {
            Err(e) => Err(e),
            Ok(_) => if self.treasury@ != config.treasury@ {
                Err(SolmatesError::InvalidTreasury)
            } else {
                Ok(())
            },
        }
    }

    pub fn check(&self, config: &ProgramConfig) -> (r: Result<(), SolmatesError>)
        ensures
            r == self.check_result(*config),
    {
        match check_escrow_accounts(
            &self.sender,
            &self.recipient,
            &self.mint,
            &self.escrow_address,
            &self.escrow,
            &config.program_id,
        ) {
            Err(e) => return Err(e),
            Ok(_) => {},
        }
        if !(self.treasury == config.treasury) {
            return Err(SolmatesError::InvalidTreasury);
        }
        Ok(())
    }
}

pub open spec fn accept_dm_post(
    old: AcceptDm,
    new: AcceptDm,
    r: Result<Outcome<EscrowAccepted>, SolmatesError>,
) -> bool {
    match accept_result(old.escrow) {
        Err(e) => r matches Err(e2) && e2 == e && new == old,
        Ok(s) => r matches Ok(o) && new == (AcceptDm {
            escrow: MessageEscrow { status: EscrowStatus::Accepted, ..old.escrow },
            ..old
        }) && o.transfers@ == payout_transfers(old.recipient, old.treasury, s) && o.event == (
        EscrowAccepted {
            sender: old.escrow.sender,
            recipient: old.escrow.recipient,
            amount: old.escrow.amount,
            fee: s.fee,
        }) && o.close_to == Some(old.sender),
    }
}

pub fn handler(ctx: &mut AcceptDm) -> (r: Result<Outcome<EscrowAccepted>, SolmatesError>)
    ensures
        accept_dm_post(*old(ctx), *final(ctx), r),
        r matches Ok(o) ==> old(ctx).escrow.owed() + vault_delta(o.transfers@)
            == final(ctx).escrow.owed(),
        forall|t: i64|
            #[trigger] escrow_step(old(ctx).escrow, EscrowAction::Accept, t) == match r {
                Ok(_) => Ok::<MessageEscrow, SolmatesError>(final(ctx).escrow),
                Err(e) => Err(e),
            },
{
    let escrow = ctx.escrow;
    if escrow.status != EscrowStatus::Pending {
        return Err(SolmatesError::EscrowNotPending);
    }
    let s = match settle(escrow.amount, PLATFORM_FEE_BPS) {
        Ok(s) => s,
        Err(e) => return Err(e),
    };
    ctx.escrow.status = EscrowStatus::Accepted;
    let transfers = payout(ctx.recipient, ctx.treasury, s);
    let event = EscrowAccepted {
        sender: escrow.sender,
        recipient: escrow.recipient,
        amount: escrow.amount,
        fee: s.fee,
    };
    Ok(Outcome { transfers, event, close_to: Some(ctx.sender) })
}

} // verus!
