//! The recipient turns a paid direct message down, at any time while it is
//! pending: the full deposit goes back to the sender, no fee is taken, and
//! the escrow is closed.

use vstd::prelude::*;
use crate::address::Address;
use crate::errors::SolmatesError;
use crate::events::EscrowRefunded;
use crate::instructions::accept_dm::{check_escrow_accounts, escrow_accounts_result};
use crate::states::message_escrow::{
    decline_result, escrow_step, EscrowAction, EscrowStatus, MessageEscrow,
};
use crate::transfer::{out_of_vault, out_of_vault_transfer, single, vault_delta, Outcome};

verus! {

/// The accounts of a decline.
#[derive(Clone, Copy, Debug)]
pub struct DeclineDm {
    /// Receives the deposit back and the record's deposit.
    pub sender: Address,
    /// Signer; turns the message down.
    pub recipient: Address,
    pub mint: Address,
    pub escrow_address: Address,
    pub escrow: MessageEscrow,
}

impl DeclineDm {
    pub open spec fn check_result(&self, program_id: Seq<u8>) -> Result<(), SolmatesError> {
        escrow_accounts_result(
            self.sender,
            self.recipient,
            self.mint,
            self.escrow_address,
            self.escrow,
            program_id,
        )
    }

    pub fn check(&self, program_id: &Address) -> (r: Result<(), SolmatesError>)
        ensures
            r == self.check_result(program_id@),
    {
        check_escrow_accounts(
            &self.sender,
            &self.recipient,
            &self.mint,
            &self.escrow_address,
            &self.escrow,
            program_id,
        )
    }
}

pub open spec fn decline_dm_post(
    old: DeclineDm,
    new: DeclineDm,
    r: Result<Outcome<EscrowRefunded>, SolmatesError>,
) -> bool {
    match decline_result(old.escrow) {
        Err(e) => r matches Err(e2) && e2 == e && new == old,
        Ok(_) => r matches Ok(o) && new == (DeclineDm {
            escrow: MessageEscrow { status: EscrowStatus::Refunded, ..old.escrow },
            ..old
        }) && o.transfers@ == seq![out_of_vault(old.sender, old.escrow.amount)] && o.event == (
        EscrowRefunded {
            sender: old.escrow.sender,
            recipient: old.escrow.recipient,
            amount: old.escrow.amount,
        }) && o.close_to == Some(old.sender),
    }
}

pub fn handler(ctx: &mut DeclineDm) -> (r: Result<Outcome<EscrowRefunded>, SolmatesError>)
    ensures
        decline_dm_post(*old(ctx), *final(ctx), r),
        r matches Ok(o) ==> old(ctx).escrow.owed() + vault_delta(o.transfers@)
            == final(ctx).escrow.owed(),
        forall|t: i64|
            #[trigger] escrow_step(old(ctx).escrow, EscrowAction::Decline, t) == match r {
                Ok(_) => Ok::<MessageEscrow, SolmatesError>(final(ctx).escrow),
                Err(e) => Err(e),
            },
{
    let escrow = ctx.escrow;
    if escrow.status != EscrowStatus::Pending {
        return Err(SolmatesError::EscrowNotPending);
    }
    ctx.escrow.status = EscrowStatus::Refunded;
    let transfers = single(out_of_vault_transfer(ctx.sender, escrow.amount));
    let event = EscrowRefunded {
        sender: escrow.sender,
        recipient: escrow.recipient,
        amount: escrow.amount,
    };
    Ok(Outcome { transfers, event, close_to: Some(ctx.sender) })
}

} // verus!
