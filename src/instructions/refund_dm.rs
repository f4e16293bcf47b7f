//! The sender takes back the deposit of a paid direct message that has
//! expired without an answer; no fee is taken and the escrow is closed.

use vstd::prelude::*;
use crate::address::Address;
use crate::errors::SolmatesError;
use crate::events::EscrowRefunded;
use crate::instructions::accept_dm::{check_escrow_accounts, escrow_accounts_result};
use crate::states::message_escrow::{
    refund_result, escrow_step, EscrowAction, EscrowStatus, MessageEscrow,
};
use crate::transfer::{out_of_vault, out_of_vault_transfer, single, vault_delta, Outcome};

verus! {

/// The accounts of a refund.
#[derive(Clone, Copy, Debug)]
pub struct RefundDm {
    /// Signer; receives the deposit back and the record's deposit.
    pub sender: Address,
    /// Named by the record; not the signer.
    pub recipient: Address,
    pub mint: Address,
    pub escrow_address: Address,
    pub escrow: MessageEscrow,
}

impl RefundDm {
    pub open spec fn check_result(&self, program_id: Seq<u8>) -> Result<(), SolmatesError> {
        escrow_accounts_result(
            self.sender,
            self.recipient,
            self.mint,
            self.escrow_address,
            self.escrow,
            program_id,
        )
    }

    pub fn check(&self, program_id: &Address) -> (r: Result<(), SolmatesError>)
        ensures
            r == self.check_result(program_id@),
    {
        check_escrow_accounts(
            &self.sender,
            &self.recipient,
            &self.mint,
            &self.escrow_address,
            &self.escrow,
            program_id,
        )
    }
}

pub open spec fn refund_dm_post(
    old: RefundDm,
    new: RefundDm,
    now: i64,
    r: Result<Outcome<EscrowRefunded>, SolmatesError>,
) -> bool {
    match refund_result(old.escrow, now) {
        Err(e) => r matches Err(e2) && e2 == e && new == old,
        Ok(_) => r matches Ok(o) && new == (RefundDm {
            escrow: MessageEscrow { status: EscrowStatus::Refunded, ..old.escrow },
            ..old
        }) && o.transfers@ == seq![out_of_vault(old.sender, old.escrow.amount)] && o.event == (
        EscrowRefunded {
            sender: old.escrow.sender,
            recipient: old.escrow.recipient,
            amount: old.escrow.amount,
        }) && o.close_to == Some(old.sender),
    }
}

pub fn handler(ctx: &mut RefundDm, now: i64) -> (r: Result<Outcome<EscrowRefunded>, SolmatesError>)
    ensures
        refund_dm_post(*old(ctx), *final(ctx), now, r),
        r matches Ok(o) ==> old(ctx).escrow.owed() + vault_delta(o.transfers@)
            == final(ctx).escrow.owed(),
        escrow_step(old(ctx).escrow, EscrowAction::Refund, now) == match r {
            Ok(_) => Ok::<MessageEscrow, SolmatesError>(final(ctx).escrow),
            Err(e) => Err(e),
        },
{
    let escrow = ctx.escrow;
    if escrow.status != EscrowStatus::Pending {
        return Err(SolmatesError::EscrowNotPending);
    }
    if now <= escrow.expiry {
        return Err(SolmatesError::EscrowNotExpired);
    }
    ctx.escrow.status = EscrowStatus::Refunded;
    let transfers = single(out_of_vault_transfer(ctx.sender, escrow.amount));
    let event = EscrowRefunded {
        sender: escrow.sender,
        recipient: escrow.recipient,
        amount: escrow.amount,
    };
    Ok(Outcome { transfers, event, close_to: Some(ctx.sender) })
}

} // verus!
