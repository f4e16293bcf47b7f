//! A sender opens a paid direct message: the deposit, at least the
//! recipient's price, goes into a new escrow's vault. Where the recipient has
//! an asset gate, the sender must show a token account of that mint holding
//! enough of it.

use vstd::prelude::*;
use crate::address::{
    is_canonical_bump,
    check_derived_address, escrow_seeds, is_derived_address, is_new_record_address,
    new_record_bump, profile_seeds, spec_escrow_seeds, spec_profile_seeds, Address,
};
use crate::errors::SolmatesError;
use crate::events::EscrowCreated;
use crate::states::message_escrow::{EscrowStatus, MessageEscrow};
use crate::states::user_profile::UserProfile;
use crate::transfer::{into_vault, into_vault_transfer, single, vault_delta, Outcome};
use crate::ESCROW_DURATION;

verus! {

/// What is read of a token account: its mint and its balance.
#[derive(Clone, Copy, Debug)]
pub struct TokenHolding {
    pub mint: Address,
    pub amount: u64,
}

/// The accounts of a new escrow.
#[derive(Clone, Copy, Debug)]
pub struct DepositForDm {
    /// Signer; pays the deposit and the record.
    pub sender: Address,
    pub recipient: Address,
    pub recipient_profile_address: Address,
    pub recipient_profile: UserProfile,
    pub mint: Address,
    /// The sender's account of the recipient's gate mint, where there is one.
    pub sender_gate_token_account: Option<TokenHolding>,
    /// Where the new record goes.
    pub escrow_address: Address,
    /// The record, written by the handler.
    pub escrow: MessageEscrow,
}

impl DepositForDm {
    pub open spec fn accounts_valid(&self, program_id: Seq<u8>) -> bool {
        &&& is_derived_address(
            spec_profile_seeds(self.recipient@),
            self.recipient_profile.bump,
            program_id,
            self.recipient_profile_address@,
        )
        &&& is_new_record_address(
            spec_escrow_seeds(self.sender@, self.recipient@),
            program_id,
            self.escrow_address@,
        )
    }

    /// On success, the new record's canonical bump.
    pub fn check(&self, program_id: &Address) -> (r: Result<u8, SolmatesError>)
        ensures
            r is Ok <==> self.accounts_valid(program_id@),
            r matches Ok(b) ==> is_canonical_bump(
                spec_escrow_seeds(self.sender@, self.recipient@),
                program_id@,
                b,
            )
                && is_derived_address(
                spec_escrow_seeds(self.sender@, self.recipient@),
                b,
                program_id@,
                self.escrow_address@,
            ),
            r matches Err(e) ==> e == SolmatesError::InvalidRecordAddress,
    {
        if !check_derived_address(
            profile_seeds(&self.recipient),
            self.recipient_profile.bump,
            program_id,
            &self.recipient_profile_address,
        ) {
            return Err(SolmatesError::InvalidRecordAddress);
        }
        let seeds = escrow_seeds(&self.sender, &self.recipient);
        match new_record_bump(&seeds, program_id, &self.escrow_address) {
            Some(b) => Ok(b),
            None => Err(SolmatesError::InvalidRecordAddress),
        }
    }
}

/// Why the recipient's profile refuses a deposit of `amount`, if it does:
/// the price first, then the asset gate.
pub open spec fn gate_result(
    profile: UserProfile,
    gate_account: Option<TokenHolding>,
    amount: u64,
) -> Result<(), SolmatesError> {
    if amount < profile.dm_price {
        Err(SolmatesError::InsufficientDmDeposit)
    } else {
        match profile.asset_gate_mint {
            None => Ok(()),
            Some(gate) => match gate_account {
                None => Err(SolmatesError::AssetGateRequired),
                Some(held) => if held.mint@ != gate@ {
                    Err(SolmatesError::InvalidAssetGate)
                } else if held.amount < profile.min_asset_amount {
                    Err(SolmatesError::InsufficientAssetBalance)
                } else {
                    Ok(())
                },
            },
        }
    }
}

/// The accounts after the deposit, or why it is refused.
pub open spec fn deposit_result(ctx: DepositForDm, bump: u8, amount: u64, now: i64) -> Result<
    DepositForDm,
    SolmatesError,
> {
    match gate_result(ctx.recipient_profile, ctx.sender_gate_token_account, amount) {
        Err(e) => Err(e),
        Ok(_) => if now + ESCROW_DURATION > i64::MAX {
            Err(SolmatesError::ArithmeticOverflow)
        } else {
            Ok(
                DepositForDm {
                    escrow: MessageEscrow {
                        sender: ctx.sender,
                        recipient: ctx.recipient,
                        mint: ctx.mint,
                        amount,
                        expiry: (now + ESCROW_DURATION) as i64,
                        status: EscrowStatus::Pending,
                        bump,
                    },
                    ..ctx
                },
            )
        },
    }
}

pub open spec fn deposit_for_dm_post(
    old: DepositForDm,
    new: DepositForDm,
    bump: u8,
    amount: u64,
    now: i64,
    r: Result<Outcome<EscrowCreated>, SolmatesError>,
) -> bool {
    match deposit_result(old, bump, amount, now) {
        Err(e) => r matches Err(e2) && e2 == e && new == old,
        Ok(d) => r matches Ok(o) && new == d && o.transfers@ == seq![into_vault(old.sender, amount)]
            && o.event == (EscrowCreated {
            sender: old.sender,
            recipient: old.recipient,
            amount,
            expiry: d.escrow.expiry,
        }) && o.close_to is None,
    }
}

pub fn handler(ctx: &mut DepositForDm, bump: u8, amount: u64, now: i64) -> (r: Result<
    Outcome<EscrowCreated>,
    SolmatesError,
>)
    ensures
        deposit_for_dm_post(*old(ctx), *final(ctx), bump, amount, now, r),
        r matches Ok(o) ==> vault_delta(o.transfers@) == final(ctx).escrow.owed(),
{
    let profile = ctx.recipient_profile;
    if amount < profile.dm_price {
        return Err(SolmatesError::InsufficientDmDeposit);
    }
    match profile.asset_gate_mint {
        None => {},
        Some(gate) => match ctx.sender_gate_token_account {
            None => return Err(SolmatesError::AssetGateRequired),
            Some(held) => {
                if !(held.mint == gate) {
                    return Err(SolmatesError::InvalidAssetGate);
                }
                if held.amount < profile.min_asset_amount {
                    return Err(SolmatesError::InsufficientAssetBalance);
                }
            },
        },
    }
    let expiry = match now.checked_add(ESCROW_DURATION) {
        Some(t) => t,
        None => return Err(SolmatesError::ArithmeticOverflow),
    };
    ctx.escrow = MessageEscrow {
        sender: ctx.sender,
        recipient: ctx.recipient,
        mint: ctx.mint,
        amount,
        expiry,
        status: EscrowStatus::Pending,
        bump,
    };
    let transfers = single(into_vault_transfer(ctx.sender, amount));
    let event = EscrowCreated { sender: ctx.sender, recipient: ctx.recipient, amount, expiry };
    Ok(Outcome { transfers, event, close_to: None })
}

} // verus!
