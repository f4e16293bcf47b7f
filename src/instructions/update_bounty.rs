//! The issuer changes the reward of an open bounty: a raise is pulled from
//! the issuer, a cut is sent back, and the record then holds the new amount.

use vstd::prelude::*;
use crate::address::Address;
use crate::errors::SolmatesError;
use crate::events::BountyUpdated;
use crate::instructions::create_bounty::{bounty_accounts_result, check_bounty_accounts};
use crate::states::bounty_vault::{BountyStatus, BountyVault};
use crate::transfer::{
    into_vault, into_vault_transfer, lemma_vault_delta_empty, out_of_vault, out_of_vault_transfer,
    single, vault_delta, Outcome, Transfer,
};

verus! {

/// The accounts of an update.
#[derive(Clone, Copy, Debug)]
pub struct UpdateBounty {
    /// Signer; pays a raise and receives a cut.
    pub issuer: Address,
    pub mint: Address,
    pub bounty_address: Address,
    pub bounty: BountyVault,
}

impl UpdateBounty {
    pub open spec fn check_result(&self, program_id: Seq<u8>) -> Result<(), SolmatesError> {
        bounty_accounts_result(self.issuer, self.mint, self.bounty_address, self.bounty, program_id)
    }

    pub fn check(&self, program_id: &Address) -> (r: Result<(), SolmatesError>)
        ensures
            r == self.check_result(program_id@),
    {
        check_bounty_accounts(
            &self.issuer,
            &self.mint,
            &self.bounty_address,
            &self.bounty,
            program_id,
        )
    }
}

/// The difference between the old and the new reward, moved between the
/// issuer and the vault; nothing where they are equal.
pub open spec fn adjustment_transfers(b: BountyVault, new_amount: u64) -> Seq<Transfer> {
    if new_amount > b.reward_amount {
        seq![into_vault(b.issuer, (new_amount - b.reward_amount) as u64)]
    } else if new_amount < b.reward_amount {
        seq![out_of_vault(b.issuer, (b.reward_amount - new_amount) as u64)]
    } else {
        Seq::empty()
    }
}

pub open spec fn update_bounty_post(
    old: UpdateBounty,
    new: UpdateBounty,
    new_amount: u64,
    r: Result<Outcome<BountyUpdated>, SolmatesError>,
) -> bool {
    if old.bounty.status != BountyStatus::Open {
        r matches Err(e) && e == SolmatesError::BountyNotOpen && new == old
    } else {
        r matches Ok(o) && new == (UpdateBounty {
            bounty: BountyVault { reward_amount: new_amount, ..old.bounty },
            ..old
        }) && o.transfers@ == adjustment_transfers(old.bounty, new_amount) && o.event == (
        BountyUpdated { issuer: old.bounty.issuer, new_amount }) && o.close_to is None
    }
}

pub fn handler(ctx: &mut UpdateBounty, new_amount: u64) -> (r: Result<
    Outcome<BountyUpdated>,
    SolmatesError,
>)
    ensures
        update_bounty_post(*old(ctx), *final(ctx), new_amount, r),
        r matches Ok(o) ==> old(ctx).bounty.owed() + vault_delta(o.transfers@)
            == final(ctx).bounty.owed(),
{
    let bounty = ctx.bounty;
    if bounty.status != BountyStatus::Open {
        return Err(SolmatesError::BountyNotOpen);
    }
    let current = bounty.reward_amount;
    let transfers: Vec<Transfer> = if new_amount > current {
        single(into_vault_transfer(bounty.issuer, new_amount - current))
    } else if new_amount < current {
        single(out_of_vault_transfer(bounty.issuer, current - new_amount))
    } else {
        let none: Vec<Transfer> = Vec::new();
        proof {
            lemma_vault_delta_empty();
            assert(none@ =~= Seq::<Transfer>::empty());
        }
        none
    };
    ctx.bounty.reward_amount = new_amount;
    let event = BountyUpdated { issuer: bounty.issuer, new_amount };
    Ok(Outcome { transfers, event, close_to: None })
}

} // verus!
