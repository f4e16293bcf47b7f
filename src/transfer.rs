//! Movements of the custody asset that a transition asks for.
//!
//! A transition decides and lists its transfers; the caller carries them out
//! in order, all or none, through the token program. Transfers out of the
//! vault are signed by the record's derived authority.

use vstd::prelude::*;
use crate::address::Address;
use crate::fees::Settlement;

verus! {

/// One side of a transfer.
#[derive(Clone, Copy, Debug)]
pub enum Endpoint {
    /// The custody vault of the record being operated on.
    Vault,
    /// The token account that `Address` holds for the record's mint.
    Wallet(Address),
}

/// Move `amount` from `from` to `to`.
#[derive(Clone, Copy, Debug)]
pub struct Transfer {
    pub from: Endpoint,
    pub to: Endpoint,
    pub amount: u64,
}

pub open spec fn into_vault(from: Address, amount: u64) -> Transfer {
    Transfer { from: Endpoint::Wallet(from), to: Endpoint::Vault, amount }
}

pub open spec fn out_of_vault(to: Address, amount: u64) -> Transfer {
    Transfer { from: Endpoint::Vault, to: Endpoint::Wallet(to), amount }
}

/// What one transfer does to the vault's balance.
pub open spec fn vault_flow(t: Transfer) -> int {
    (if t.to is Vault { t.amount as int } else { 0 }) - (if t.from is Vault {
        t.amount as int
    } else {
        0
    })
}

/// What a list of transfers does to the vault's balance.
pub open spec fn vault_delta(ts: Seq<Transfer>) -> int
    decreases ts.len(),
{
    if ts.len() == 0 {
        0
    } else {
        vault_delta(ts.drop_last()) + vault_flow(ts.last())
    }
}

/// The effects of a transition that went through: the transfers to make, the
/// event to publish and, where the record is closed, the party that gets its
/// opening deposit back.
#[derive(Debug)]
pub struct Outcome<E> {
    pub transfers: Vec<Transfer>,
    pub event: E,
    pub close_to: Option<Address>,
}

pub fn into_vault_transfer(from: Address, amount: u64) -> (r: Transfer)
    ensures
        r == into_vault(from, amount),
{
    Transfer { from: Endpoint::Wallet(from), to: Endpoint::Vault, amount }
}

pub fn out_of_vault_transfer(to: Address, amount: u64) -> (r: Transfer)
    ensures
        r == out_of_vault(to, amount),
{
    Transfer { from: Endpoint::Vault, to: Endpoint::Wallet(to), amount }
}

/// A settlement paid out of the vault: the net to `to`, then the fee, if
/// any, to `treasury`.
pub open spec fn payout_transfers(to: Address, treasury: Address, s: Settlement) -> Seq<Transfer> {
    if s.fee > 0 {
        seq![out_of_vault(to, s.net), out_of_vault(treasury, s.fee)]
    } else {
        seq![out_of_vault(to, s.net)]
    }
}

pub fn payout(to: Address, treasury: Address, s: Settlement) -> (r: Vec<Transfer>)
    ensures
        r@ == payout_transfers(to, treasury, s),
        vault_delta(r@) == -(s.net + s.fee),
{
    let mut r: Vec<Transfer> = Vec::new();
    r.push(out_of_vault_transfer(to, s.net));
    if s.fee > 0 {
        r.push(out_of_vault_transfer(treasury, s.fee));
        proof {
            assert(r@ =~= seq![out_of_vault(to, s.net), out_of_vault(treasury, s.fee)]);
            lemma_vault_delta_two(out_of_vault(to, s.net), out_of_vault(treasury, s.fee));
        }
    } else {
        proof {
            assert(r@ =~= seq![out_of_vault(to, s.net)]);
            lemma_vault_delta_one(out_of_vault(to, s.net));
        }
    }
    r
}

/// A single transfer.
pub fn single(t: Transfer) -> (r: Vec<Transfer>)
    ensures
        r@ == seq![t],
        vault_delta(r@) == vault_flow(t),
{
    let r = vec![t];
    proof {
        assert(r@ =~= seq![t]);
        lemma_vault_delta_one(t);
    }
    r
}

pub(crate) proof fn lemma_vault_delta_empty()
    ensures
        vault_delta(Seq::<Transfer>::empty()) == 0,
{
}

pub(crate) proof fn lemma_vault_delta_one(a: Transfer)
    ensures
        vault_delta(seq![a]) == vault_flow(a),
{
    assert(seq![a].drop_last() =~= Seq::<Transfer>::empty());
    assert(vault_delta(Seq::<Transfer>::empty()) == 0);
}

pub(crate) proof fn lemma_vault_delta_two(a: Transfer, b: Transfer)
    ensures
        vault_delta(seq![a, b]) == vault_flow(a) + vault_flow(b),
{
    assert(seq![a, b].drop_last() =~= seq![a]);
    lemma_vault_delta_one(a);
}

} // verus!
