use solmates::address::{escrow_seeds, find_record_address, profile_seeds, Address};
use solmates::errors::SolmatesError;
use solmates::instructions::accept_dm::AcceptDm;
use solmates::instructions::decline_dm::DeclineDm;
use solmates::instructions::deposit_for_dm::{DepositForDm, TokenHolding};
use solmates::instructions::refund_dm::RefundDm;
use solmates::solmates::{accept_dm, decline_dm, deposit_for_dm, refund_dm};
use solmates::states::message_escrow::{EscrowStatus, MessageEscrow};
use solmates::states::user_profile::UserProfile;
use solmates::transfer::{Endpoint, Transfer};
use solmates::{ProgramConfig, ESCROW_DURATION};

fn key(n: u8) -> Address {
    Address::new([n; 32])
}

fn config() -> ProgramConfig {
    ProgramConfig { program_id: key(200), treasury: key(250) }
}

const SENDER: u8 = 1;
const RECIPIENT: u8 = 2;
const MINT: u8 = 3;
const GATE: u8 = 4;

fn blank_escrow() -> MessageEscrow {
    MessageEscrow {
        sender: key(0),
        recipient: key(0),
        mint: key(0),
        amount: 0,
        expiry: 0,
        status: EscrowStatus::Pending,
        bump: 0,
    }
}

fn deposit_ctx(dm_price: u64, gate: Option<(u64, Option<TokenHolding>)>) -> DepositForDm {
    let cfg = config();
    let (profile_address, profile_bump) =
        find_record_address(&profile_seeds(&key(RECIPIENT)), &cfg.program_id).unwrap();
    let (escrow_address, _) =
        find_record_address(&escrow_seeds(&key(SENDER), &key(RECIPIENT)), &cfg.program_id)
            .unwrap();
    let (asset_gate_mint, min_asset_amount, held) = match gate {
        Some((min, held)) => (Some(key(GATE)), min, held),
        None => (None, 0, None),
    };
    DepositForDm {
        sender: key(SENDER),
        recipient: key(RECIPIENT),
        recipient_profile_address: profile_address,
        recipient_profile: UserProfile {
            authority: key(RECIPIENT),
            dm_price,
            asset_gate_mint,
            min_asset_amount,
            auction_count: 0,
            bump: profile_bump,
        },
        mint: key(MINT),
        sender_gate_token_account: held,
        escrow_address,
        escrow: blank_escrow(),
    }
}

fn open_escrow(amount: u64, now: i64) -> (Address, MessageEscrow) {
    let mut ctx = deposit_ctx(50, None);
    deposit_for_dm(&config(), &mut ctx, amount, now).unwrap();
    (ctx.escrow_address, ctx.escrow)
}

fn accept_ctx(escrow_address: Address, escrow: MessageEscrow) -> AcceptDm {
    AcceptDm {
        sender: key(SENDER),
        recipient: key(RECIPIENT),
        mint: key(MINT),
        escrow_address,
        escrow,
        treasury: key(250),
    }
}

fn decline_ctx(escrow_address: Address, escrow: MessageEscrow) -> DeclineDm {
    DeclineDm {
        sender: key(SENDER),
        recipient: key(RECIPIENT),
        mint: key(MINT),
        escrow_address,
        escrow,
    }
}

fn refund_ctx(escrow_address: Address, escrow: MessageEscrow) -> RefundDm {
    RefundDm {
        sender: key(SENDER),
        recipient: key(RECIPIENT),
        mint: key(MINT),
        escrow_address,
        escrow,
    }
}

fn is_out(t: &Transfer, to: Address, amount: u64) -> bool {
    matches!(t.from, Endpoint::Vault)
        && matches!(t.to, Endpoint::Wallet(a) if a == to)
        && t.amount == amount
}

#[test]
fn deposit_below_price_is_refused() {
    let mut ctx = deposit_ctx(100, None);
    let r = deposit_for_dm(&config(), &mut ctx, 50, 0);
    assert_eq!(r.unwrap_err(), SolmatesError::InsufficientDmDeposit);
    assert_eq!(ctx.escrow.amount, 0);
    assert!(ctx.escrow.sender == key(0));
}

#[test]
fn deposit_opens_pending_escrow() {
    let mut ctx = deposit_ctx(100, None);
    let o = deposit_for_dm(&config(), &mut ctx, 150, 1000).unwrap();
    assert_eq!(ctx.escrow.amount, 150);
    assert_eq!(ctx.escrow.expiry, 1000 + ESCROW_DURATION);
    assert_eq!(ctx.escrow.expiry, 1000 + 48 * 60 * 60);
    assert_eq!(ctx.escrow.status, EscrowStatus::Pending);
    assert!(ctx.escrow.sender == key(SENDER) && ctx.escrow.recipient == key(RECIPIENT));
    assert_eq!(o.transfers.len(), 1);
    assert!(matches!(o.transfers[0].from, Endpoint::Wallet(a) if a == key(SENDER)));
    assert!(matches!(o.transfers[0].to, Endpoint::Vault));
    assert_eq!(o.transfers[0].amount, 150);
    assert_eq!(o.event.amount, 150);
    assert_eq!(o.event.expiry, 1000 + ESCROW_DURATION);
    assert!(o.close_to.is_none());
}

#[test]
fn deposit_at_wrong_address_is_refused() {
    let mut ctx = deposit_ctx(100, None);
    ctx.escrow_address = key(77);
    let r = deposit_for_dm(&config(), &mut ctx, 150, 0);
    assert_eq!(r.unwrap_err(), SolmatesError::InvalidRecordAddress);
}

#[test]
fn deposit_asset_gate_checks() {
    let held = |mint: u8, amount: u64| Some(TokenHolding { mint: key(mint), amount });
    let mut ctx = deposit_ctx(100, Some((10, None)));
    assert_eq!(
        deposit_for_dm(&config(), &mut ctx, 100, 0).unwrap_err(),
        SolmatesError::AssetGateRequired
    );
    let mut ctx = deposit_ctx(100, Some((10, held(MINT, 50))));
    assert_eq!(
        deposit_for_dm(&config(), &mut ctx, 100, 0).unwrap_err(),
        SolmatesError::InvalidAssetGate
    );
    let mut ctx = deposit_ctx(100, Some((10, held(GATE, 9))));
    assert_eq!(
        deposit_for_dm(&config(), &mut ctx, 100, 0).unwrap_err(),
        SolmatesError::InsufficientAssetBalance
    );
    let mut ctx = deposit_ctx(100, Some((10, held(GATE, 10))));
    assert!(deposit_for_dm(&config(), &mut ctx, 100, 0).is_ok());
}

#[test]
fn accept_pays_recipient_and_treasury() {
    let (addr, escrow) = open_escrow(1000, 0);
    let mut ctx = accept_ctx(addr, escrow);
    let o = accept_dm(&config(), &mut ctx).unwrap();
    assert_eq!(ctx.escrow.status, EscrowStatus::Accepted);
    assert_eq!(o.transfers.len(), 2);
    assert!(is_out(&o.transfers[0], key(RECIPIENT), 990));
    assert!(is_out(&o.transfers[1], key(250), 10));
    assert_eq!(o.event.amount, 1000);
    assert_eq!(o.event.fee, 10);
    assert!(o.close_to.unwrap() == key(SENDER));
}

#[test]
fn accept_skips_zero_fee() {
    let (addr, escrow) = open_escrow(99, 0);
    let mut ctx = accept_ctx(addr, escrow);
    let o = accept_dm(&config(), &mut ctx).unwrap();
    assert_eq!(o.transfers.len(), 1);
    assert!(is_out(&o.transfers[0], key(RECIPIENT), 99));
}

#[test]
fn accept_with_wrong_treasury_is_refused() {
    let (addr, escrow) = open_escrow(1000, 0);
    let mut ctx = accept_ctx(addr, escrow);
    ctx.treasury = key(251);
    assert_eq!(accept_dm(&config(), &mut ctx).unwrap_err(), SolmatesError::InvalidTreasury);
    assert_eq!(ctx.escrow.status, EscrowStatus::Pending);
}

#[test]
fn escrow_of_other_parties_is_refused() {
    let (addr, escrow) = open_escrow(1000, 0);
    let mut ctx = decline_ctx(addr, escrow);
    ctx.recipient = key(9);
    assert_eq!(
        decline_dm(&config(), &mut ctx).unwrap_err(),
        SolmatesError::InvalidRecordAddress
    );
    let mut ctx = decline_ctx(addr, escrow);
    ctx.escrow.mint = key(9);
    assert_eq!(decline_dm(&config(), &mut ctx).unwrap_err(), SolmatesError::AccountMismatch);
}

#[test]
fn decline_returns_full_deposit() {
    let (addr, escrow) = open_escrow(1000, 0);
    let mut ctx = decline_ctx(addr, escrow);
    let o = decline_dm(&config(), &mut ctx).unwrap();
    assert_eq!(ctx.escrow.status, EscrowStatus::Refunded);
    assert_eq!(o.transfers.len(), 1);
    assert!(is_out(&o.transfers[0], key(SENDER), 1000));
    assert_eq!(o.event.amount, 1000);
}

#[test]
fn refund_only_after_expiry() {
    let (addr, escrow) = open_escrow(1000, 0);
    let mut ctx = refund_ctx(addr, escrow);
    assert_eq!(
        refund_dm(&config(), &mut ctx, ESCROW_DURATION).unwrap_err(),
        SolmatesError::EscrowNotExpired
    );
    assert_eq!(ctx.escrow.status, EscrowStatus::Pending);
    let o = refund_dm(&config(), &mut ctx, ESCROW_DURATION + 1).unwrap();
    assert_eq!(ctx.escrow.status, EscrowStatus::Refunded);
    assert!(is_out(&o.transfers[0], key(SENDER), 1000));
}

#[test]
fn only_first_terminal_transition_succeeds() {
    let late = ESCROW_DURATION + 10;
    let (addr, escrow) = open_escrow(1000, 0);

    let mut acc = accept_ctx(addr, escrow);
    accept_dm(&config(), &mut acc).unwrap();
    let done = acc.escrow;
    assert_eq!(
        decline_dm(&config(), &mut decline_ctx(addr, done)).unwrap_err(),
        SolmatesError::EscrowNotPending
    );
    assert_eq!(
        refund_dm(&config(), &mut refund_ctx(addr, done), late).unwrap_err(),
        SolmatesError::EscrowNotPending
    );
    assert_eq!(
        accept_dm(&config(), &mut accept_ctx(addr, done)).unwrap_err(),
        SolmatesError::EscrowNotPending
    );

    let mut dec = decline_ctx(addr, escrow);
    decline_dm(&config(), &mut dec).unwrap();
    assert_eq!(
        accept_dm(&config(), &mut accept_ctx(addr, dec.escrow)).unwrap_err(),
        SolmatesError::EscrowNotPending
    );
    assert_eq!(
        refund_dm(&config(), &mut refund_ctx(addr, dec.escrow), late).unwrap_err(),
        SolmatesError::EscrowNotPending
    );

    let mut re = refund_ctx(addr, escrow);
    refund_dm(&config(), &mut re, late).unwrap();
    assert_eq!(
        accept_dm(&config(), &mut accept_ctx(addr, re.escrow)).unwrap_err(),
        SolmatesError::EscrowNotPending
    );
    assert_eq!(
        decline_dm(&config(), &mut decline_ctx(addr, re.escrow)).unwrap_err(),
        SolmatesError::EscrowNotPending
    );
}

#[test]
fn deposit_expiry_overflow_is_an_error() {
    let mut ctx = deposit_ctx(100, None);
    assert_eq!(
        deposit_for_dm(&config(), &mut ctx, 100, i64::MAX - 10).unwrap_err(),
        SolmatesError::ArithmeticOverflow
    );
    assert_eq!(ctx.escrow.amount, 0);
}
