use solmates::address::{auction_seeds, find_record_address, profile_seeds, Address};
use solmates::errors::SolmatesError;
use solmates::instructions::cancel_auction::CancelAuction;
use solmates::instructions::claim_auction::ClaimAuction;
use solmates::instructions::create_auction::CreateAuction;
use solmates::instructions::place_bid::PlaceBid;
use solmates::solmates::{cancel_auction, claim_auction, create_auction, place_bid};
use solmates::states::date_auction::DateAuction;
use solmates::states::user_profile::UserProfile;
use solmates::transfer::{Endpoint, Transfer};
use solmates::{ProgramConfig, MAX_SNIPE_EXTENSIONS};

fn key(n: u8) -> Address {
    Address::new([n; 32])
}

fn config() -> ProgramConfig {
    ProgramConfig { program_id: key(200), treasury: key(250) }
}

const HOST: u8 = 1;
const MINT: u8 = 3;

fn blank_auction() -> DateAuction {
    DateAuction {
        host: key(0),
        auction_id: 0,
        mint: key(0),
        highest_bidder: key(0),
        highest_bid: 0,
        end_time: 0,
        total_extended: 0,
        bump: 0,
    }
}

fn create_ctx(auction_count: u64) -> CreateAuction {
    let cfg = config();
    let (host_profile_address, bump) =
        find_record_address(&profile_seeds(&key(HOST)), &cfg.program_id).unwrap();
    let (auction_address, _) =
        find_record_address(&auction_seeds(&key(HOST), auction_count), &cfg.program_id).unwrap();
    CreateAuction {
        host: key(HOST),
        host_profile_address,
        host_profile: UserProfile {
            authority: key(HOST),
            dm_price: 0,
            asset_gate_mint: None,
            min_asset_amount: 0,
            auction_count,
            bump,
        },
        mint: key(MINT),
        auction_address,
        auction: blank_auction(),
    }
}

fn new_auction(start_price: u64, duration: i64, now: i64) -> (Address, DateAuction) {
    let mut ctx = create_ctx(0);
    create_auction(&config(), &mut ctx, start_price, duration, now).unwrap();
    (ctx.auction_address, ctx.auction)
}

fn bid_ctx(addr: Address, auction: DateAuction, bidder: u8) -> PlaceBid {
    PlaceBid {
        bidder: key(bidder),
        previous_bidder: auction.highest_bidder,
        host: key(HOST),
        mint: key(MINT),
        auction_address: addr,
        auction,
    }
}

fn bid(
    addr: Address,
    auction: DateAuction,
    bidder: u8,
    amount: u64,
    now: i64,
) -> Result<(DateAuction, Vec<Transfer>), (SolmatesError, DateAuction)> {
    let mut ctx = bid_ctx(addr, auction, bidder);
    match place_bid(&config(), &mut ctx, amount, now) {
        Ok(o) => Ok((ctx.auction, o.transfers)),
        Err(e) => Err((e, ctx.auction)),
    }
}

fn same(a: &DateAuction, b: &DateAuction) -> bool {
    a.host == b.host
        && a.highest_bidder == b.highest_bidder
        && a.highest_bid == b.highest_bid
        && a.end_time == b.end_time
        && a.total_extended == b.total_extended
        && a.auction_id == b.auction_id
}

fn cancel(addr: Address, auction: DateAuction) -> Result<(), SolmatesError> {
    let mut ctx = CancelAuction { host: key(HOST), mint: key(MINT), auction_address: addr, auction };
    cancel_auction(&config(), &mut ctx).map(|_| ())
}

#[test]
fn create_sets_sentinel_and_counter() {
    let mut ctx = create_ctx(4);
    let o = create_auction(&config(), &mut ctx, 100, 600, 50).unwrap();
    assert_eq!(ctx.auction.auction_id, 4);
    assert_eq!(ctx.host_profile.auction_count, 5);
    assert!(ctx.auction.highest_bidder == key(HOST));
    assert_eq!(ctx.auction.highest_bid, 100);
    assert_eq!(ctx.auction.end_time, 650);
    assert_eq!(ctx.auction.total_extended, 0);
    assert!(o.transfers.is_empty());
    assert_eq!(o.event.auction_id, 4);
    assert_eq!(o.event.end_time, 650);
}

#[test]
fn create_by_other_than_profile_owner_is_refused() {
    let mut ctx = create_ctx(0);
    ctx.host_profile.authority = key(9);
    assert_eq!(
        create_auction(&config(), &mut ctx, 100, 600, 0).unwrap_err(),
        SolmatesError::Unauthorized
    );
}

#[test]
fn create_with_stale_counter_address_is_refused() {
    let mut ctx = create_ctx(0);
    ctx.host_profile.auction_count = 1;
    assert_eq!(
        create_auction(&config(), &mut ctx, 100, 600, 0).unwrap_err(),
        SolmatesError::InvalidRecordAddress
    );
}

#[test]
fn bidding_scenario_with_snipe_extension() {
    let (addr, a) = new_auction(100, 600, 0);
    assert_eq!(a.end_time, 600);

    let (a, t) = bid(addr, a, 10, 120, 0).unwrap();
    assert_eq!(a.highest_bid, 120);
    assert!(a.highest_bidder == key(10));
    assert_eq!(a.end_time, 600);
    assert_eq!(t.len(), 1);
    assert!(matches!(t[0].to, Endpoint::Vault));
    assert_eq!(t[0].amount, 120);

    let (e, unchanged) = bid(addr, a, 11, 125, 590).unwrap_err();
    assert_eq!(e, SolmatesError::BidIncrementTooSmall);
    assert!(same(&unchanged, &a));

    let (a, t) = bid(addr, a, 12, 130, 595).unwrap();
    assert_eq!(a.highest_bid, 130);
    assert_eq!(a.end_time, 900);
    assert_eq!(a.total_extended, 300);
    assert_eq!(t.len(), 2);
    assert!(matches!(t[0].from, Endpoint::Vault));
    assert!(matches!(t[0].to, Endpoint::Wallet(w) if w == key(10)));
    assert_eq!(t[0].amount, 120);
    assert_eq!(t[1].amount, 130);
}

#[test]
fn bid_checks() {
    let (addr, a) = new_auction(100, 600, 0);
    assert_eq!(bid(addr, a, 10, 100, 0).unwrap_err().0, SolmatesError::BidTooLow);
    assert_eq!(bid(addr, a, 10, 104, 0).unwrap_err().0, SolmatesError::BidIncrementTooSmall);
    assert_eq!(bid(addr, a, 10, 105, 600).unwrap_err().0, SolmatesError::AuctionEnded);
    let mut ctx = bid_ctx(addr, a, 10);
    ctx.previous_bidder = key(11);
    assert_eq!(
        place_bid(&config(), &mut ctx, 105, 0).unwrap_err(),
        SolmatesError::InvalidPreviousBidder
    );
    assert!(bid(addr, a, 10, 105, 0).is_ok());
}

#[test]
fn each_accepted_bid_raises_by_the_increment() {
    let (addr, mut a) = new_auction(1000, 600, 0);
    let mut amount = 1000u64;
    for i in 0..20u8 {
        let next = amount + amount * 500 / 10000;
        assert_eq!(bid(addr, a, 20 + i, next - 1, 1).unwrap_err().0, SolmatesError::BidIncrementTooSmall);
        let (b, _) = bid(addr, a, 20 + i, next, 1).unwrap();
        assert!(b.highest_bid >= a.highest_bid + a.highest_bid * 500 / 10000);
        a = b;
        amount = next;
    }
}

#[test]
fn snipe_extension_is_capped() {
    let (addr, mut a) = new_auction(100, 600, 0);
    let mut amount = 100u64;
    for i in 0..30u8 {
        amount = amount * 2;
        let now = a.end_time - 1;
        let (b, _) = bid(addr, a, 20 + (i % 2), amount, now).unwrap();
        assert!(b.total_extended <= MAX_SNIPE_EXTENSIONS);
        assert_eq!(b.end_time - 600, b.total_extended);
        a = b;
    }
    assert_eq!(a.total_extended, 3600);
    assert_eq!(a.end_time, 600 + 3600);
}

#[test]
fn cancel_only_without_bids() {
    let (addr, a) = new_auction(100, 600, 0);
    assert!(cancel(addr, a).is_ok());
    let (a, _) = bid(addr, a, 10, 120, 0).unwrap();
    assert_eq!(cancel(addr, a).unwrap_err(), SolmatesError::AuctionHasBids);
    let (a, _) = bid(addr, a, 11, 200, 10).unwrap();
    assert_eq!(cancel(addr, a).unwrap_err(), SolmatesError::AuctionHasBids);
}

#[test]
fn claim_settles_winning_bid() {
    let (addr, a) = new_auction(100, 600, 0);
    let claim = |a: DateAuction, now: i64| {
        let mut ctx = ClaimAuction {
            host: key(HOST),
            mint: key(MINT),
            auction_address: addr,
            auction: a,
            treasury: key(250),
        };
        claim_auction(&config(), &mut ctx, now)
    };
    assert_eq!(claim(a, 601).unwrap_err(), SolmatesError::NoBidsPlaced);
    let (a, _) = bid(addr, a, 10, 5000, 0).unwrap();
    assert_eq!(claim(a, 600).unwrap_err(), SolmatesError::AuctionNotEnded);
    let o = claim(a, 601).unwrap();
    assert_eq!(o.transfers.len(), 2);
    assert!(matches!(o.transfers[0].to, Endpoint::Wallet(w) if w == key(HOST)));
    assert_eq!(o.transfers[0].amount, 4950);
    assert!(matches!(o.transfers[1].to, Endpoint::Wallet(w) if w == key(250)));
    assert_eq!(o.transfers[1].amount, 50);
    assert_eq!(o.event.amount, 5000);
    assert_eq!(o.event.fee, 50);
    assert!(o.event.winner == key(10));
    assert!(o.close_to.unwrap() == key(HOST));
}

#[test]
fn auction_arithmetic_overflow_is_an_error() {
    let mut ctx = create_ctx(0);
    assert_eq!(
        create_auction(&config(), &mut ctx, 100, i64::MAX, 1).unwrap_err(),
        SolmatesError::ArithmeticOverflow
    );
    assert_eq!(ctx.host_profile.auction_count, 0);

    let (addr, a) = new_auction(u64::MAX / 100, 600, 0);
    let (b, _) = bid(addr, a, 10, u64::MAX, 0).unwrap();
    assert_eq!(b.highest_bid, u64::MAX);
    let (addr, a) = new_auction(u64::MAX - 10, 600, 0);
    assert_eq!(
        bid(addr, a, 10, u64::MAX, 0).unwrap_err().0,
        SolmatesError::BidIncrementTooSmall
    );

    let (addr, a) = new_auction(100, i64::MAX, 0);
    assert_eq!(
        bid(addr, a, 10, 200, i64::MAX - 1).unwrap_err().0,
        SolmatesError::ArithmeticOverflow
    );
}

#[test]
fn auction_of_another_mint_is_refused() {
    let (addr, a) = new_auction(100, 600, 0);
    let mut ctx = bid_ctx(addr, a, 10);
    ctx.mint = key(9);
    assert_eq!(place_bid(&config(), &mut ctx, 200, 0).unwrap_err(), SolmatesError::AccountMismatch);
    let mut ctx = bid_ctx(addr, a, 10);
    ctx.host = key(9);
    assert_eq!(
        place_bid(&config(), &mut ctx, 200, 0).unwrap_err(),
        SolmatesError::InvalidRecordAddress
    );
}

#[test]
fn host_cannot_bid() {
    let (addr, a) = new_auction(100, 600, 0);
    let (e, unchanged) = bid(addr, a, HOST, 200, 0).unwrap_err();
    assert_eq!(e, SolmatesError::HostCannotBid);
    assert!(same(&unchanged, &a));
    let (a, _) = bid(addr, a, 10, 120, 0).unwrap();
    let (e, unchanged) = bid(addr, a, HOST, 130, 0).unwrap_err();
    assert_eq!(e, SolmatesError::HostCannotBid);
    assert!(same(&unchanged, &a));
    assert_eq!(cancel(addr, a).unwrap_err(), SolmatesError::AuctionHasBids);
}

#[test]
fn far_end_is_not_extended() {
    let (addr, a) = new_auction(100, 1000, 0);
    assert_eq!(a.end_time, 1000);
    let (b, _) = bid(addr, a, 10, 200, i64::MIN).unwrap();
    assert_eq!(b.end_time, 1000);
    assert_eq!(b.total_extended, 0);
    let (c, _) = bid(addr, b, 11, 300, 701).unwrap();
    assert_eq!(c.end_time, 1300);
    let (d, _) = bid(addr, c, 12, 400, 1000).unwrap();
    assert_eq!(d.end_time, 1300);
    let (e, _) = bid(addr, d, 13, 500, 1001).unwrap();
    assert_eq!(e.end_time, 1600);
    assert_eq!(e.total_extended, 600);
}

#[test]
fn host_bid_meets_the_spec_checks_first() {
    let (addr, a) = new_auction(100, 600, 0);
    assert_eq!(bid(addr, a, HOST, 200, 600).unwrap_err().0, SolmatesError::AuctionEnded);
    assert_eq!(bid(addr, a, HOST, 100, 0).unwrap_err().0, SolmatesError::BidTooLow);
    assert_eq!(bid(addr, a, HOST, 104, 0).unwrap_err().0, SolmatesError::BidIncrementTooSmall);
    assert_eq!(bid(addr, a, HOST, 105, 0).unwrap_err().0, SolmatesError::HostCannotBid);
}
