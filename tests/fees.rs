use solmates::errors::SolmatesError;
use solmates::fees::{minimum_next_bid, settle, Settlement};
use solmates::PLATFORM_FEE_BPS;

#[test]
fn settle_one_percent() {
    assert_eq!(settle(800, PLATFORM_FEE_BPS), Ok(Settlement { net: 792, fee: 8 }));
    assert_eq!(settle(1000, PLATFORM_FEE_BPS), Ok(Settlement { net: 990, fee: 10 }));
}

#[test]
fn settle_rounds_fee_down() {
    assert_eq!(settle(99, PLATFORM_FEE_BPS), Ok(Settlement { net: 99, fee: 0 }));
    assert_eq!(settle(199, PLATFORM_FEE_BPS), Ok(Settlement { net: 198, fee: 1 }));
}

#[test]
fn settle_zero_and_full_rates() {
    assert_eq!(settle(12345, 0), Ok(Settlement { net: 12345, fee: 0 }));
    assert_eq!(settle(12345, 10000), Ok(Settlement { net: 0, fee: 12345 }));
    assert_eq!(settle(0, 10000), Ok(Settlement { net: 0, fee: 0 }));
}

#[test]
fn settle_conserves_amount() {
    for gross in [0u64, 1, 7, 101, 9999, 10000, 123456789, u64::MAX / 10000, u64::MAX] {
        for rate in [0u16, 1, 100, 250, 9999, 10000] {
            let s = settle(gross, rate).unwrap();
            assert_eq!(s.net + s.fee, gross);
            assert_eq!(s.fee as u128, gross as u128 * rate as u128 / 10000);
        }
    }
}

#[test]
fn settle_large_amounts() {
    let max_fee = (u64::MAX as u128 * 100 / 10000) as u64;
    assert_eq!(
        settle(u64::MAX, PLATFORM_FEE_BPS),
        Ok(Settlement { net: u64::MAX - max_fee, fee: max_fee })
    );
    assert_eq!(settle(u64::MAX, 10000), Ok(Settlement { net: 0, fee: u64::MAX }));
    assert_eq!(settle(u64::MAX, 0), Ok(Settlement { net: u64::MAX, fee: 0 }));
}

#[test]
fn settle_rate_above_whole_is_an_error() {
    assert_eq!(settle(10, 20000), Err(SolmatesError::ArithmeticOverflow));
    assert_eq!(settle(0, 20000), Ok(Settlement { net: 0, fee: 0 }));
}

#[test]
fn minimum_next_bid_adds_five_percent() {
    assert_eq!(minimum_next_bid(100), 105);
    assert_eq!(minimum_next_bid(120), 126);
    assert_eq!(minimum_next_bid(19), 19);
    assert_eq!(minimum_next_bid(u64::MAX), u64::MAX as u128 + u64::MAX as u128 * 500 / 10000);
}
