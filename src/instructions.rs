//! One module per operation: the accounts it is given, the checks on them,
//! and the transition itself.

pub mod place_bid;
pub mod claim_auction;
pub mod cancel_auction;
pub mod create_auction;
pub mod deposit_for_dm;
pub mod accept_dm;
pub mod decline_dm;
pub mod refund_dm;
pub mod create_bounty;
pub mod update_bounty;
pub mod payout_referral;
pub mod cancel_bounty;
pub mod create_profile;
pub mod update_profile;
