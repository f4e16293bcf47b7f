//! The custody records and the profiles that gate them.

pub mod bounty_vault;
pub mod date_auction;
pub mod message_escrow;
pub mod user_profile;
