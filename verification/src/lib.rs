pub mod assoc;
pub mod text;
pub mod escrow;
pub mod payout;
pub mod resolver;
