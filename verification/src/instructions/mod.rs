pub mod assign_bounty;
pub mod cancel_bounty;
pub mod complete_bounty;
pub mod create_bounty;
pub mod initialize;
