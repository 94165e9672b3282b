pub mod status;
pub mod threshold;
pub mod voting_strategy;
pub mod votes;
pub mod expiration;
pub mod state;
pub mod proposal;
pub mod laws;
pub mod setup;
