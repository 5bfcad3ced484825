//! The persistent records of the ledger.

pub mod config;
pub mod poll;
pub mod user_stats;
pub mod vote_record;

pub use config::Config;
pub use poll::{Poll, PollView, VoteMode, VotingStyle};
pub use user_stats::UserStats;
pub use vote_record::VoteRecord;
