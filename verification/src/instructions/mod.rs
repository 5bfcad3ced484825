//! The five operations of the ledger.

pub mod close_poll;
pub mod create_poll;
pub mod initialize;
pub mod purchase_tokens;
pub mod vote;

pub use close_poll::{ClosePoll, ClosePollView};
pub use create_poll::{CreatePoll, CreatePollBumps, CreatePollView};
pub use initialize::{Initialize, InitializeBumps};
pub use purchase_tokens::{PurchaseTokens, PurchaseTokensBumps};
pub use vote::{Vote, VoteBumps, VoteView};
