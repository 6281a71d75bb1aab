//! Economy ledger and wagered rock-paper-scissors engine of the Johnson chat bot.
//!
//! The crate holds the logic that the bot runs on every message and on every
//! wager: the experience curve, the per-community ledger of balances and
//! experience, the passive reward pipeline, and the state machines of the
//! interaction waiter and of a wager session.  Everything that talks to the
//! chat platform or to storage lives outside the crate and hands plain values
//! in and out.

pub mod ledger;
pub mod leveling;
pub mod reward;
pub mod rps;
pub mod session;
pub mod text;
pub mod waiter;

pub use leveling::{exp_to_level, level_to_exp};
