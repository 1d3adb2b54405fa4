//! A session coordinator for a word-guessing game.
//!
//! Many independent users each play an isolated game instance; the actual
//! word matching lives in a remote "oracle" actor.  The coordinator accepts
//! user commands, forwards guesses to the oracle, parks the inbound command
//! while the oracle's asynchronous answer is outstanding, resumes it when the
//! answer arrives, enforces a per-game attempt budget and an inactivity
//! timeout, and reports results back to the user.
//!
//! The library is the coordinator's pure core: every message-passing side
//! effect of the hosting runtime (sends, replies, parking, wakes, delayed
//! self-messages) is returned as an [`msgs::Effect`] value for the embedding
//! runtime to perform, and every identifier the runtime would assign is
//! passed in as an argument.  This keeps the whole state machine verifiable.

pub mod laws;
pub mod machine;
pub mod msgs;
pub mod session;
pub mod store;
