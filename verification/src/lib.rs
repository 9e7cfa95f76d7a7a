//! Decision and execution core of an on-chain data-feed keeper.
//!
//! For each feed the keeper compares an off-chain reference value with the
//! value stored on a contract, checks the feed's gating conditions against the
//! chain, decides whether an update is due, prices the transaction and walks
//! the feed through its submission cycle. Everything here is pure: the caller
//! performs the network and storage work and hands the results back in.

pub mod abi;
pub mod condition;
pub mod deviation;
pub mod error;
pub mod fixed_point;
pub mod gas;
pub mod nonce;
pub mod scheduler;
pub mod state;
pub mod text;
pub mod uint;
