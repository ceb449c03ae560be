//! The on-chain logic of the ArenaForge program: a forge registry, arenas,
//! oracle-scored battles between forges, lamport betting with a rake,
//! and a reserve vault that funds winner rewards.
//!
//! Every instruction handler is a function from the accounts it reads
//! (and the clock and lamport balances it observes) to the accounts it
//! writes and the lamport transfers it asks the runtime to perform.

pub mod address;
pub mod state;
pub mod system;
pub mod transfer;
pub mod payout;
pub mod battle;
pub mod admin;
pub mod registry;
pub mod laws;
