//! Two-player wagers: an escrow that holds both stakes, the settlement of
//! the pot less a house fee, a real-time contest whose ring-out decides the
//! winner, session keys that sign the contest's inputs, and the one-shot
//! commit that carries the winner from the contest into the escrow.

pub mod identity;
pub mod settlement;
pub mod bank;
pub mod engine;
pub mod bridge;
