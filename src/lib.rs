//! Idle-behaviour engine of a game-world agent: a seeded generator and the
//! per-event session state machine that decides when to look around, jump,
//! crouch, or log in.
pub mod rng;
pub mod session;
pub mod timing;
