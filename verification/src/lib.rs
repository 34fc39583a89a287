//! Core of a self-updating launcher: progress accounting for the downloads,
//! an immutable trusted keyring, detached-signature verification against it,
//! and the state machine that gates process launch on a passed verification.

pub mod keyring;
pub mod pipeline;
pub mod progress;
pub mod verify;
