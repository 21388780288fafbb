//! Detection of chain reorganizations on a follower node.
//!
//! A follower node replicates blocks and batches sealed by a main node. If
//! the main node's operator rolls back and re-seals batches, the follower's
//! locally persisted history diverges from the canonical one. This crate
//! holds the decision core of a reorg detector: the per-round consistency
//! comparison, the binary-search localization of the first diverged batch,
//! the error taxonomy, and the run-loop state machine. All I/O (the block
//! store, the main-node RPC client, sleeping, the stop signal) is performed
//! by a driver that asks the state machine which query to run next and feeds
//! the answer back in.

pub mod types;
pub mod error;
pub mod checker;
pub mod localizer;
pub mod detector;
pub mod health;
pub mod laws;
