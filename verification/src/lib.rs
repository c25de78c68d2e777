//! Core logic of a game-asset launcher: a download engine that batches
//! transfer tasks, bounds concurrency per chunk, tolerates per-task failures
//! and reports progress; an integrity/skip policy that avoids redundant
//! transfers; a mod dependency resolver; and the query, profile and
//! configuration records around them.
//!
//! All network and file-system work is performed by an unverified driver
//! that feeds plain values (outcomes, digests, fetched records) into the
//! verified planning and accounting functions of this crate.

pub mod task;
pub mod progress;
pub mod batch;
pub mod hash;
pub mod modrinth;
pub mod mods;
pub mod assets;
pub mod search;
pub mod categories;
pub mod profiles;
pub mod state;
pub mod config;
pub mod errors_pool;
pub mod meta;
