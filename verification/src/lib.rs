//! Supervision logic for a bundled backend process of a desktop application:
//! where its storage lives, how it is started, how its output is followed,
//! and how the health of the services it depends on is judged.
//!
//! Everything here computes on plain values. Reading the data directory,
//! creating directories, starting the process and talking HTTP are left to
//! the embedding program, which reports what happened and acts on the
//! answers it gets.

pub mod environment;
pub mod json;
pub mod launch;
pub mod monitor;
pub mod probe;
pub mod text;
