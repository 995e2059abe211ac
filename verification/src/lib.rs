//! Safe access to MPQ-style archive containers.
//!
//! An MPQ container holds many named entries, and an archive engine reads
//! and writes it. This crate is the layer in front of such an engine: it
//! checks what the caller hands in, says what the engine is to be asked,
//! and turns the engine's answers into results and typed errors.
//!
//! The crate never calls the engine itself. An operation hands out a
//! request from [`engine`], the caller makes that call, and the operation
//! goes on with the answer:
//!
//! ```text
//! let request = archive.has_file("war3map.j")?;      // what to ask
//! let answer = flag_reply(/* the call */, /* its last error */);
//! let found = request.finish(answer)?;               // what it means
//! ```
//!
//! - [`error`] and [`generic`]: the engine's failure codes as typed errors.
//! - [`config`]: the shape of a new container, derived from the caller's
//!   options.
//! - [`encoding`]: names and paths as the engine reads them.
//! - [`archive`] and [`file`]: an open container and an open entry.
//! - [`mpq`]: the same, for callers that keep the engine's own names for
//!   failures.
//! - [`filelist`]: the files that one run packs.
//! - [`model`]: what the layer expects of an engine, and what follows.

pub mod archive;
pub mod config;
pub mod encoding;
pub mod engine;
pub mod error;
pub mod file;
pub mod filelist;
pub mod generic;
pub mod model;
pub mod mpq;
pub mod width;
