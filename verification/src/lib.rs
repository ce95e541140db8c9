//! A tamper-evident hash chain over document revisions.
//!
//! Each submission becomes a revision whose content, metadata and
//! verification hashes are SHA3-512 digests over a fixed, versioned byte
//! layout; every revision's verification hash folds in its predecessor's,
//! so altering any past revision invalidates every later hash.

pub mod encode;
pub mod hashes;
pub mod content;
pub mod revision;
pub mod chain;
pub mod ident;
