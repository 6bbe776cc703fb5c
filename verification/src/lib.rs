//! A verified directory-organizing engine.
//!
//! Given a category table (folder name plus extension matchers) and the file
//! names found in a directory, the engine decides which file is copied into
//! which category folder. The decision logic is fully specified and verified;
//! the filesystem work (scanning, folder creation, copying) is left to an
//! unverified front end that hands the engine plain file names and carries
//! out the plan it returns.

pub mod laws;
pub mod method;
pub mod model;
pub mod options;
pub mod organize;
