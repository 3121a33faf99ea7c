//! Resolves a script project (a local directory or a git URL) into a cached
//! working tree and infers how to run it: its kind, interpreter and entrypoint.

pub mod docker;
pub mod error;
pub mod fetch;
pub mod meta;
pub mod native;
pub mod package;
pub mod source;
pub mod text;
pub mod utils;
