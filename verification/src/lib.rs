//! Locator for a project's Python virtual environment.
//!
//! Given a project directory, the library resolves the directory's
//! environment path through a persistent, append-only cache and a two-tier
//! chain of external discovery tools, and builds the invocation that runs
//! the project's `make.py` under the resolved interpreter.
//!
//! The library itself is pure: reading the cache file, probing the
//! filesystem, running the discovery tools and spawning the interpreter are
//! left to the embedding program, which feeds their outcomes back in as
//! plain values.

pub mod cache;
pub mod launcher;
pub mod resolver;
pub mod text;
