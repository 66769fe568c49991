//! Locating Go installations and deleting them after an explicit confirmation.
//!
//! The library holds the decisions: which candidate root is chosen, which
//! version entries are reported, how a deletion proceeds step by step, and how
//! the interactive session moves between its phases. Reading the filesystem,
//! running commands and driving the terminal are left to the caller, which
//! hands the library plain values.

pub mod text;

pub mod finder;
pub mod deleter;
pub mod app;
