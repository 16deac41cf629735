//! Abstraction layer for YM2149-adjacent sound chips (AY-3-8910 family).
//!
//! The chip is driven by writing bytes into its sixteen registers. Every
//! operation of [`chip::PSG`] boils down to a sequence of [`command::Command`]s
//! handed to a user supplied [`command::CommandOutput`]; the contracts of the
//! library describe exactly which commands are issued.

pub mod errors;
pub mod audio;
pub mod envelopes;
pub mod register;
pub mod command;
pub mod io;
pub mod chip;
