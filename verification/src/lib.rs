//! Instrumentation layer around a single user-mode guest emulation context.
//!
//! The library holds the rules of that layer as plain state machines: what is
//! handed to the native engine for each operation, and what each native answer
//! means. Performing the native calls is left to the embedding program.

pub mod bundle;
pub mod code_hooks;
pub mod emu;
pub mod engine;
pub mod error;
pub mod gdb;
pub mod hooks;
pub mod maps;
pub mod monitor;
pub mod multi;
pub mod outside;
pub mod perms;
pub mod syscall;
pub mod text;
