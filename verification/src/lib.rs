//! Trap and interrupt dispatch core for a RISC-V supervisor-mode kernel.
//!
//! The crate verifies the dispatch logic itself: a priority-ordered handler
//! registry with an ownership model, a parallel error registry with a
//! circular log and panic-mode latching, the interrupt-nesting protocol,
//! a model of the privileged interrupt-control registers, and the container
//! that composes them. Register access, firmware calls and locking live in
//! the surrounding (unverified) binary, which drives this library and
//! mirrors every hardware transition it computes.

pub mod api;
pub mod container;
pub mod context;
pub mod enhanced;
pub mod error;
pub mod error_manager;
pub mod handler;
pub mod hardware;
pub mod nesting;
pub mod pool;
pub mod registry;
pub mod types;
