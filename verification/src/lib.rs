//! The decision core of a microVM fleet manager.
//!
//! Nothing in this crate touches the host. Every engine operation answers with
//! the steps that have to be performed (host commands, hypervisor requests,
//! file operations) and with the handle that results once they have succeeded;
//! a driver outside the crate performs the steps and reports how each one went.

pub mod api;
pub mod cmd;
pub mod error;
pub mod fleet;
pub mod id;
pub mod net;
pub mod registry;
pub mod step;
pub mod text;
pub mod transition;
pub mod vm;
