//! A cross-platform abstraction for launching a child process under a
//! confinement policy, and for that child to apply the remaining
//! restrictions on itself before it runs anything untrusted.
//!
//! The crate provides the process-description builder ([`Command`]), the
//! two capabilities a platform backend implements ([`SandboxMethods`] on
//! the parent side, [`ChildSandboxMethods`] on the child side), the error
//! taxonomy shared by both sides ([`SandboxError`]), and an in-memory
//! backend that exercises the contracts without touching an operating
//! system. The embedding program performs the actual process-creation
//! call from the [`SpawnRequest`] a command materializes into.

pub mod bytes;
pub mod command;
pub mod error;
pub mod model;
pub mod sandbox;

pub use crate::command::Command;
pub use crate::command::SpawnRequest;
pub use crate::error::SandboxError;
pub use crate::model::ModelChildSandbox;
pub use crate::model::ModelProfile;
pub use crate::model::ModelSandbox;
pub use crate::sandbox::ChildSandboxMethods;
pub use crate::sandbox::SandboxMethods;
