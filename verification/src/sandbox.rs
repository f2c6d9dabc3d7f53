//! The two-sided contract between a parent that spawns a confined process
//! and the child that completes its own confinement.
//!
//! A platform backend supplies one implementation of each trait per
//! operating system. The parent side pre-configures whatever the platform
//! lets it and spawns the command; the child side, running inside the new
//! process, applies the remaining restrictions on itself before any
//! untrusted logic runs. Every failure is reported as a value of
//! [`SandboxError`]; deciding whether to abort on one belongs to the
//! embedding, never to this layer.

use vstd::prelude::*;

use crate::command::Command;
use crate::error::SandboxError;

verus! {

/// All platform-specific sandboxes implement this trait.
///
/// A sandbox is bound to one profile and is used for one spawn attempt;
/// the handle it returns outlives it.
pub trait SandboxMethods {
    /// The restriction policy this backend consumes. The core reads it
    /// opaquely and places no format requirement on it.
    type Profile;

    /// The handle to the spawned, sandbox-eligible process; ownership of
    /// it transfers to the caller.
    type Spawned;

    /// The profile this sandbox enforces, as a specification-level value.
    spec fn profile_spec(&self) -> Self::Profile;

    /// Returns this sandbox's profile, so a caller can inspect the policy
    /// without duplicating it.
    fn profile(&self) -> (p: &Self::Profile)
        ensures
            *p == self.profile_spec(),
    ;

    /// Spawns a child process eligible for sandboxing, performing any
    /// parent-side confinement setup first. Every failure is one of the
    /// spawn taxonomy: the command was malformed (`InvalidArgument`), the
    /// operating system refused the process creation (`SpawnFailed`), or
    /// the backend could not express a restriction the profile asks for
    /// (`RestrictionSetupFailed`) — it must not spawn unconfined instead.
    /// On failure no process is left running.
    fn start(&self, command: Command) -> (r: Result<Self::Spawned, SandboxError>)
        ensures
            r matches Err(e) ==> e is SpawnFailed || e is InvalidArgument
                || e is RestrictionSetupFailed,
    ;
}

/// All platform-specific sandboxes in the child process implement this
/// trait.
pub trait ChildSandboxMethods {
    /// Whether the restrictions of the bound profile are in effect for the
    /// calling process.
    spec fn activated(&self) -> bool;

    /// Activates the restrictions in this child process from here on out.
    /// Activation is irreversible: once a sandbox reports itself
    /// activated, nothing returns it to the unrestricted state. Be sure to
    /// check the return value: after a failure the restrictions are *not*
    /// in effect, and the only safe response of an embedding that must be
    /// confined is to stop before touching untrusted input.
    fn activate(&mut self) -> (r: Result<(), SandboxError>)
        ensures
            old(self).activated() ==> final(self).activated(),
            r is Ok ==> final(self).activated(),
            r matches Err(e) ==> e is ActivationFailed,
    ;
}

} // verus!
