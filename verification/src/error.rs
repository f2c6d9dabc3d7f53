//! The error taxonomy shared by the builder and by both sandbox sides.
//!
//! Every operation that can fail reports its failure as a value of this
//! enum; nothing in this crate terminates the process. In particular a
//! failed activation means the restrictions are *not* in effect, and the
//! embedding must decide for itself whether to abort or to restart.

use vstd::prelude::*;

verus! {

/// Why a sandboxing operation failed.
#[derive(Debug)]
pub enum SandboxError {
    /// A path, argument, or environment entry contained an interior null
    /// byte and cannot be handed to the operating system verbatim.
    InvalidArgument,
    /// The path of the currently running executable could not be resolved.
    EnvironmentLookupFailed,
    /// The operating system rejected the process-creation request; carries
    /// the underlying diagnostic.
    SpawnFailed(String),
    /// The parent side could not configure the confinement the policy asks
    /// for before (or while) spawning; carries a description of the
    /// restriction that could not be expressed.
    RestrictionSetupFailed(String),
    /// The child side could not apply the remaining restrictions to the
    /// calling process; the process is still unconfined.
    ActivationFailed(String),
}

impl SandboxError {
    /// The diagnostic carried by the error, empty for the kinds that
    /// carry none.
    pub fn message(&self) -> (r: &str)
        ensures
            self matches SandboxError::SpawnFailed(m) ==> r@ == m@,
            self matches SandboxError::RestrictionSetupFailed(m) ==> r@ == m@,
            self matches SandboxError::ActivationFailed(m) ==> r@ == m@,
            self is InvalidArgument ==> r@ == Seq::<char>::empty(),
            self is EnvironmentLookupFailed ==> r@ == Seq::<char>::empty(),
    {
        let r = match self {
            SandboxError::InvalidArgument => "",
            SandboxError::EnvironmentLookupFailed => "",
            SandboxError::SpawnFailed(m) => m.as_str(),
            SandboxError::RestrictionSetupFailed(m) => m.as_str(),
            SandboxError::ActivationFailed(m) => m.as_str(),
        };
        proof {
            reveal_strlit("");
            assert(""@ =~= Seq::<char>::empty());
        }
        r
    }
}

} // verus!
