//! An in-memory backend that exercises the sandbox contracts without an
//! operating system.
//!
//! Its policy is the set of operation identifiers a confined process must
//! be denied, and its platform can express identifiers strictly below a
//! fixed bound. A policy that denies an identifier at or above the bound
//! is one this backend cannot express: the parent side then refuses to
//! spawn (`RestrictionSetupFailed`) and the child side refuses to claim
//! confinement (`ActivationFailed`), rather than proceeding unconfined.
//! The parent side's spawned handle is the materialized [`SpawnRequest`]
//! itself, which carries exactly the supplied command.

use vstd::prelude::*;

use crate::command::Command;
use crate::command::SpawnRequest;
use crate::error::SandboxError;
use crate::sandbox::ChildSandboxMethods;
use crate::sandbox::SandboxMethods;

verus! {

/// A minimal confinement policy: the operation identifiers a confined
/// process must be denied. Immutable once constructed; a parent-side and a
/// child-side sandbox bound to equal policies describe the same
/// confinement.
pub struct ModelProfile {
    denied: Vec<u64>,
}

impl ModelProfile {
    /// The operations the policy denies, as given at construction.
    pub closed spec fn denied_ops(&self) -> Seq<u64> {
        self.denied@
    }

    /// Whether the policy denies an operation.
    pub open spec fn denies(&self, op: u64) -> bool {
        self.denied_ops().contains(op)
    }

    /// Whether every restriction of the policy is expressible on a
    /// platform that only knows operation identifiers below `limit`.
    pub open spec fn expressible_below(&self, limit: u64) -> bool {
        forall|i: int| 0 <= i < self.denied_ops().len()
            ==> #[trigger] self.denied_ops()[i] < limit
    }

    /// Constructs the policy that denies exactly the given operations.
    pub fn new(denied: Vec<u64>) -> (p: ModelProfile)
        ensures
            p.denied_ops() == denied@,
    {
        ModelProfile { denied }
    }

    /// The denied operations, for a caller inspecting the policy.
    pub fn denied_operations(&self) -> (r: &Vec<u64>)
        ensures
            r@ == self.denied_ops(),
    {
        &self.denied
    }
}

/// Whether every operation identifier of `denied` is below `limit`.
fn all_below(denied: &Vec<u64>, limit: u64) -> (r: bool)
    ensures
        r == (forall|i: int| 0 <= i < denied@.len() ==> #[trigger] denied@[i] < limit),
{
    let mut i: usize = 0;
    while i < denied.len()
        invariant
            i <= denied.len(),
            forall|j: int| 0 <= j < i ==> #[trigger] denied@[j] < limit,
        decreases denied.len() - i,
    {
        if denied[i] >= limit {
            return false;
        }
        i += 1;
    }
    true
}

/// Whether `denied` contains the operation identifier `op`.
fn contains_op(denied: &Vec<u64>, op: u64) -> (r: bool)
    ensures
        r == denied@.contains(op),
{
    let mut i: usize = 0;
    while i < denied.len()
        invariant
            i <= denied.len(),
            forall|j: int| 0 <= j < i ==> denied@[j] != op,
        decreases denied.len() - i,
    {
        if denied[i] == op {
            return true;
        }
        i += 1;
    }
    false
}

/// The parent side of the in-memory backend: bound to one profile, on a
/// platform that can express operation identifiers strictly below
/// `supported_limit`.
pub struct ModelSandbox {
    profile: ModelProfile,
    supported_limit: u64,
}

impl ModelSandbox {
    /// The bound on the operation identifiers the platform can express.
    pub closed spec fn supported_limit_spec(&self) -> u64 {
        self.supported_limit
    }

    /// Whether this backend can express every restriction of its policy.
    pub open spec fn expressible(&self) -> bool {
        self.profile_spec().expressible_below(self.supported_limit_spec())
    }

    /// Constructs a parent-side sandbox that enforces `profile`.
    pub fn new(profile: ModelProfile, supported_limit: u64) -> (s: ModelSandbox)
        ensures
            s.profile_spec() == profile,
            s.supported_limit_spec() == supported_limit,
    {
        ModelSandbox { profile, supported_limit }
    }
}

impl SandboxMethods for ModelSandbox {
    type Profile = ModelProfile;

    type Spawned = SpawnRequest;

    closed spec fn profile_spec(&self) -> ModelProfile {
        self.profile
    }

    fn profile(&self) -> (p: &ModelProfile) {
        &self.profile
    }

    /// Refuses a policy with a restriction the platform cannot express,
    /// rather than spawning an unconfined process; otherwise the spawned
    /// handle is the request that carries exactly the supplied command.
    fn start(&self, command: Command) -> (r: Result<SpawnRequest, SandboxError>)
        ensures
            self.expressible() ==> (r matches Ok(req)
                && req.path_view() == command.path_view()
                && req.args_view() == command.args_view()
                && req.env_entries() == command.env_entries()
                && req.env_view() == command.env_view()
                && req.wf()),
            !self.expressible() ==> (r matches Err(e) && e is RestrictionSetupFailed),
    {
        let expressible = all_below(&self.profile.denied, self.supported_limit);
        proof {
            assert(self.profile_spec().denied_ops() == self.profile.denied@);
            assert(expressible == self.expressible());
        }
        if !expressible {
            return Err(SandboxError::RestrictionSetupFailed(
                "the profile denies an operation this platform cannot express".to_owned(),
            ));
        }
        Ok(command.spawn())
    }
}

/// The child side of the in-memory backend: bound to one profile, it
/// records whether the restrictions are in effect for the calling process.
pub struct ModelChildSandbox {
    profile: ModelProfile,
    supported_limit: u64,
    active: bool,
}

impl ModelChildSandbox {
    /// The profile this child sandbox applies.
    pub closed spec fn profile_spec(&self) -> ModelProfile {
        self.profile
    }

    /// The bound on the operation identifiers the platform can express.
    pub closed spec fn supported_limit_spec(&self) -> u64 {
        self.supported_limit
    }

    /// Whether this backend can express every restriction of its policy.
    pub open spec fn expressible(&self) -> bool {
        self.profile_spec().expressible_below(self.supported_limit_spec())
    }

    /// Whether the calling process may perform `op` right now: everything
    /// before activation, and afterwards exactly what the policy does not
    /// deny.
    pub open spec fn permits(&self, op: u64) -> bool {
        !(self.activated() && self.profile_spec().denies(op))
    }

    /// Constructs a child-side sandbox bound to `profile`, with no
    /// restriction in effect yet.
    pub fn new(profile: ModelProfile, supported_limit: u64) -> (s: ModelChildSandbox)
        ensures
            s.profile_spec() == profile,
            s.supported_limit_spec() == supported_limit,
            !s.activated(),
    {
        ModelChildSandbox { profile, supported_limit, active: false }
    }

    /// Attempts an operation under the current state: allowed exactly when
    /// [`ModelChildSandbox::permits`] says so, so a forbidden operation
    /// succeeds before activation and is denied from activation on.
    pub fn check_operation(&self, op: u64) -> (allowed: bool)
        ensures
            allowed == self.permits(op),
    {
        if !self.active {
            true
        } else {
            !contains_op(&self.profile.denied, op)
        }
    }
}

impl ChildSandboxMethods for ModelChildSandbox {
    closed spec fn activated(&self) -> bool {
        self.active
    }

    /// Applies the policy to the calling process: from here on the sandbox
    /// is activated and denies what the policy denies. A policy the
    /// platform cannot express is reported as `ActivationFailed` and the
    /// process stays unconfined; it is then up to the embedding to stop.
    fn activate(&mut self) -> (r: Result<(), SandboxError>)
        ensures
            final(self).profile_spec() == old(self).profile_spec(),
            final(self).supported_limit_spec() == old(self).supported_limit_spec(),
            old(self).expressible() ==> r is Ok,
            !old(self).expressible() ==> (r matches Err(e) && e is ActivationFailed
                && final(self).activated() == old(self).activated()),
    {
        let expressible = all_below(&self.profile.denied, self.supported_limit);
        proof {
            assert(self.profile_spec().denied_ops() == self.profile.denied@);
            assert(expressible == self.expressible());
        }
        if !expressible {
            return Err(SandboxError::ActivationFailed(
                "the profile denies an operation this platform cannot express".to_owned(),
            ));
        }
        self.active = true;
        Ok(())
    }
}

/// Activation is effective and irreversible in the in-memory backend: an
/// activated child sandbox denies every operation its policy denies, and
/// the contract of [`ChildSandboxMethods::activate`] says an activated
/// sandbox never returns to the unrestricted state.
pub proof fn lemma_active_denies(s: ModelChildSandbox, op: u64)
    requires
        s.activated(),
        s.profile_spec().denies(op),
    ensures
        !s.permits(op),
{
}

} // verus!
