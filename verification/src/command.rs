//! The process-description builder.
//!
//! A [`Command`] accumulates an executable path, an ordered argument list
//! and a key/value environment overlay, all as raw byte strings, and is
//! consumed exactly once by [`Command::spawn`], which materializes the
//! accumulated state into a [`SpawnRequest`]. The embedding program (or a
//! parent-side sandbox backend) turns that request into the actual
//! operating-system process-creation call; the environment handed to the
//! child is exactly the accumulated overlay, with no implicit inheritance
//! of the parent's ambient environment.

use vstd::prelude::*;

use crate::bytes::all_nul_free;
use crate::bytes::bytes_eq;
use crate::bytes::check_nul_free;
use crate::bytes::nul_free;
use crate::bytes::pair_views_of;
use crate::bytes::views_of;
use crate::error::SandboxError;

verus! {

/// The environment overlay a list of entries denotes: later entries of the
/// list override earlier ones with the same key.
pub open spec fn env_map(s: Seq<(Seq<u8>, Seq<u8>)>) -> Map<Seq<u8>, Seq<u8>>
    decreases s.len(),
{
    if s.len() == 0 {
        Map::empty()
    } else {
        env_map(s.drop_last()).insert(s.last().0, s.last().1)
    }
}

/// Each key occurs at most once in the entry list.
pub open spec fn unique_keys(s: Seq<(Seq<u8>, Seq<u8>)>) -> bool {
    forall|i: int, j: int| 0 <= i < j < s.len() ==> (#[trigger] s[i]).0 != (#[trigger] s[j]).0
}

/// Every key and every value of the entry list is null-free.
pub open spec fn entries_nul_free(s: Seq<(Seq<u8>, Seq<u8>)>) -> bool {
    forall|i: int| 0 <= i < s.len() ==> nul_free((#[trigger] s[i]).0) && nul_free(s[i].1)
}

/// With unique keys, rewriting the value at the entry that carries a key
/// denotes the same overlay as a map insert of that key.
pub proof fn lemma_env_map_update(s: Seq<(Seq<u8>, Seq<u8>)>, i: int, v: Seq<u8>)
    requires
        unique_keys(s),
        0 <= i < s.len(),
    ensures
        env_map(s.update(i, (s[i].0, v))) == env_map(s).insert(s[i].0, v),
    decreases s.len(),
{
    let t = s.update(i, (s[i].0, v));
    if i == s.len() - 1 {
        assert(t.drop_last() =~= s.drop_last());
        assert(env_map(s.drop_last()).insert(s[i].0, v)
            =~= env_map(s.drop_last()).insert(s.last().0, s.last().1).insert(s[i].0, v));
    } else {
        assert(t.drop_last() =~= s.drop_last().update(i, (s[i].0, v)));
        assert(forall|a: int, b: int| 0 <= a < b < s.len() - 1
            ==> (#[trigger] s.drop_last()[a]).0 != (#[trigger] s.drop_last()[b]).0);
        lemma_env_map_update(s.drop_last(), i, v);
        assert(s[i].0 != s[s.len() - 1].0);
        assert(t.last() == s.last());
        assert(env_map(s.drop_last()).insert(s[i].0, v).insert(s.last().0, s.last().1)
            =~= env_map(s.drop_last()).insert(s.last().0, s.last().1).insert(s[i].0, v));
    }
}

/// Appending an entry denotes a map insert of its key and value.
pub proof fn lemma_env_map_push(s: Seq<(Seq<u8>, Seq<u8>)>, k: Seq<u8>, v: Seq<u8>)
    ensures
        env_map(s.push((k, v))) == env_map(s).insert(k, v),
{
    assert(s.push((k, v)).drop_last() =~= s);
    assert(s.push((k, v)).last() == (k, v));
}

/// Writing a key twice leaves exactly the later value: the overlay is the
/// same as if only the second write had happened.
pub proof fn lemma_env_last_write_wins(
    m: Map<Seq<u8>, Seq<u8>>,
    k: Seq<u8>,
    a: Seq<u8>,
    b: Seq<u8>,
)
    ensures
        m.insert(k, a).insert(k, b) == m.insert(k, b),
{
    assert(m.insert(k, a).insert(k, b) =~= m.insert(k, b));
}

/// A description of a process to be launched: the executable path, the
/// positional arguments in call order, and the environment overlay with
/// unique keys where the last write to a key wins. Every byte string in it
/// is null-free; the builder rejects anything else with
/// [`SandboxError::InvalidArgument`].
pub struct Command {
    program_path: Vec<u8>,
    args: Vec<Vec<u8>>,
    env: Vec<(Vec<u8>, Vec<u8>)>,
}

/// The materialized process-creation request a [`Command`] is consumed
/// into: plain data the embedding hands to the operating system. The
/// fields are exactly the accumulated state of the command, and
/// [`SpawnRequest::wf`] says every byte string in them is null-free.
pub struct SpawnRequest {
    /// The program image to run.
    pub program_path: Vec<u8>,
    /// The positional arguments, in the order they were added.
    pub args: Vec<Vec<u8>>,
    /// The environment entries, one per key; the child receives exactly
    /// these, with no implicit inheritance.
    pub env: Vec<(Vec<u8>, Vec<u8>)>,
}

impl SpawnRequest {
    /// The view of the executable path.
    pub open spec fn path_view(&self) -> Seq<u8> {
        self.program_path@
    }

    /// The view of the argument list.
    pub open spec fn args_view(&self) -> Seq<Seq<u8>> {
        views_of(self.args@)
    }

    /// The view of the environment entry list.
    pub open spec fn env_entries(&self) -> Seq<(Seq<u8>, Seq<u8>)> {
        pair_views_of(self.env@)
    }

    /// The environment overlay as a map.
    pub open spec fn env_view(&self) -> Map<Seq<u8>, Seq<u8>> {
        env_map(self.env_entries())
    }

    /// Everything in the request can be handed to the operating system
    /// verbatim: every byte string is null-free and each environment key
    /// occurs once.
    pub open spec fn wf(&self) -> bool {
        &&& nul_free(self.path_view())
        &&& all_nul_free(self.args_view())
        &&& entries_nul_free(self.env_entries())
        &&& unique_keys(self.env_entries())
    }
}

impl Command {
    /// The view of the executable path.
    pub closed spec fn path_view(&self) -> Seq<u8> {
        self.program_path@
    }

    /// The view of the argument list.
    pub closed spec fn args_view(&self) -> Seq<Seq<u8>> {
        views_of(self.args@)
    }

    /// The view of the environment entry list, in insertion order.
    pub closed spec fn env_entries(&self) -> Seq<(Seq<u8>, Seq<u8>)> {
        pair_views_of(self.env@)
    }

    /// The environment overlay as a map; the entry list denotes it with
    /// unique keys, so the last write to a key is the one the map holds.
    pub closed spec fn env_view(&self) -> Map<Seq<u8>, Seq<u8>> {
        env_map(self.env_entries())
    }

    /// Every command ever built satisfies this: all byte strings in it are
    /// null-free and each environment key occurs once.
    #[verifier::type_invariant]
    pub closed spec fn wf(&self) -> bool {
        &&& nul_free(self.path_view())
        &&& all_nul_free(self.args_view())
        &&& entries_nul_free(self.env_entries())
        &&& unique_keys(self.env_entries())
    }

    /// Constructs a command for launching the executable at `program_path`,
    /// with no arguments and an empty environment by default; the builder
    /// methods change these. Fails with `InvalidArgument` when the path
    /// contains an interior null byte.
    pub fn new(program_path: Vec<u8>) -> (r: Result<Command, SandboxError>)
        ensures
            nul_free(program_path@) ==> (r matches Ok(c)
                && c.path_view() == program_path@
                && c.args_view() == Seq::<Seq<u8>>::empty()
                && c.env_entries() == Seq::<(Seq<u8>, Seq<u8>)>::empty()
                && c.env_view() == Map::<Seq<u8>, Seq<u8>>::empty()),
            !nul_free(program_path@) ==> (r matches Err(e) && e is InvalidArgument),
    {
        if !check_nul_free(&program_path) {
            return Err(SandboxError::InvalidArgument);
        }
        let args: Vec<Vec<u8>> = Vec::new();
        let env: Vec<(Vec<u8>, Vec<u8>)> = Vec::new();
        proof {
            assert(views_of(args@) =~= Seq::<Seq<u8>>::empty());
            assert(pair_views_of(env@) =~= Seq::<(Seq<u8>, Seq<u8>)>::empty());
        }
        let c = Command { program_path, args, env };
        proof {
            assert(c.env_view() =~= Map::<Seq<u8>, Seq<u8>>::empty());
        }
        Ok(c)
    }

    /// Constructs a command for launching the current executable. The
    /// embedding resolves the running program's own image path from the
    /// operating system and passes it here, or `None` when that lookup
    /// failed, which this constructor reports as `EnvironmentLookupFailed`.
    pub fn me(current_exe: Option<Vec<u8>>) -> (r: Result<Command, SandboxError>)
        ensures
            current_exe is None ==> (r matches Err(e) && e is EnvironmentLookupFailed),
            current_exe matches Some(p) ==> ({
                &&& nul_free(p@) ==> (r matches Ok(c)
                    && c.path_view() == p@
                    && c.args_view() == Seq::<Seq<u8>>::empty()
                    && c.env_view() == Map::<Seq<u8>, Seq<u8>>::empty())
                &&& !nul_free(p@) ==> (r matches Err(e) && e is InvalidArgument)
            }),
    {
        match current_exe {
            None => Err(SandboxError::EnvironmentLookupFailed),
            Some(p) => Command::new(p),
        }
    }

    /// Appends one positional argument. Fails with `InvalidArgument` when
    /// the value contains an interior null byte; the path, the earlier
    /// arguments and the environment are unchanged on success.
    pub fn arg(self, value: Vec<u8>) -> (r: Result<Command, SandboxError>)
        ensures
            nul_free(value@) ==> (r matches Ok(c)
                && c.path_view() == self.path_view()
                && c.args_view() == self.args_view().push(value@)
                && c.env_entries() == self.env_entries()
                && c.env_view() == self.env_view()),
            !nul_free(value@) ==> (r matches Err(e) && e is InvalidArgument),
    {
        if !check_nul_free(&value) {
            return Err(SandboxError::InvalidArgument);
        }
        proof {
            use_type_invariant(&self);
        }
        let Command { program_path, mut args, env } = self;
        args.push(value);
        proof {
            assert(views_of(args@) =~= self.args_view().push(value@));
            assert forall|i: int| 0 <= i < views_of(args@).len()
                implies nul_free(#[trigger] views_of(args@)[i]) by {
                if i < self.args_view().len() {
                    assert(nul_free(self.args_view()[i]));
                }
            }
        }
        let c = Command { program_path, args, env };
        Ok(c)
    }

    /// Appends many positional arguments, in call order. Fails with
    /// `InvalidArgument` when any value contains an interior null byte, in
    /// which case none of them is appended.
    pub fn args(self, values: Vec<Vec<u8>>) -> (r: Result<Command, SandboxError>)
        ensures
            all_nul_free(views_of(values@)) ==> (r matches Ok(c)
                && c.path_view() == self.path_view()
                && c.args_view() == self.args_view() + views_of(values@)
                && c.env_entries() == self.env_entries()
                && c.env_view() == self.env_view()),
            !all_nul_free(views_of(values@)) ==> (r matches Err(e) && e is InvalidArgument),
    {
        let mut k: usize = 0;
        while k < values.len()
            invariant
                k <= values.len(),
                forall|j: int| 0 <= j < k ==> nul_free(#[trigger] views_of(values@)[j]),
            decreases values.len() - k,
        {
            let ok = check_nul_free(&values[k]);
            proof {
                assert(views_of(values@)[k as int] == values@[k as int]@);
            }
            if !ok {
                return Err(SandboxError::InvalidArgument);
            }
            k += 1;
        }
        proof {
            use_type_invariant(&self);
        }
        let Command { program_path, mut args, env } = self;
        let mut rest = values;
        args.append(&mut rest);
        proof {
            assert(views_of(args@) =~= self.args_view() + views_of(values@));
            assert forall|i: int| 0 <= i < views_of(args@).len()
                implies nul_free(#[trigger] views_of(args@)[i]) by {
                if i < self.args_view().len() {
                    assert(nul_free(self.args_view()[i]));
                } else {
                    assert(views_of(args@)[i] == views_of(values@)[i - self.args_view().len()]);
                }
            }
        }
        let c = Command { program_path, args, env };
        Ok(c)
    }

    /// Inserts or updates one environment entry: the last write to a key
    /// wins, and no residue of an earlier value for that key remains.
    /// Fails with `InvalidArgument` when the key or the value contains an
    /// interior null byte; the path and the arguments are unchanged on
    /// success.
    #[verifier::loop_isolation(false)]
    pub fn env(self, key: Vec<u8>, val: Vec<u8>) -> (r: Result<Command, SandboxError>)
        ensures
            (nul_free(key@) && nul_free(val@)) ==> (r matches Ok(c)
                && c.path_view() == self.path_view()
                && c.args_view() == self.args_view()
                && c.env_view() == self.env_view().insert(key@, val@)
                && ((exists|i: int| 0 <= i < self.env_entries().len()
                        && (#[trigger] self.env_entries()[i]).0 == key@
                        && c.env_entries() == self.env_entries().update(i, (key@, val@)))
                    || c.env_entries() == self.env_entries().push((key@, val@)))),
            !(nul_free(key@) && nul_free(val@)) ==> (r matches Err(e) && e is InvalidArgument),
    {
        if !check_nul_free(&key) || !check_nul_free(&val) {
            return Err(SandboxError::InvalidArgument);
        }
        proof {
            use_type_invariant(&self);
        }
        let Command { program_path, args, mut env } = self;
        let ghost entries = pair_views_of(env@);
        let mut i: usize = 0;
        while i < env.len()
            invariant
                i <= env.len(),
                env@ == self.env@,
                entries == pair_views_of(env@),
                forall|j: int| 0 <= j < i ==> (#[trigger] entries[j]).0 != key@,
            decreases env.len() - i,
        {
            let same = bytes_eq(&env[i].0, &key);
            proof {
                assert(entries[i as int] == (env@[i as int].0@, env@[i as int].1@));
            }
            if same {
                env[i] = (key, val);
                proof {
                    let upd = entries.update(i as int, (entries[i as int].0, val@));
                    assert(pair_views_of(env@) =~= upd);
                    lemma_env_map_update(entries, i as int, val@);
                    assert forall|a: int, b: int| 0 <= a < b < upd.len()
                        implies (#[trigger] upd[a]).0 != (#[trigger] upd[b]).0 by {
                        assert(upd[a].0 == entries[a].0);
                        assert(upd[b].0 == entries[b].0);
                    }
                    assert forall|j: int| 0 <= j < upd.len()
                        implies nul_free((#[trigger] upd[j]).0) && nul_free(upd[j].1) by {
                        if j != i {
                            assert(upd[j] == entries[j]);
                            assert(nul_free(entries[j].0) && nul_free(entries[j].1));
                        }
                    }
                }
                let c = Command { program_path, args, env };
                return Ok(c);
            }
            i += 1;
        }
        env.push((key, val));
        proof {
            assert(pair_views_of(env@) =~= entries.push((key@, val@)));
            lemma_env_map_push(entries, key@, val@);
            let upd = entries.push((key@, val@));
            assert forall|a: int, b: int| 0 <= a < b < upd.len()
                implies (#[trigger] upd[a]).0 != (#[trigger] upd[b]).0 by {
                assert(upd[a].0 == entries[a].0);
                if b < entries.len() {
                    assert(upd[b].0 == entries[b].0);
                } else {
                    assert(upd[b].0 == key@);
                    assert(entries[a].0 != key@);
                }
            }
            assert forall|j: int| 0 <= j < upd.len()
                implies nul_free((#[trigger] upd[j]).0) && nul_free(upd[j].1) by {
                if j < entries.len() {
                    assert(upd[j] == entries[j]);
                    assert(nul_free(entries[j].0) && nul_free(entries[j].1));
                }
            }
        }
        let c = Command { program_path, args, env };
        Ok(c)
    }

    /// Consumes the command and materializes the accumulated state into a
    /// process-creation request that carries exactly the supplied path,
    /// arguments and environment — nothing reordered, nothing inherited,
    /// nothing dropped. The embedding performs the operating-system spawn
    /// from the returned request.
    pub fn spawn(self) -> (r: SpawnRequest)
        ensures
            r.path_view() == self.path_view(),
            r.args_view() == self.args_view(),
            r.env_entries() == self.env_entries(),
            r.env_view() == self.env_view(),
            r.wf(),
    {
        proof {
            use_type_invariant(&self);
        }
        let Command { program_path, args, env } = self;
        SpawnRequest { program_path, args, env }
    }
}

} // verus!
