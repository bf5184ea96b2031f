//! Planning the external build invocation.
//!
//! The build itself is an opaque external command. This module fixes what
//! the shell must do around it: forward the caller's arguments verbatim,
//! inject the rendered build-flags value (and, for the documentation
//! subcommand, the documentation-flags value), and hold shared locks on the
//! host's and the target's sysroots — host first — for the whole launch, so
//! no writer can take either sysroot while the build consumes it. Lock
//! release is unconditional and independent of the build's outcome.

use vstd::prelude::*;
use crate::errors::Error;
use crate::home::{SysrootHome, spec_sysroot};
use crate::locks::{LockMode, LockTable, ScopedLock};
use crate::paths::AbsPath;

verus! {

/// One lock the shell must take before the build runs: on the sentinel
/// file given, in the mode given, tagged with the triple for messages.
pub struct LockRequest {
    pub triple: String,
    pub mode: LockMode,
    pub sentinel: AbsPath,
}

/// Everything the shell needs to launch the external build: the caller's
/// arguments verbatim, the environment variables to inject, the locks to
/// hold around the launch (in order), and whether to echo the flags first.
pub struct BuildPlan {
    pub args: Vec<String>,
    pub env: Vec<(String, String)>,
    pub locks: Vec<LockRequest>,
    pub echo_flags: bool,
}

fn clone_strings(v: &Vec<String>) -> (r: Vec<String>)
    ensures
        r.deep_view() =~~= v.deep_view(),
{
    let mut r: Vec<String> = Vec::new();
    let mut i: usize = 0;
    while i < v.len()
        invariant
            i <= v@.len(),
            r@.len() == i,
            forall|j: int| 0 <= j < i ==> r@[j]@ == v@[j]@,
        decreases v@.len() - i,
    {
        r.push(v[i].clone());
        i += 1;
    }
    r
}

/// Assembles the plan for one build invocation.
///
/// `is_doc` says whether the invoked subcommand generates documentation;
/// only then is the documentation-flags value injected. `rustflags` and
/// `doc_flags` arrive already rendered by their collaborators. Both locks
/// are shared, host before target.
pub fn plan_build(
    args: &Vec<String>,
    is_doc: bool,
    rustflags: String,
    doc_flags: String,
    home: &SysrootHome,
    host_triple: &str,
    target_triple: &str,
    verbose: bool,
) -> (r: BuildPlan)
    ensures
        r.args.deep_view() =~~= args.deep_view(),
        r.echo_flags == verbose,
        r.env@.len() == (if is_doc {
            2int
        } else {
            1int
        }),
        is_doc ==> r.env@[0].0@ == "RUSTDOCFLAGS"@ && r.env@[0].1@ == doc_flags@,
        r.env@.last().0@ == "RUSTFLAGS"@ && r.env@.last().1@ == rustflags@,
        r.locks@.len() == 2,
        r.locks@[0].triple@ == host_triple@,
        r.locks@[0].mode == LockMode::Shared,
        r.locks@[0].sentinel@ =~= spec_sysroot(home@, host_triple@).push(".sentinel"@),
        r.locks@[1].triple@ == target_triple@,
        r.locks@[1].mode == LockMode::Shared,
        r.locks@[1].sentinel@ =~= spec_sysroot(home@, target_triple@).push(".sentinel"@),
{
    let mut env: Vec<(String, String)> = Vec::new();
    if is_doc {
        env.push(("RUSTDOCFLAGS".to_owned(), doc_flags));
    }
    env.push(("RUSTFLAGS".to_owned(), rustflags));
    let mut locks: Vec<LockRequest> = Vec::new();
    locks.push(
        LockRequest {
            triple: host_triple.to_owned(),
            mode: LockMode::Shared,
            sentinel: home.sentinel_path(host_triple),
        },
    );
    locks.push(
        LockRequest {
            triple: target_triple.to_owned(),
            mode: LockMode::Shared,
            sentinel: home.sentinel_path(target_triple),
        },
    );
    BuildPlan { args: clone_strings(args), env, locks, echo_flags: verbose }
}

/// Takes the two shared locks of a build, host first, then target — the
/// same protocol the shell follows on the real sentinels. Either both are
/// granted, or nothing changes: a refusal of the target lock gives back the
/// host lock before reporting, and the error names the triple that could
/// not be locked.
pub fn acquire_build_locks(table: &mut LockTable, host_triple: &str, target_triple: &str) -> (r:
    Result<(ScopedLock, ScopedLock), Error>)
    requires
        old(table).wf(),
    ensures
        final(table).wf(),
        host_triple@ != target_triple@ ==> (r is Ok <==> old(table).can_grant_shared(host_triple@)
            && old(table).can_grant_shared(target_triple@)),
        r matches Ok((h, t)) ==> h.triple@ == host_triple@ && h.mode == LockMode::Shared
            && t.triple@ == target_triple@ && t.mode == LockMode::Shared,
        r is Ok && host_triple@ != target_triple@ ==> final(table).state_of(host_triple@).readers
            == old(table).state_of(host_triple@).readers + 1 && final(table).state_of(
            target_triple@,
        ).readers == old(table).state_of(target_triple@).readers + 1,
        r is Ok && host_triple@ == target_triple@ ==> final(table).state_of(host_triple@).readers
            == old(table).state_of(host_triple@).readers + 2,
        r is Ok ==> !final(table).state_of(host_triple@).writer && !final(table).state_of(
            target_triple@,
        ).writer,
        forall|t2: Seq<char>|
            t2 != host_triple@ && t2 != target_triple@ ==> final(table).state_of(t2) == old(
                table,
            ).state_of(t2),
        r is Err ==> forall|t2: Seq<char>| final(table).state_of(t2) == old(table).state_of(t2),
        r matches Err(e) ==> (e matches Error::LockError { triple } && (triple@ == host_triple@
            || triple@ == target_triple@)),
{
    let host_lock = match table.acquire_shared(host_triple) {
        Some(l) => l,
        None => {
            return Err(Error::LockError { triple: host_triple.to_owned() });
        },
    };
    match table.acquire_shared(target_triple) {
        Some(target_lock) => Ok((host_lock, target_lock)),
        None => {
            table.release(host_lock);
            Err(Error::LockError { triple: target_triple.to_owned() })
        },
    }
}

/// The end of a build: `status` is the external process's exit status, or
/// `None` when it could not be started at all. A non-zero status is a
/// normal, reportable outcome, propagated unchanged; only a failed launch
/// is an error.
pub fn build_outcome(status: Option<i32>) -> (r: Result<i32, Error>)
    ensures
        status matches Some(s) ==> r == Ok::<i32, Error>(s),
        status is None ==> (r matches Err(e) && e is BuildLaunchError),
{
    match status {
        Some(s) => Ok(s),
        None => Err(Error::BuildLaunchError),
    }
}

} // verus!
