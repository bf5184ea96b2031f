//! Resolution of the sysroot cache root and derivation of per-triple paths.
//!
//! The cache root comes from an environment override when one is set, and
//! otherwise from the user's home directory plus a fixed cache folder. A
//! native-mode root gets one extra fixed marker component, so host-native and
//! cross sysroots never share a path. Reading the environment and the home
//! directory is the unverified shell's job; this module takes both as plain
//! values and derives every path from them.

use vstd::prelude::*;
use crate::paths::AbsPath;
use crate::errors::Error;
use crate::locks::{LockMode, LockTable, ScopedLock};

verus! {

/// The components appended under the cache root on the way to any sysroot.
pub open spec fn spec_sysroot_suffix(triple: Seq<char>) -> Seq<Seq<char>> {
    seq!["lib"@, "rustlib"@, triple]
}

/// Where `triple`'s sysroot lives under the cache root `base`.
pub open spec fn spec_sysroot(base: Seq<Seq<char>>, triple: Seq<char>) -> Seq<Seq<char>> {
    base + spec_sysroot_suffix(triple)
}

/// The cache root that `resolve` derives: the override verbatim when present,
/// otherwise the home directory plus the fixed cache folder; with the native
/// marker appended in native mode. Meaningful only when an override or a home
/// directory exists.
pub open spec fn spec_resolved_base(
    cache_override: Option<AbsPath>,
    user_home: Option<AbsPath>,
    is_native: bool,
) -> Seq<Seq<char>> {
    let root = match cache_override {
        Some(p) => p@,
        None => match user_home {
            Some(h) => h@.push(".xargo"@),
            None => Seq::<Seq<char>>::empty(),
        },
    };
    if is_native {
        root.push("HOST"@)
    } else {
        root
    }
}

/// The resolved sysroot cache root for one invocation.
pub struct SysrootHome {
    base: AbsPath,
    is_native: bool,
}

impl View for SysrootHome {
    type V = Seq<Seq<char>>;

    /// The component sequence of the cache root directory.
    closed spec fn view(&self) -> Seq<Seq<char>> {
        self.base@
    }
}

impl SysrootHome {
    /// Whether this invocation compiles for the host's own triple.
    pub closed spec fn spec_is_native(&self) -> bool {
        self.is_native
    }

    /// A native-mode root always ends in the fixed marker component, keeping
    /// it apart from every cross-compilation root derived from the same
    /// inputs.
    pub open spec fn wf(&self) -> bool {
        self.spec_is_native() ==> self@.len() > 0 && self@.last() == "HOST"@
    }

    /// Derives the cache root from the environment override and the user's
    /// home directory, both supplied as plain values by the caller.
    ///
    /// Fails with `ConfigurationError` exactly when neither is available; no
    /// other outcome is possible.
    pub fn resolve(
        cache_override: Option<AbsPath>,
        user_home: Option<AbsPath>,
        is_native: bool,
    ) -> (r: Result<SysrootHome, Error>)
        ensures
            r is Ok <==> (cache_override is Some || user_home is Some),
            r is Err ==> (r matches Err(e) && e is ConfigurationError),
            r matches Ok(h) ==> {
                &&& h.spec_is_native() == is_native
                &&& h.wf()
                &&& h@ =~= spec_resolved_base(cache_override, user_home, is_native)
            },
    {
        let mut base = match cache_override {
            Some(p) => p,
            None => match user_home {
                Some(h) => h.join(".xargo"),
                None => {
                    return Err(Error::ConfigurationError);
                },
            },
        };
        if is_native {
            base.push("HOST".to_owned());
        }
        Ok(SysrootHome { base, is_native })
    }

    /// The cache root itself, for display and for the shell to create.
    pub fn display(&self) -> (r: AbsPath)
        ensures
            r@ =~= self@,
    {
        self.base.clone_path()
    }

    /// The directory that holds `triple`'s sysroot.
    pub fn sysroot_path(&self, triple: &str) -> (r: AbsPath)
        ensures
            r@ =~= spec_sysroot(self@, triple@),
    {
        let mut r = self.base.clone_path();
        r.push("lib".to_owned());
        r.push("rustlib".to_owned());
        r.push(triple.to_owned());
        r
    }

    /// Takes the shared (read) advisory lock protecting `triple`'s sysroot
    /// in the given lock table; the shell mirrors each grant one-for-one
    /// with an OS shared lock on `sentinel_path(triple)`. `None` means an
    /// exclusive holder exists and the caller must wait.
    pub fn lock_shared(&self, table: &mut LockTable, triple: &str) -> (r: Option<ScopedLock>)
        requires
            old(table).wf(),
        ensures
            final(table).wf(),
            r is Some <==> old(table).can_grant_shared(triple@),
            r matches Some(g) ==> g.triple@ == triple@ && g.mode == LockMode::Shared,
            r is Some ==> final(table).state_of(triple@).readers == old(table).state_of(
                triple@,
            ).readers + 1 && !final(table).state_of(triple@).writer,
            r is None ==> final(table).state_of(triple@) == old(table).state_of(triple@),
            forall|t2: Seq<char>|
                t2 != triple@ ==> final(table).state_of(t2) == old(table).state_of(t2),
    {
        table.acquire_shared(triple)
    }

    /// Takes the exclusive (write) advisory lock protecting `triple`'s
    /// sysroot: the mode the sysroot-builder holds while it writes. `None`
    /// means some holder exists and the caller must wait.
    pub fn lock_exclusive(&self, table: &mut LockTable, triple: &str) -> (r: Option<ScopedLock>)
        requires
            old(table).wf(),
        ensures
            final(table).wf(),
            r is Some <==> old(table).can_grant_exclusive(triple@),
            r matches Some(g) ==> g.triple@ == triple@ && g.mode == LockMode::Exclusive,
            r is Some ==> final(table).state_of(triple@).readers == 0 && final(table).state_of(
                triple@,
            ).writer,
            r is None ==> final(table).state_of(triple@) == old(table).state_of(triple@),
            forall|t2: Seq<char>|
                t2 != triple@ ==> final(table).state_of(t2) == old(table).state_of(t2),
    {
        table.acquire_exclusive(triple)
    }

    /// The sentinel file inside `triple`'s sysroot on which the advisory
    /// locks are taken. Its content is never read; only its lock state
    /// matters.
    pub fn sentinel_path(&self, triple: &str) -> (r: AbsPath)
        ensures
            r@ =~= spec_sysroot(self@, triple@).push(".sentinel"@),
    {
        let mut r = self.sysroot_path(triple);
        r.push(".sentinel".to_owned());
        r
    }
}

/// Law: for the same override/home-directory inputs, the native-mode cache
/// root yields a sysroot path that carries the marker component right after
/// the shared root, and that path is never equal to the non-native one for
/// the same triple.
pub proof fn lemma_native_sysroots_distinct(
    cache_override: Option<AbsPath>,
    user_home: Option<AbsPath>,
    triple: Seq<char>,
)
    ensures
        spec_sysroot(spec_resolved_base(cache_override, user_home, true), triple)
            != spec_sysroot(spec_resolved_base(cache_override, user_home, false), triple),
        ({
            let root = spec_resolved_base(cache_override, user_home, false);
            spec_sysroot(spec_resolved_base(cache_override, user_home, true), triple)[root.len() as int]
                == "HOST"@
        }),
{
    let root = spec_resolved_base(cache_override, user_home, false);
    let native = spec_sysroot(spec_resolved_base(cache_override, user_home, true), triple);
    let cross = spec_sysroot(root, triple);
    assert(native.len() == root.len() + 4);
    assert(cross.len() == root.len() + 3);
    assert(native[root.len() as int] == "HOST"@);
}

} // verus!
