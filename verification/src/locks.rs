//! Reader/writer lock discipline over per-triple sysroot sentinels.
//!
//! Concurrent invocations race on the shared sysroot cache. Every consumer of
//! a sysroot must hold a shared lock on that triple's sentinel; whatever
//! process writes a sysroot holds an exclusive lock. This module is the lock
//! discipline itself as a verified state machine: a table from triple to lock
//! state, with acquisition grantable exactly under reader/writer rules. The
//! unverified shell mirrors each granted acquisition one-for-one with an
//! advisory OS file lock on the sentinel, whose release is automatic when the
//! holder's scope ends (or its process dies), so the cache can never be
//! wedged permanently.

use vstd::prelude::*;

verus! {

/// The two modes of an advisory lock on a sysroot sentinel.
#[derive(PartialEq, Eq, Structural, Clone, Copy, Debug)]
pub enum LockMode {
    /// Read concurrency: any number of holders, none while a writer holds.
    Shared,
    /// Single holder, excluding every other holder of either mode.
    Exclusive,
}

/// The lock state of one triple's sysroot sentinel.
pub ghost struct LockState {
    /// How many shared holds are outstanding.
    pub readers: nat,
    /// Whether an exclusive hold is outstanding.
    pub writer: bool,
}

/// An advisory hold on one triple's sysroot sentinel, as handed out by a
/// successful acquisition. Give it back to `LockTable::release`; the shell's
/// matching OS file lock additionally releases itself when the holder's
/// scope ends.
pub struct ScopedLock {
    pub triple: String,
    pub mode: LockMode,
}

struct LockEntry {
    triple: String,
    readers: u64,
    writer: bool,
}

/// The lock state of every triple's sysroot, keyed by the triple string.
/// A triple with no entry is unlocked.
pub struct LockTable {
    entries: Vec<LockEntry>,
}

impl LockTable {
    /// Some entry carries this triple.
    spec fn has_entry(&self, t: Seq<char>) -> bool {
        exists|i: int| 0 <= i < self.entries@.len() && self.entries@[i].triple@ == t
    }

    /// The lock state recorded for triple `t`; unlocked when no entry exists.
    pub closed spec fn state_of(&self, t: Seq<char>) -> LockState {
        if self.has_entry(t) {
            let i = choose|i: int|
                0 <= i < self.entries@.len() && self.entries@[i].triple@ == t;
            LockState {
                readers: self.entries@[i].readers as nat,
                writer: self.entries@[i].writer,
            }
        } else {
            LockState { readers: 0, writer: false }
        }
    }

    /// No two entries share a triple, so `state_of` is unambiguous.
    spec fn keys_unique(&self) -> bool {
        forall|i: int, j: int|
            0 <= i < j < self.entries@.len()
                ==> self.entries@[i].triple@ != self.entries@[j].triple@
    }

    /// Reader/writer exclusion: a writer never coexists with readers.
    spec fn states_ok(&self) -> bool {
        forall|i: int|
            0 <= i < self.entries@.len()
                ==> (#[trigger] self.entries@[i].writer ==> self.entries@[i].readers == 0)
    }

    /// Every operation preserves this; it is what makes the lock a lock.
    pub closed spec fn wf(&self) -> bool {
        self.keys_unique() && self.states_ok()
    }

    /// A shared lock on `t` is grantable: no exclusive holder (and room to
    /// count one more reader).
    pub open spec fn can_grant_shared(&self, t: Seq<char>) -> bool {
        !self.state_of(t).writer && self.state_of(t).readers < u64::MAX
    }

    /// An exclusive lock on `t` is grantable: no holder of any mode.
    pub open spec fn can_grant_exclusive(&self, t: Seq<char>) -> bool {
        !self.state_of(t).writer && self.state_of(t).readers == 0
    }

    /// The entry at index `i` is exactly what `state_of` reports for its
    /// triple.
    proof fn lemma_state_at(&self, i: int)
        requires
            self.keys_unique(),
            0 <= i < self.entries@.len(),
        ensures
            self.has_entry(self.entries@[i].triple@),
            self.state_of(self.entries@[i].triple@) == (LockState {
                readers: self.entries@[i].readers as nat,
                writer: self.entries@[i].writer,
            }),
    {
        let t = self.entries@[i].triple@;
        assert(self.has_entry(t));
        let j = choose|j: int|
            0 <= j < self.entries@.len() && self.entries@[j].triple@ == t;
        if i < j {
            assert(self.entries@[i].triple@ != self.entries@[j].triple@);
        } else if j < i {
            assert(self.entries@[j].triple@ != self.entries@[i].triple@);
        }
    }

    /// Replacing entry `i` with one for the same triple changes `state_of`
    /// nowhere else.
    proof fn lemma_update_state(pre: LockTable, post: LockTable, i: int)
        requires
            pre.keys_unique(),
            0 <= i < pre.entries@.len(),
            post.entries@.len() == pre.entries@.len(),
            post.entries@[i].triple@ == pre.entries@[i].triple@,
            forall|j: int|
                0 <= j < pre.entries@.len() && j != i
                    ==> post.entries@[j] == pre.entries@[j],
        ensures
            post.keys_unique(),
            post.state_of(pre.entries@[i].triple@) == (LockState {
                readers: post.entries@[i].readers as nat,
                writer: post.entries@[i].writer,
            }),
            forall|t2: Seq<char>|
                t2 != pre.entries@[i].triple@
                    ==> post.state_of(t2) == pre.state_of(t2),
    {
        let t = pre.entries@[i].triple@;
        assert forall|a: int, b: int|
            0 <= a < b < post.entries@.len() implies
            post.entries@[a].triple@ != post.entries@[b].triple@ by {
            assert(pre.entries@[a].triple@ != pre.entries@[b].triple@);
        }
        post.lemma_state_at(i);
        assert forall|t2: Seq<char>| t2 != t implies
            post.state_of(t2) == pre.state_of(t2) by {
            if pre.has_entry(t2) {
                let j = choose|j: int|
                    0 <= j < pre.entries@.len() && pre.entries@[j].triple@ == t2;
                assert(j != i);
                pre.lemma_state_at(j);
                assert(post.entries@[j].triple@ == t2);
                post.lemma_state_at(j);
            } else {
                if post.has_entry(t2) {
                    let j = choose|j: int|
                        0 <= j < post.entries@.len() && post.entries@[j].triple@ == t2;
                    assert(j != i);
                    assert(pre.entries@[j].triple@ == t2);
                }
            }
        }
    }

    /// Appending an entry for a fresh triple changes `state_of` only there.
    proof fn lemma_push_state(pre: LockTable, post: LockTable, t: Seq<char>)
        requires
            pre.keys_unique(),
            !pre.has_entry(t),
            post.entries@.len() == pre.entries@.len() + 1,
            post.entries@.last().triple@ == t,
            forall|j: int|
                0 <= j < pre.entries@.len() ==> post.entries@[j] == pre.entries@[j],
        ensures
            post.keys_unique(),
            post.state_of(t) == (LockState {
                readers: post.entries@.last().readers as nat,
                writer: post.entries@.last().writer,
            }),
            forall|t2: Seq<char>| t2 != t ==> post.state_of(t2) == pre.state_of(t2),
    {
        let n = pre.entries@.len() as int;
        assert forall|a: int, b: int|
            0 <= a < b < post.entries@.len() implies
            post.entries@[a].triple@ != post.entries@[b].triple@ by {
            if b < n {
                assert(pre.entries@[a].triple@ != pre.entries@[b].triple@);
            } else {
                assert(post.entries@[b].triple@ == t);
                assert(pre.entries@[a].triple@ != t);
            }
        }
        post.lemma_state_at(n);
        assert forall|t2: Seq<char>| t2 != t implies
            post.state_of(t2) == pre.state_of(t2) by {
            if pre.has_entry(t2) {
                let j = choose|j: int|
                    0 <= j < pre.entries@.len() && pre.entries@[j].triple@ == t2;
                pre.lemma_state_at(j);
                assert(post.entries@[j].triple@ == t2);
                post.lemma_state_at(j);
            } else {
                if post.has_entry(t2) {
                    let j = choose|j: int|
                        0 <= j < post.entries@.len() && post.entries@[j].triple@ == t2;
                    assert(j < n);
                    assert(pre.entries@[j].triple@ == t2);
                }
            }
        }
    }

    /// A table with nothing locked.
    pub fn new() -> (r: LockTable)
        ensures
            r.wf(),
            forall|t: Seq<char>|
                #[trigger] r.state_of(t) == (LockState { readers: 0, writer: false }),
    {
        let r = LockTable { entries: Vec::new() };
        proof {
            assert forall|t: Seq<char>|
                #[trigger] r.state_of(t) == (LockState { readers: 0, writer: false }) by {
                assert(!r.has_entry(t));
            }
        }
        r
    }

    /// The index of `key`'s entry, if one exists.
    fn find(&self, key: &String) -> (r: Option<usize>)
        ensures
            match r {
                Some(i) => i < self.entries@.len() && self.entries@[i as int].triple@ == key@,
                None => !self.has_entry(key@),
            },
    {
        let mut i: usize = 0;
        while i < self.entries.len()
            invariant
                i <= self.entries@.len(),
                forall|j: int| 0 <= j < i ==> self.entries@[j].triple@ != key@,
            decreases self.entries@.len() - i,
        {
            if self.entries[i].triple == *key {
                return Some(i);
            }
            i += 1;
        }
        None
    }

    /// How many shared holds are outstanding on `triple`.
    pub fn shared_holders(&self, triple: &str) -> (r: u64)
        requires
            self.wf(),
        ensures
            r as nat == self.state_of(triple@).readers,
    {
        let key: String = triple.to_owned();
        match self.find(&key) {
            Some(i) => {
                proof {
                    self.lemma_state_at(i as int);
                }
                self.entries[i].readers
            },
            None => 0,
        }
    }

    /// Whether an exclusive hold is outstanding on `triple`.
    pub fn has_exclusive(&self, triple: &str) -> (r: bool)
        requires
            self.wf(),
        ensures
            r == self.state_of(triple@).writer,
    {
        let key: String = triple.to_owned();
        match self.find(&key) {
            Some(i) => {
                proof {
                    self.lemma_state_at(i as int);
                }
                self.entries[i].writer
            },
            None => false,
        }
    }

    /// Tries to take a shared (read) hold on `triple`'s sentinel.
    ///
    /// Grants exactly when no exclusive holder exists (and the reader count
    /// has room); a `None` means the caller must wait and leaves the table
    /// unchanged. A grant adds one reader to `triple` and touches no other
    /// triple.
    pub fn acquire_shared(&mut self, triple: &str) -> (r: Option<ScopedLock>)
        requires
            old(self).wf(),
        ensures
            final(self).wf(),
            r is Some <==> old(self).can_grant_shared(triple@),
            r matches Some(g) ==> g.triple@ == triple@ && g.mode == LockMode::Shared,
            r is Some ==> final(self).state_of(triple@) == (LockState {
                readers: old(self).state_of(triple@).readers + 1,
                writer: false,
            }),
            r is None ==> final(self).state_of(triple@) == old(self).state_of(triple@),
            forall|t2: Seq<char>|
                t2 != triple@ ==> final(self).state_of(t2) == old(self).state_of(t2),
    {
        let key: String = triple.to_owned();
        match self.find(&key) {
            Some(i) => {
                proof {
                    self.lemma_state_at(i as int);
                }
                let readers = self.entries[i].readers;
                let writer = self.entries[i].writer;
                if writer || readers == u64::MAX {
                    None
                } else {
                    let entry = LockEntry {
                        triple: self.entries[i].triple.clone(),
                        readers: readers + 1,
                        writer: false,
                    };
                    let ghost pre = *self;
                    self.entries.set(i, entry);
                    proof {
                        Self::lemma_update_state(pre, *self, i as int);
                        assert(self.states_ok());
                    }
                    Some(ScopedLock { triple: key, mode: LockMode::Shared })
                }
            },
            None => {
                let ghost pre = *self;
                self.entries.push(LockEntry { triple: key, readers: 1, writer: false });
                proof {
                    Self::lemma_push_state(pre, *self, triple@);
                    assert(self.states_ok());
                }
                Some(ScopedLock { triple: triple.to_owned(), mode: LockMode::Shared })
            },
        }
    }

    /// Tries to take an exclusive (write) hold on `triple`'s sentinel.
    ///
    /// Grants exactly when no holder of any mode exists; a `None` means the
    /// caller must wait and leaves the table unchanged. A grant marks
    /// `triple` written and touches no other triple.
    pub fn acquire_exclusive(&mut self, triple: &str) -> (r: Option<ScopedLock>)
        requires
            old(self).wf(),
        ensures
            final(self).wf(),
            r is Some <==> old(self).can_grant_exclusive(triple@),
            r matches Some(g) ==> g.triple@ == triple@ && g.mode == LockMode::Exclusive,
            r is Some ==> final(self).state_of(triple@) == (LockState {
                readers: 0,
                writer: true,
            }),
            r is None ==> final(self).state_of(triple@) == old(self).state_of(triple@),
            forall|t2: Seq<char>|
                t2 != triple@ ==> final(self).state_of(t2) == old(self).state_of(t2),
    {
        let key: String = triple.to_owned();
        match self.find(&key) {
            Some(i) => {
                proof {
                    self.lemma_state_at(i as int);
                }
                let readers = self.entries[i].readers;
                let writer = self.entries[i].writer;
                if writer || readers > 0 {
                    None
                } else {
                    let entry = LockEntry {
                        triple: self.entries[i].triple.clone(),
                        readers: 0,
                        writer: true,
                    };
                    let ghost pre = *self;
                    self.entries.set(i, entry);
                    proof {
                        Self::lemma_update_state(pre, *self, i as int);
                        assert(self.states_ok());
                    }
                    Some(ScopedLock { triple: key, mode: LockMode::Exclusive })
                }
            },
            None => {
                let ghost pre = *self;
                self.entries.push(LockEntry { triple: key, readers: 0, writer: true });
                proof {
                    Self::lemma_push_state(pre, *self, triple@);
                    assert(self.states_ok());
                }
                Some(ScopedLock { triple: triple.to_owned(), mode: LockMode::Exclusive })
            },
        }
    }

    /// Gives back a hold. A shared hold removes one reader; an exclusive
    /// hold clears the writer. No other triple is touched.
    pub fn release(&mut self, lock: ScopedLock)
        requires
            old(self).wf(),
            lock.mode == LockMode::Shared ==> old(self).state_of(lock.triple@).readers > 0,
            lock.mode == LockMode::Exclusive ==> old(self).state_of(lock.triple@).writer,
        ensures
            final(self).wf(),
            lock.mode == LockMode::Shared ==> final(self).state_of(lock.triple@) == (LockState {
                readers: (old(self).state_of(lock.triple@).readers - 1) as nat,
                writer: false,
            }),
            lock.mode == LockMode::Exclusive ==> final(self).state_of(lock.triple@) == (LockState {
                readers: 0,
                writer: false,
            }),
            forall|t2: Seq<char>|
                t2 != lock.triple@ ==> final(self).state_of(t2) == old(self).state_of(t2),
    {
        match self.find(&lock.triple) {
            Some(i) => {
                proof {
                    self.lemma_state_at(i as int);
                }
                let entry = match lock.mode {
                    LockMode::Shared => LockEntry {
                        triple: self.entries[i].triple.clone(),
                        readers: self.entries[i].readers - 1,
                        writer: false,
                    },
                    LockMode::Exclusive => LockEntry {
                        triple: self.entries[i].triple.clone(),
                        readers: self.entries[i].readers,
                        writer: false,
                    },
                };
                let ghost pre = *self;
                self.entries.set(i, entry);
                proof {
                    Self::lemma_update_state(pre, *self, i as int);
                    assert(self.states_ok());
                }
            },
            None => {
                proof {
                    assert(false);
                }
            },
        }
    }
}

/// Law: the lock is a reader/writer lock. In any well-formed table an
/// exclusive holder on `t` coexists with no shared holder on `t`, and while
/// either kind of holder is outstanding the opposite kind is not grantable.
pub proof fn lemma_writer_excludes(table: LockTable, t: Seq<char>)
    requires
        table.wf(),
    ensures
        table.state_of(t).writer ==> table.state_of(t).readers == 0,
        table.state_of(t).writer ==> !table.can_grant_shared(t) && !table.can_grant_exclusive(t),
        table.state_of(t).readers > 0 ==> !table.can_grant_exclusive(t),
{
    table.lemma_writer_readers(t);
}

impl LockTable {
    proof fn lemma_writer_readers(&self, t: Seq<char>)
        requires
            self.wf(),
        ensures
            self.state_of(t).writer ==> self.state_of(t).readers == 0,
    {
        if self.has_entry(t) {
            let i = choose|i: int|
                0 <= i < self.entries@.len() && self.entries@[i].triple@ == t;
            assert(self.entries@[i].writer ==> self.entries@[i].readers == 0);
        }
    }
}

/// Law: locks on distinct triples are independent. Any step that changes
/// only `t1`'s lock state leaves grantability on `t2` exactly as it was; in
/// particular, holding a shared lock on `t1` never blocks an exclusive lock
/// on `t2`.
pub proof fn lemma_distinct_triples_independent(
    before: LockTable,
    after: LockTable,
    t1: Seq<char>,
    t2: Seq<char>,
)
    requires
        t1 != t2,
        forall|u: Seq<char>| u != t1 ==> after.state_of(u) == before.state_of(u),
    ensures
        after.can_grant_shared(t2) == before.can_grant_shared(t2),
        after.can_grant_exclusive(t2) == before.can_grant_exclusive(t2),
{
    assert(after.state_of(t2) == before.state_of(t2));
}

/// Law: shared holds admit further shared holds and exclude exclusive ones.
/// After one more shared grant on `t`, another shared grant is still
/// possible (while the reader count has room), and an exclusive grant is
/// not, until the shared holds are released.
pub proof fn lemma_shared_concurrency(before: LockTable, after: LockTable, t: Seq<char>)
    requires
        before.can_grant_shared(t),
        after.state_of(t) == (LockState {
            readers: before.state_of(t).readers + 1,
            writer: false,
        }),
    ensures
        before.state_of(t).readers + 1 < u64::MAX ==> after.can_grant_shared(t),
        !after.can_grant_exclusive(t),
{
}

/// Law: once every hold on `t` is gone, both modes are grantable again.
pub proof fn lemma_idle_grants_all(table: LockTable, t: Seq<char>)
    requires
        table.state_of(t).readers == 0,
        !table.state_of(t).writer,
    ensures
        table.can_grant_shared(t),
        table.can_grant_exclusive(t),
{
}

} // verus!
