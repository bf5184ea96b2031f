//! Filesystem paths as sequences of components.
//!
//! The cache-management logic never touches the filesystem itself; it computes
//! paths as lists of components, and the unverified shell joins them with the
//! platform's native separator.

use vstd::prelude::*;

verus! {

/// A filesystem path, held as its sequence of components (no separators).
#[derive(Debug)]
pub struct AbsPath {
    pub segments: Vec<String>,
}

impl View for AbsPath {
    type V = Seq<Seq<char>>;

    open spec fn view(&self) -> Seq<Seq<char>> {
        self.segments.deep_view()
    }
}

impl AbsPath {
    /// The empty path (no components yet).
    pub fn new() -> (r: AbsPath)
        ensures
            r@ =~= Seq::<Seq<char>>::empty(),
    {
        AbsPath { segments: Vec::new() }
    }

    /// Wraps an already-built component list.
    pub fn from_segments(segments: Vec<String>) -> (r: AbsPath)
        ensures
            r@ == segments.deep_view(),
    {
        AbsPath { segments }
    }

    /// Appends one component in place.
    pub fn push(&mut self, seg: String)
        ensures
            final(self)@ =~= old(self)@.push(seg@),
    {
        self.segments.push(seg);
    }

    /// A copy of this path with one more component at the end.
    pub fn join(&self, seg: &str) -> (r: AbsPath)
        ensures
            r@ =~= self@.push(seg@),
    {
        let mut r = self.clone_path();
        r.push(seg.to_owned());
        r
    }

    /// An equal copy of this path.
    pub fn clone_path(&self) -> (r: AbsPath)
        ensures
            r@ =~= self@,
    {
        let mut segments: Vec<String> = Vec::new();
        let mut i: usize = 0;
        while i < self.segments.len()
            invariant
                i <= self.segments.len(),
                segments@.len() == i,
                forall|j: int| 0 <= j < i ==> segments@[j]@ == self.segments@[j]@,
            decreases self.segments.len() - i,
        {
            segments.push(self.segments[i].clone());
            i += 1;
        }
        let r = AbsPath { segments };
        proof {
            assert forall|j: int| 0 <= j < r@.len() implies r@[j] == self@[j] by {
                assert(r.segments@[j]@ == self.segments@[j]@);
            }
        }
        r
    }
}

} // verus!
