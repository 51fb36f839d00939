//! Filesystem paths modeled as sequences of plain path components.
//!
//! The pipeline only ever reasons about paths structurally: joining,
//! prefix tests, taking the final component, and resolving `.`/`..`
//! components. Modeling a path as a vector of component strings makes
//! every one of those operations a verified function over sequences.

use vstd::prelude::*;
use vstd::string::StringExecFns;

verus! {

/// A filesystem path as the sequence of its components.
///
/// An absolute path carries its root as its first component (the caller
/// converting from an OS path decides how the root is spelled); the
/// library never inspects components except to compare them.
#[derive(Debug)]
pub struct FsPath {
    pub segments: Vec<String>,
}

impl View for FsPath {
    type V = Seq<Seq<char>>;

    open spec fn view(&self) -> Seq<Seq<char>> {
        self.segments.deep_view()
    }
}

/// Relates the deep view of a component vector to its elements, so that
/// sequence extensionality can see through it.
pub proof fn lemma_segs_view(v: Vec<String>)
    ensures
        v.deep_view().len() == v@.len(),
        forall|j: int| 0 <= j < v@.len() ==> v.deep_view()[j] == v@[j]@,
{
}

/// The component that names the current directory.
pub open spec fn cur_component() -> Seq<char> {
    "."@
}

/// The component that names the parent directory.
pub open spec fn up_component() -> Seq<char> {
    ".."@
}

/// Structural resolution of `.` and `..` components: `.` disappears and
/// `..` removes the component before it (or disappears when there is
/// nothing left to remove).
pub open spec fn normalize_segs(s: Seq<Seq<char>>) -> Seq<Seq<char>>
    decreases s.len(),
{
    if s.len() == 0 {
        Seq::empty()
    } else {
        let pre = normalize_segs(s.drop_last());
        if s.last() == cur_component() {
            pre
        } else if s.last() == up_component() {
            if pre.len() > 0 {
                pre.drop_last()
            } else {
                pre
            }
        } else {
            pre.push(s.last())
        }
    }
}

impl FsPath {
    /// The empty path.
    pub fn empty() -> (r: FsPath)
        ensures
            r@ == Seq::<Seq<char>>::empty(),
    {
        let r = FsPath { segments: Vec::new() };
        proof {
            lemma_segs_view(r.segments);
            assert(r@ =~= Seq::<Seq<char>>::empty());
        }
        r
    }

    pub fn from_segments(segments: Vec<String>) -> (r: FsPath)
        ensures
            r@ == segments.deep_view(),
    {
        FsPath { segments }
    }

    pub fn len(&self) -> (r: usize)
        ensures
            r == self@.len(),
    {
        proof {
            lemma_segs_view(self.segments);
        }
        self.segments.len()
    }

    pub fn clone_path(&self) -> (r: FsPath)
        ensures
            r@ == self@,
    {
        let mut segments: Vec<String> = Vec::new();
        let mut i: usize = 0;
        proof {
            lemma_segs_view(segments);
            assert(segments.deep_view() =~= self@.subrange(0, 0));
        }
        while i < self.segments.len()
            invariant
                i <= self.segments.len(),
                segments.deep_view() == self@.subrange(0, i as int),
            decreases self.segments.len() - i,
        {
            let ghost pre = segments;
            segments.push(self.segments[i].clone());
            proof {
                lemma_segs_view(pre);
                lemma_segs_view(segments);
                lemma_segs_view(self.segments);
                assert(segments.deep_view() =~= self@.subrange(0, i + 1 as int));
            }
            i = i + 1;
        }
        proof {
            assert(self@.subrange(0, self.segments.len() as int) =~= self@);
        }
        FsPath { segments }
    }

    /// Appends a relative path: the components of `other` after those of
    /// `self`.
    pub fn join(&self, other: &FsPath) -> (r: FsPath)
        ensures
            r@ == self@ + other@,
    {
        let mut segments = self.clone_path().segments;
        let ghost base = segments.deep_view();
        let mut i: usize = 0;
        proof {
            assert(segments.deep_view() =~= base + other@.subrange(0, 0));
        }
        while i < other.segments.len()
            invariant
                i <= other.segments.len(),
                base == self@,
                other@.len() == other.segments@.len(),
                segments.deep_view() == base + other@.subrange(0, i as int),
            decreases other.segments.len() - i,
        {
            let ghost pre = segments;
            segments.push(other.segments[i].clone());
            proof {
                lemma_segs_view(pre);
                lemma_segs_view(segments);
                lemma_segs_view(other.segments);
                assert forall|j: int| 0 <= j < segments@.len() implies segments.deep_view()[j]
                    == (base + other@.subrange(0, i + 1 as int))[j] by {
                    if j < pre@.len() {
                        assert(segments@[j] == pre@[j]);
                        assert(pre.deep_view()[j] == (base + other@.subrange(0, i as int))[j]);
                    } else {
                        assert(segments@[j] == other.segments@[i as int]);
                    }
                }
                assert(segments.deep_view() =~= base + other@.subrange(0, i + 1 as int));
            }
            i = i + 1;
        }
        proof {
            assert(other@.subrange(0, other.segments.len() as int) =~= other@);
        }
        FsPath { segments }
    }

    /// Appends one component.
    pub fn push_component(&self, seg: String) -> (r: FsPath)
        ensures
            r@ == self@.push(seg@),
    {
        let ghost s = seg;
        let mut p = self.clone_path();
        let ghost pre = p.segments;
        p.segments.push(seg);
        proof {
            lemma_segs_view(pre);
            lemma_segs_view(p.segments);
            assert(p@ =~= self@.push(s@));
        }
        p
    }

    /// The path without its final component.
    pub fn parent(&self) -> (r: FsPath)
        requires
            self@.len() > 0,
        ensures
            r@ == self@.drop_last(),
    {
        let mut p = self.clone_path();
        let ghost pre = p.segments;
        proof {
            lemma_segs_view(pre);
        }
        let _last = p.segments.pop();
        proof {
            lemma_segs_view(p.segments);
            assert(p@ =~= self@.drop_last());
        }
        p
    }

    /// The final component.
    pub fn file_name(&self) -> (r: &String)
        requires
            self@.len() > 0,
        ensures
            r@ == self@.last(),
    {
        proof {
            lemma_segs_view(self.segments);
        }
        &self.segments[self.segments.len() - 1]
    }

    /// Whether `self` is a component-wise prefix of `other`.
    pub fn is_prefix_of(&self, other: &FsPath) -> (r: bool)
        ensures
            r == self@.is_prefix_of(other@),
    {
        proof {
            lemma_segs_view(self.segments);
            lemma_segs_view(other.segments);
        }
        if self.segments.len() > other.segments.len() {
            proof {
                assert(!self@.is_prefix_of(other@));
            }
            return false;
        }
        let mut i: usize = 0;
        while i < self.segments.len()
            invariant
                i <= self.segments.len() <= other.segments.len(),
                self@.len() == self.segments@.len(),
                other@.len() == other.segments@.len(),
                forall|j: int| 0 <= j < i ==> self@[j] == other@[j],
            decreases self.segments.len() - i,
        {
            if !(self.segments[i] == other.segments[i]) {
                proof {
                    lemma_segs_view(self.segments);
                    lemma_segs_view(other.segments);
                    assert(self@[i as int] != other@[i as int]);
                    assert(!self@.is_prefix_of(other@));
                }
                return false;
            }
            proof {
                lemma_segs_view(self.segments);
                lemma_segs_view(other.segments);
            }
            i = i + 1;
        }
        proof {
            assert(self@ =~= other@.subrange(0, self@.len() as int));
        }
        true
    }

    /// The remainder of `self` after the prefix `base`, when `base` is a
    /// prefix.
    pub fn strip_prefix(&self, base: &FsPath) -> (r: Option<FsPath>)
        ensures
            base@.is_prefix_of(self@) <==> r is Some,
            r is Some ==> base@ + r->Some_0@ == self@,
    {
        if !base.is_prefix_of(self) {
            return None;
        }
        proof {
            lemma_segs_view(self.segments);
            lemma_segs_view(base.segments);
        }
        let mut segments: Vec<String> = Vec::new();
        let mut i: usize = base.segments.len();
        proof {
            lemma_segs_view(segments);
            assert(segments.deep_view() =~= self@.subrange(base@.len() as int, i as int));
        }
        while i < self.segments.len()
            invariant
                base@.len() <= i <= self@.len(),
                self@.len() == self.segments@.len(),
                base@.is_prefix_of(self@),
                segments.deep_view() == self@.subrange(base@.len() as int, i as int),
            decreases self.segments.len() - i,
        {
            let ghost pre = segments;
            segments.push(self.segments[i].clone());
            proof {
                lemma_segs_view(pre);
                lemma_segs_view(segments);
                lemma_segs_view(self.segments);
                assert(segments.deep_view() =~= self@.subrange(base@.len() as int, i + 1 as int));
            }
            i = i + 1;
        }
        let rel = FsPath { segments };
        proof {
            assert(base@ + rel@ =~= self@);
        }
        Some(rel)
    }

    /// Resolves `.` and `..` components structurally.
    pub fn normalize(&self) -> (r: FsPath)
        ensures
            r@ == normalize_segs(self@),
    {
        let dot = String::from_str(".");
        let dotdot = String::from_str("..");
        let mut segments: Vec<String> = Vec::new();
        let mut i: usize = 0;
        proof {
            lemma_segs_view(segments);
            assert(self@.subrange(0, 0) =~= Seq::<Seq<char>>::empty());
            assert(segments.deep_view() =~= normalize_segs(self@.subrange(0, 0)));
        }
        while i < self.segments.len()
            invariant
                i <= self.segments.len(),
                self@.len() == self.segments@.len(),
                dot@ == cur_component(),
                dotdot@ == up_component(),
                segments.deep_view() == normalize_segs(self@.subrange(0, i as int)),
            decreases self.segments.len() - i,
        {
            let ghost pre = segments;
            proof {
                lemma_segs_view(pre);
                lemma_segs_view(self.segments);
                assert(self@.subrange(0, i + 1 as int).drop_last() =~= self@.subrange(0, i as int));
                assert(self@.subrange(0, i + 1 as int).last() == self@[i as int]);
            }
            if self.segments[i] == dot {
                // the component disappears
            } else if self.segments[i] == dotdot {
                if segments.len() > 0 {
                    let _ = segments.pop();
                    proof {
                        lemma_segs_view(segments);
                        assert(segments.deep_view() =~= pre.deep_view().drop_last());
                    }
                }
            } else {
                segments.push(self.segments[i].clone());
                proof {
                    lemma_segs_view(segments);
                    assert(segments.deep_view() =~= pre.deep_view().push(self@[i as int]));
                }
            }
            i = i + 1;
        }
        proof {
            assert(self@.subrange(0, self.segments.len() as int) =~= self@);
        }
        FsPath { segments }
    }
}

} // verus!
