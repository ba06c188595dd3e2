//! Paths: how they are spelled, and when two of them are the same.
use vstd::prelude::*;

verus! {

/// A path. Two paths are the same path when their components agree, however the
/// separators between them are spelled.
#[derive(Debug, PartialEq, Eq)]
pub struct FilePath {
    /// The path as it is spelled, in the platform's own byte encoding.
    pub spelling: Vec<u8>,
    /// The components that the platform takes the path apart into, in the same
    /// encoding.
    pub components: Vec<Vec<u8>>,
}

/// A [`FilePath`] in terms of what it holds.
#[verifier::ext_equal]
pub struct PathView {
    pub spelling: Seq<u8>,
    pub components: Seq<Seq<u8>>,
}

impl PathView {
    /// Whether both are the same path, spelled alike or not.
    pub open spec fn same(self, other: PathView) -> bool {
        self.components == other.components
    }
}

impl View for FilePath {
    type V = PathView;

    open spec fn view(&self) -> PathView {
        PathView {
            spelling: self.spelling@,
            components: self.components@.map_values(|c: Vec<u8>| c@),
        }
    }
}

/// What a list of paths holds.
pub open spec fn paths(list: Seq<FilePath>) -> Seq<PathView> {
    list.map_values(|p: FilePath| p@)
}

/// Whether a path is among those of a list.
pub open spec fn lists(list: Seq<PathView>, path: PathView) -> bool {
    exists|i: int| 0 <= i < list.len() && (#[trigger] list[i]).same(path)
}

/// Compares two components byte by byte.
fn same_bytes(a: &Vec<u8>, b: &Vec<u8>) -> (same: bool)
    ensures
        same == (a@ == b@),
{
    if a.len() != b.len() {
        return false;
    }
    let mut i: usize = 0;
    while i < a.len()
        invariant
            i <= a@.len(),
            a@.len() == b@.len(),
            forall|k: int| 0 <= k < i ==> a@[k] == b@[k],
        decreases a@.len() - i,
    {
        if a[i] != b[i] {
            return false;
        }
        i += 1;
    }
    assert(a@ =~= b@);
    true
}

impl FilePath {
    /// Whether both paths have the same components in the same order.
    pub fn same(&self, other: &FilePath) -> (same: bool)
        ensures
            same == self@.same(other@),
    {
        let ghost mine = self@.components;
        let ghost others = other@.components;
        if self.components.len() != other.components.len() {
            assert(mine.len() != others.len());
            return false;
        }
        let mut i: usize = 0;
        while i < self.components.len()
            invariant
                i <= self.components@.len(),
                self.components@.len() == other.components@.len(),
                mine == self@.components,
                others == other@.components,
                forall|k: int| 0 <= k < i ==> mine[k] == others[k],
            decreases self.components@.len() - i,
        {
            if !same_bytes(&self.components[i], &other.components[i]) {
                assert(mine[i as int] != others[i as int]);
                return false;
            }
            assert(mine[i as int] == others[i as int]);
            i += 1;
        }
        assert(mine =~= others);
        true
    }

    /// A copy of the path.
    pub fn duplicate(&self) -> (copy: FilePath)
        ensures
            copy@ == self@,
    {
        let spelling = self.spelling.clone();
        let mut components: Vec<Vec<u8>> = Vec::new();
        let mut i: usize = 0;
        while i < self.components.len()
            invariant
                i <= self.components@.len(),
                components@.len() == i,
                forall|k: int| 0 <= k < i ==> components@[k]@ == self.components@[k]@,
            decreases self.components@.len() - i,
        {
            let component = self.components[i].clone();
            assert(component@ =~= self.components@[i as int]@);
            components.push(component);
            i += 1;
        }
        let copy = FilePath { spelling, components };
        assert(copy@ =~= self@);
        copy
    }
}

/// The path of an entry: that of the directory that it lies in, and its name. How
/// the two are put together is up to the platform.
#[derive(Debug, PartialEq, Eq)]
pub struct EntryPath {
    pub dir: FilePath,
    pub name: String,
}

/// An [`EntryPath`] in terms of what it holds.
pub struct EntryView {
    pub dir: PathView,
    pub name: Seq<char>,
}

impl View for EntryPath {
    type V = EntryView;

    open spec fn view(&self) -> EntryView {
        EntryView { dir: self.dir@, name: self.name@ }
    }
}

impl EntryPath {
    /// A copy of the path.
    pub fn duplicate(&self) -> (copy: EntryPath)
        ensures
            copy@ == self@,
    {
        EntryPath { dir: self.dir.duplicate(), name: self.name.clone() }
    }
}

/// Whether `path` is among `list`.
pub fn lists_path(list: &Vec<FilePath>, path: &FilePath) -> (found: bool)
    ensures
        found == lists(paths(list@), path@),
{
    let mut i: usize = 0;
    while i < list.len()
        invariant
            i <= list@.len(),
            forall|k: int| 0 <= k < i ==> !(#[trigger] list@[k])@.same(path@),
        decreases list@.len() - i,
    {
        if list[i].same(path) {
            assert(paths(list@)[i as int].same(path@));
            return true;
        }
        i += 1;
    }
    assert forall|k: int| 0 <= k < paths(list@).len() implies !(#[trigger] paths(
        list@,
    )[k]).same(path@) by {
        assert(!list@[k]@.same(path@));
    }
    false
}

} // verus!
