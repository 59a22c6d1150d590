//! Staleness tracking: which output files a build made or touched.
//!
//! A snapshot records the modification time of each plain file of the output
//! directories. Two snapshots, one taken before the build and one after,
//! give the stale files: those that are new, and those whose time has moved
//! forward.

use crate::text::{chars_of, string_from};
use vstd::hash_map::StringHashMap;
use vstd::prelude::*;

verus! {

/// An entry of an output directory.
#[derive(Debug)]
pub struct Entry {
    /// Absolute path of the entry.
    pub path: String,
    /// Whether the entry is a plain file.
    pub is_file: bool,
    /// Time of its last modification, in nanoseconds since the epoch.
    pub mtime: i128,
}

/// The modification times of the plain files of the output directories.
pub struct FileSnapshot {
    /// The paths, each once, in the order in which they were met.
    paths: Vec<String>,
    /// The time of each path.
    times: StringHashMap<i128>,
}

/// The mathematical value of a snapshot.
pub struct SnapshotView {
    /// The paths in the order in which they were met.
    pub order: Seq<Seq<char>>,
    /// The time of each path.
    pub times: Map<Seq<char>, i128>,
}

impl SnapshotView {
    /// Each path stands once in the order, and the paths in the order are
    /// those that have a time.
    pub open spec fn wf(self) -> bool {
        &&& self.order.no_duplicates()
        &&& forall|p: Seq<char>| self.order.contains(p) <==> self.times.contains_key(p)
    }

    /// The snapshot of nothing.
    pub open spec fn empty() -> SnapshotView {
        SnapshotView { order: Seq::empty(), times: Map::empty() }
    }

    /// The snapshot with `path` at `mtime`: a new path is met last, a known
    /// one keeps its place and takes the new time.
    pub open spec fn with(self, path: Seq<char>, mtime: i128) -> SnapshotView {
        SnapshotView {
            order: if self.times.contains_key(path) {
                self.order
            } else {
                self.order.push(path)
            },
            times: self.times.insert(path, mtime),
        }
    }

    /// Whether a file at `path` with time `mtime` is stale with respect to
    /// this snapshot: the snapshot does not know the path, or knows it with
    /// an earlier time.
    pub open spec fn outdated_by(self, path: Seq<char>, mtime: i128) -> bool {
        !self.times.contains_key(path) || mtime > self.times[path]
    }
}

/// The snapshot of the plain files among the first `upto` entries.
pub open spec fn snapshot_of(entries: Seq<Entry>, upto: int) -> SnapshotView
    decreases upto,
{
    if upto <= 0 || upto > entries.len() {
        SnapshotView::empty()
    } else if entries[upto - 1].is_file {
        snapshot_of(entries, upto - 1).with(entries[upto - 1].path@, entries[upto - 1].mtime)
    } else {
        snapshot_of(entries, upto - 1)
    }
}

/// The stale files among the first `upto` paths of `post`, in order.
pub open spec fn stale_upto(pre: SnapshotView, post: SnapshotView, upto: int) -> Seq<Seq<char>>
    decreases upto,
{
    if upto <= 0 || upto > post.order.len() {
        Seq::empty()
    } else {
        let path = post.order[upto - 1];
        if pre.outdated_by(path, post.times[path]) {
            stale_upto(pre, post, upto - 1).push(path)
        } else {
            stale_upto(pre, post, upto - 1)
        }
    }
}

/// The stale set: the files of `post` that are stale with respect to `pre`,
/// in the order of `post`.
pub open spec fn stale_set(pre: SnapshotView, post: SnapshotView) -> Seq<Seq<char>> {
    stale_upto(pre, post, post.order.len() as int)
}

/// Adding a file keeps a snapshot well formed.
pub proof fn lemma_with_wf(s: SnapshotView, path: Seq<char>, mtime: i128)
    requires
        s.wf(),
    ensures
        s.with(path, mtime).wf(),
{
    let t = s.with(path, mtime);
    if !s.times.contains_key(path) {
        assert(!s.order.contains(path));
        assert forall|i: int, j: int|
            0 <= i < t.order.len() && 0 <= j < t.order.len() && i != j implies t.order[i]
            != t.order[j] by {
            if i < s.order.len() && j < s.order.len() {
            } else if i < s.order.len() {
                assert(s.order.contains(s.order[i]));
            } else {
                assert(s.order.contains(s.order[j]));
            }
        }
    }
    assert forall|p: Seq<char>| t.order.contains(p) <==> t.times.contains_key(p) by {
        if t.order.contains(p) {
            let i = choose|i: int| 0 <= i < t.order.len() && t.order[i] == p;
            if i < s.order.len() {
                assert(s.order.contains(p));
            }
        }
        if t.times.contains_key(p) {
            if p == path {
                if s.times.contains_key(path) {
                    assert(s.order.contains(p));
                } else {
                    assert(t.order[s.order.len() as int] == p);
                }
            } else {
                assert(s.order.contains(p));
                let i = choose|i: int| 0 <= i < s.order.len() && s.order[i] == p;
                assert(t.order[i] == p);
            }
        }
    }
}

/// What the first `upto` paths contribute to the stale set: exactly those of
/// them that are stale.
pub proof fn lemma_stale_upto(pre: SnapshotView, post: SnapshotView, upto: int, path: Seq<char>)
    requires
        0 <= upto <= post.order.len(),
    ensures
        stale_upto(pre, post, upto).contains(path) <==> (exists|i: int|
            0 <= i < upto && post.order[i] == path) && pre.outdated_by(path, post.times[path]),
    decreases upto,
{
    if upto > 0 {
        lemma_stale_upto(pre, post, upto - 1, path);
        let rest = stale_upto(pre, post, upto - 1);
        let last = post.order[upto - 1];
        if pre.outdated_by(last, post.times[last]) {
            assert(stale_upto(pre, post, upto) == rest.push(last));
            if rest.push(last).contains(path) {
                let k = choose|k: int| 0 <= k < rest.push(last).len() && rest.push(last)[k] == path;
                if k < rest.len() {
                    assert(rest.contains(path));
                }
            }
            if rest.contains(path) {
                let k = choose|k: int| 0 <= k < rest.len() && rest[k] == path;
                assert(rest.push(last)[k] == path);
            }
            if last == path {
                assert(rest.push(last)[rest.len() as int] == path);
            }
        }
    }
}

/// The stale set holds a path exactly when the later snapshot knows it and
/// the earlier one does not, or knows it with a strictly earlier time. A path
/// that is unchanged between the two is never in it.
pub proof fn lemma_stale_set(pre: SnapshotView, post: SnapshotView, path: Seq<char>)
    requires
        post.wf(),
    ensures
        stale_set(pre, post).contains(path) <==> post.times.contains_key(path) && (
        !pre.times.contains_key(path) || post.times[path] > pre.times[path]),
        pre.times.contains_key(path) && post.times.contains_key(path) && pre.times[path]
            == post.times[path] ==> !stale_set(pre, post).contains(path),
{
    lemma_stale_upto(pre, post, post.order.len() as int, path);
    if post.order.contains(path) {
        let i = choose|i: int| 0 <= i < post.order.len() && post.order[i] == path;
        assert(0 <= i < post.order.len() && post.order[i] == path);
    }
}

/// The stale set names each file once.
pub proof fn lemma_stale_distinct(pre: SnapshotView, post: SnapshotView, upto: int)
    requires
        post.wf(),
        0 <= upto <= post.order.len(),
    ensures
        stale_upto(pre, post, upto).no_duplicates(),
    decreases upto,
{
    if upto > 0 {
        lemma_stale_distinct(pre, post, upto - 1);
        let rest = stale_upto(pre, post, upto - 1);
        let last = post.order[upto - 1];
        lemma_stale_upto(pre, post, upto - 1, last);
        assert(!rest.contains(last));
    }
}

impl View for FileSnapshot {
    type V = SnapshotView;

    closed spec fn view(&self) -> SnapshotView {
        SnapshotView { order: self.paths.deep_view(), times: self.times@ }
    }
}

impl FileSnapshot {
    /// Whether the snapshot is well formed.
    pub open spec fn wf(&self) -> bool {
        self@.wf()
    }

    /// The snapshot of nothing.
    pub fn new() -> (s: Self)
        ensures
            s@ == SnapshotView::empty(),
            s.wf(),
    {
        let s = FileSnapshot { paths: Vec::new(), times: StringHashMap::new() };
        assert(s.paths.deep_view() =~= Seq::<Seq<char>>::empty());
        s
    }

    /// Records `path` at `mtime`.
    pub fn insert(&mut self, path: &str, mtime: i128)
        requires
            old(self).wf(),
        ensures
            final(self)@ == old(self)@.with(path@, mtime),
            final(self).wf(),
    {
        proof {
            lemma_with_wf(self@, path@, mtime);
        }
        let ghost before = self.paths.deep_view();
        if !self.times.contains_key(path) {
            self.paths.push(string_from(&chars_of(path)));
            assert(self.paths.deep_view() =~= before.push(path@));
        }
        self.times.insert(string_from(&chars_of(path)), mtime);
    }

    /// The number of files in the snapshot.
    pub fn len(&self) -> (n: usize)
        ensures
            n == self@.order.len(),
    {
        self.paths.len()
    }

    /// The time recorded for `path`, if there is one.
    pub fn mtime(&self, path: &str) -> (r: Option<i128>)
        ensures
            r == if self@.times.contains_key(path@) {
                Some(self@.times[path@])
            } else {
                None
            },
    {
        match self.times.get(path) {
            Some(t) => Some(*t),
            None => None,
        }
    }
}

/// Takes the snapshot of the plain files among `entries`.
pub fn snapshot(entries: &Vec<Entry>) -> (s: FileSnapshot)
    ensures
        s@ == snapshot_of(entries@, entries.len() as int),
        s.wf(),
{
    let mut s = FileSnapshot::new();
    let mut i: usize = 0;
    while i < entries.len()
        invariant
            i <= entries.len(),
            s.wf(),
            s@ == snapshot_of(entries@, i as int),
        decreases entries.len() - i,
    {
        if entries[i].is_file {
            s.insert(entries[i].path.as_str(), entries[i].mtime);
        }
        i += 1;
    }
    s
}

/// The files of `post` that are stale with respect to `pre`: those that
/// `pre` does not know, and those that it knows with a strictly earlier time.
pub fn diff(pre: &FileSnapshot, post: &FileSnapshot) -> (stale: Vec<String>)
    requires
        post.wf(),
    ensures
        stale.deep_view() == stale_set(pre@, post@),
        forall|path: Seq<char>|
            stale.deep_view().contains(path) <==> post@.times.contains_key(path) && (
            !pre@.times.contains_key(path) || post@.times[path] > pre@.times[path]),
        stale.deep_view().no_duplicates(),
{
    let mut stale: Vec<String> = Vec::new();
    let mut i: usize = 0;
    assert(stale.deep_view() =~= Seq::<Seq<char>>::empty());
    while i < post.paths.len()
        invariant
            i <= post.paths.len(),
            post.wf(),
            stale.deep_view() == stale_upto(pre@, post@, i as int),
        decreases post.paths.len() - i,
    {
        let path = post.paths[i].as_str();
        assert(path@ == post@.order[i as int]);
        assert(post@.order.contains(path@));
        let now = match post.times.get(path) {
            Some(t) => *t,
            None => 0,
        };
        let is_stale = match pre.times.get(path) {
            Some(then) => now > *then,
            None => true,
        };
        if is_stale {
            let ghost before = stale.deep_view();
            stale.push(post.paths[i].clone());
            assert(stale.deep_view() =~= before.push(path@));
        }
        i += 1;
    }
    proof {
        assert forall|path: Seq<char>|
            stale.deep_view().contains(path) <==> post@.times.contains_key(path) && (
            !pre@.times.contains_key(path) || post@.times[path] > pre@.times[path]) by {
            lemma_stale_set(pre@, post@, path);
        }
        lemma_stale_distinct(pre@, post@, post@.order.len() as int);
    }
    stale
}

} // verus!
