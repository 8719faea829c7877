//! The part of a project that a terminal looks at: its worktrees in the order
//! the workspace lists them, the entries each one holds, and the active entry.

use vstd::prelude::*;

verus! {

/// One file-system entry of a worktree.
#[derive(Clone, Copy, Debug, PartialEq, Eq, Structural)]
pub struct Entry {
    pub id: u64,
    pub is_dir: bool,
}

/// A project root. Its first entry, where it has one, is the root entry:
/// a directory, or a single file.
#[derive(Clone, Debug)]
pub struct Worktree {
    pub abs_path: String,
    pub local: bool,
    pub entries: Vec<Entry>,
}

/// The worktrees in enumeration order, and the entry that is active, if any.
#[derive(Clone, Debug)]
pub struct Workspace {
    pub worktrees: Vec<Worktree>,
    pub active_entry: Option<u64>,
}

/// A worktree as contracts see it.
pub struct WorktreeModel {
    pub abs_path: Seq<char>,
    pub local: bool,
    pub entries: Seq<Entry>,
}

/// A workspace as contracts see it.
pub struct WorkspaceModel {
    pub worktrees: Seq<WorktreeModel>,
    pub active_entry: Option<u64>,
}

impl View for Worktree {
    type V = WorktreeModel;

    open spec fn view(&self) -> WorktreeModel {
        WorktreeModel { abs_path: self.abs_path@, local: self.local, entries: self.entries@ }
    }
}

impl View for Workspace {
    type V = WorkspaceModel;

    open spec fn view(&self) -> WorkspaceModel {
        WorkspaceModel {
            worktrees: Seq::new(self.worktrees@.len(), |i: int| self.worktrees@[i]@),
            active_entry: self.active_entry,
        }
    }
}

impl WorktreeModel {
    /// The worktree holds an entry with this id.
    pub open spec fn owns(self, id: u64) -> bool {
        exists|i: int| 0 <= i < self.entries.len() && (#[trigger] self.entries[i]).id == id
    }

    /// The root entry, if the worktree has been scanned far enough to have one.
    pub open spec fn root_entry(self) -> Option<Entry> {
        if self.entries.len() > 0 {
            Some(self.entries[0])
        } else {
            None
        }
    }
}

impl WorkspaceModel {
    /// `i` is the first worktree, in enumeration order, that holds entry `id`.
    pub open spec fn is_first_owner(self, id: u64, i: int) -> bool {
        &&& 0 <= i < self.worktrees.len()
        &&& self.worktrees[i].owns(id)
        &&& forall|j: int| 0 <= j < i ==> !(#[trigger] self.worktrees[j]).owns(id)
    }

    /// The index of the worktree that entry `id` belongs to.
    pub open spec fn owner_of(self, id: u64) -> Option<int> {
        if exists|i: int| self.is_first_owner(id, i) {
            Some(choose|i: int| self.is_first_owner(id, i))
        } else {
            None
        }
    }

    /// A first owner is the only one, so `owner_of` names it.
    pub proof fn lemma_owner_unique(self, id: u64, i: int)
        requires
            self.is_first_owner(id, i),
        ensures
            self.owner_of(id) == Some(i),
    {
        let c = choose|k: int| self.is_first_owner(id, k);
        assert(self.is_first_owner(id, c));
        if c < i {
            assert(!self.worktrees[c].owns(id));
        }
        if i < c {
            assert(!self.worktrees[i].owns(id));
        }
    }
}

impl Worktree {
    /// A local worktree rooted at `abs_path`, with `root` as its root entry.
    pub fn new(abs_path: String, root: Entry) -> (wt: Worktree)
        ensures
            wt@ == (WorktreeModel { abs_path: abs_path@, local: true, entries: seq![root] }),
    {
        let mut entries: Vec<Entry> = Vec::new();
        entries.push(root);
        assert(entries@ =~= seq![root]);
        Worktree { abs_path, local: true, entries }
    }

    pub fn root_entry(&self) -> (root: Option<Entry>)
        ensures
            root == self@.root_entry(),
    {
        if self.entries.len() > 0 {
            Some(self.entries[0])
        } else {
            None
        }
    }

    pub fn contains_entry(&self, id: u64) -> (found: bool)
        ensures
            found == self@.owns(id),
    {
        let mut i: usize = 0;
        while i < self.entries.len()
            invariant
                i <= self.entries@.len(),
                forall|j: int| 0 <= j < i ==> (#[trigger] self.entries@[j]).id != id,
            decreases self.entries@.len() - i,
        {
            if self.entries[i].id == id {
                assert(self@.entries[i as int].id == id);
                return true;
            }
            i += 1;
        }
        false
    }
}

impl Workspace {
    /// A workspace with no worktree and no active entry.
    pub fn new() -> (ws: Workspace)
        ensures
            ws@ == (WorkspaceModel { worktrees: Seq::empty(), active_entry: None }),
    {
        let ws = Workspace { worktrees: Vec::new(), active_entry: None };
        assert(ws@.worktrees =~= Seq::empty());
        ws
    }

    /// Adds a worktree behind those that are there.
    pub fn add_worktree(&mut self, worktree: Worktree)
        ensures
            final(self)@ == (WorkspaceModel {
                worktrees: old(self)@.worktrees.push(worktree@),
                ..old(self)@
            }),
    {
        self.worktrees.push(worktree);
        assert(self@.worktrees =~= old(self)@.worktrees.push(worktree@));
    }

    pub fn set_active_entry(&mut self, entry: Option<u64>)
        ensures
            final(self)@ == (WorkspaceModel { active_entry: entry, ..old(self)@ }),
    {
        self.active_entry = entry;
    }

    /// The first worktree that holds entry `id`, by its place in the enumeration.
    pub fn worktree_for_entry(&self, id: u64) -> (found: Option<usize>)
        ensures
            match found {
                Some(i) => self@.owner_of(id) == Some(i as int),
                None => self@.owner_of(id) is None,
            },
    {
        let mut i: usize = 0;
        while i < self.worktrees.len()
            invariant
                i <= self.worktrees@.len(),
                self@.worktrees.len() == self.worktrees@.len(),
                forall|j: int| 0 <= j < i ==> !(#[trigger] self@.worktrees[j]).owns(id),
            decreases self.worktrees@.len() - i,
        {
            if self.worktrees[i].contains_entry(id) {
                proof {
                    assert(self@.worktrees[i as int] == self.worktrees@[i as int]@);
                    self@.lemma_owner_unique(id, i as int);
                }
                return Some(i);
            }
            assert(self@.worktrees[i as int] == self.worktrees@[i as int]@);
            i += 1;
        }
        proof {
            assert forall|k: int| !self@.is_first_owner(id, k) by {}
        }
        None
    }
}

} // verus!
