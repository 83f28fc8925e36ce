//! The dashboard's state and its mathematical model.

use vstd::prelude::*;
use crate::status::spec_classify;

verus! {

/// A rectangular terminal region.
#[derive(Clone, Copy, Debug, PartialEq, Eq, Structural)]
pub struct TermSize {
    pub x: u16,
    pub y: u16,
    pub width: u16,
    pub height: u16,
}

/// What is known of the checked-out commit.
#[derive(Clone, Debug, PartialEq, Eq)]
pub struct HeadInfo {
    /// Shorthand of the reference; empty where there is none.
    pub ref_name: String,
    /// Full object id as text; empty where no commit was resolved.
    pub hash: String,
    /// The commit's message; may be empty.
    pub message: String,
}

/// A changed path with the raw flags it was reported with.
#[derive(Clone, Debug, PartialEq, Eq)]
pub struct StatusEntry {
    pub path: String,
    pub status: u32,
}

/// The state that the event loop owns.
#[derive(Clone, Debug, PartialEq, Eq)]
pub struct AppState {
    /// Whether a repository was opened.
    pub repo_present: bool,
    pub head: Option<HeadInfo>,
    /// Local branch names, in the order of enumeration.
    pub branches: Vec<String>,
    pub untracked: Vec<String>,
    pub unstaged: Vec<StatusEntry>,
    pub staged: Vec<StatusEntry>,
    /// The terminal size that the backend was last set to.
    pub term_size: TermSize,
    /// Whether the repository is to be queried before the next frame.
    pub needs_refresh: bool,
    /// Whether the loop still takes events.
    pub running: bool,
}

/// Model of `HeadInfo`.
pub struct HeadModel {
    pub ref_name: Seq<char>,
    pub hash: Seq<char>,
    pub message: Seq<char>,
}

/// Model of `StatusEntry`.
pub struct EntryModel {
    pub path: Seq<char>,
    pub status: u32,
}

/// Model of `AppState`.
pub struct StateModel {
    pub repo_present: bool,
    pub head: Option<HeadModel>,
    pub branches: Seq<Seq<char>>,
    pub untracked: Seq<Seq<char>>,
    pub unstaged: Seq<EntryModel>,
    pub staged: Seq<EntryModel>,
    pub term_size: TermSize,
    pub needs_refresh: bool,
    pub running: bool,
}

impl View for HeadInfo {
    type V = HeadModel;

    open spec fn view(&self) -> HeadModel {
        HeadModel { ref_name: self.ref_name@, hash: self.hash@, message: self.message@ }
    }
}

impl View for StatusEntry {
    type V = EntryModel;

    open spec fn view(&self) -> EntryModel {
        EntryModel { path: self.path@, status: self.status }
    }
}

/// The texts of a sequence of strings.
pub open spec fn names_view(names: Seq<String>) -> Seq<Seq<char>> {
    names.map_values(|s: String| s@)
}

/// The models of a sequence of entries.
pub open spec fn entries_view(entries: Seq<StatusEntry>) -> Seq<EntryModel> {
    entries.map_values(|e: StatusEntry| e@)
}

/// The model of an optional head.
pub open spec fn head_view(head: Option<HeadInfo>) -> Option<HeadModel> {
    match head {
        Some(h) => Some(h@),
        None => None,
    }
}

impl View for AppState {
    type V = StateModel;

    open spec fn view(&self) -> StateModel {
        StateModel {
            repo_present: self.repo_present,
            head: head_view(self.head),
            branches: names_view(self.branches@),
            untracked: names_view(self.untracked@),
            unstaged: entries_view(self.unstaged@),
            staged: entries_view(self.staged@),
            term_size: self.term_size,
            needs_refresh: self.needs_refresh,
            running: self.running,
        }
    }
}

impl StateModel {
    /// Without a repository nothing is derived; every staged entry
    /// classifies as staged and every unstaged entry as unstaged.
    pub open spec fn wf(self) -> bool {
        &&& !self.repo_present ==> {
            &&& self.head is None
            &&& self.branches.len() == 0
            &&& self.untracked.len() == 0
            &&& self.unstaged.len() == 0
            &&& self.staged.len() == 0
        }
        &&& forall|i: int|
            0 <= i < self.staged.len() ==> spec_classify(#[trigger] self.staged[i].status)
                is Staged
        &&& forall|i: int|
            0 <= i < self.unstaged.len() ==> spec_classify(#[trigger] self.unstaged[i].status)
                is Unstaged
    }

    /// Whether the repository is queried before the next frame.
    pub open spec fn refresh_due(self) -> bool {
        self.repo_present && self.needs_refresh
    }
}

/// The state at startup: nothing derived yet, a refresh pending.
pub open spec fn spec_initial(size: TermSize, repo_present: bool) -> StateModel {
    StateModel {
        repo_present,
        head: None,
        branches: Seq::empty(),
        untracked: Seq::empty(),
        unstaged: Seq::empty(),
        staged: Seq::empty(),
        term_size: size,
        needs_refresh: true,
        running: true,
    }
}

/// The state after the terminal reported `queried`, and whether the backend
/// has to be resized.
pub open spec fn spec_update_size(s: StateModel, queried: TermSize) -> (StateModel, bool) {
    (StateModel { term_size: queried, ..s }, queried != s.term_size)
}

impl AppState {
    /// The state at startup, for a terminal of `size`; `repo_present` says
    /// whether the repository could be opened.
    pub fn new(size: TermSize, repo_present: bool) -> (r: AppState)
        ensures
            r@ == spec_initial(size, repo_present),
            r@.wf(),
    {
        let r = AppState {
            repo_present,
            head: None,
            branches: Vec::new(),
            untracked: Vec::new(),
            unstaged: Vec::new(),
            staged: Vec::new(),
            term_size: size,
            needs_refresh: true,
            running: true,
        };
        proof {
            assert(r@.branches =~= Seq::empty());
            assert(r@.untracked =~= Seq::empty());
            assert(r@.unstaged =~= Seq::empty());
            assert(r@.staged =~= Seq::empty());
        }
        r
    }

    /// Whether the repository is to be queried before the next frame: a
    /// repository is present and a refresh is pending.
    pub fn refresh_due(&self) -> (r: bool)
        ensures
            r == self@.refresh_due(),
    {
        self.repo_present && self.needs_refresh
    }

    /// Takes the size that the terminal reports. Returns whether the
    /// backend has to be resized, which is when the size differs from the
    /// cached one; the cache then holds `queried`.
    pub fn update_size(&mut self, queried: TermSize) -> (resize: bool)
        ensures
            (final(self)@, resize) == spec_update_size(old(self)@, queried),
            old(self)@.wf() ==> final(self)@.wf(),
    {
        if queried != self.term_size {
            self.term_size = queried;
            true
        } else {
            false
        }
    }
}

/// Once a size was taken, the same size asks for no resize: within one
/// iteration the backend is resized once where the size changed, and not at
/// all where it did not.
pub proof fn law_resize_once(s: StateModel, queried: TermSize)
    ensures
        spec_update_size(s, queried).1 == (queried != s.term_size),
        spec_update_size(s, s.term_size) == (s, false),
        spec_update_size(spec_update_size(s, queried).0, queried) == (
            spec_update_size(s, queried).0,
            false,
        ),
{
}

} // verus!
