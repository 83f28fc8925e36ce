//! Rebuilding the derived parts of the state from what the repository
//! reported.

use vstd::prelude::*;
use crate::event::{spec_handle, Event};
use crate::state::{
    entries_view, names_view, spec_initial, spec_update_size, AppState, EntryModel, HeadInfo,
    HeadModel, StateModel, StatusEntry, TermSize,
};
use crate::status::{classify, spec_classify, Category};

verus! {

/// Id and message of a resolved commit.
#[derive(Clone, Debug, PartialEq, Eq)]
pub struct CommitInfo {
    pub id: String,
    pub message: String,
}

/// What resolving the head gave: the reference's shorthand and the commit
/// it points to, each absent where it could not be resolved (a detached or
/// an unborn head).
#[derive(Clone, Debug, PartialEq, Eq)]
pub struct HeadQuery {
    pub shorthand: Option<String>,
    pub commit: Option<CommitInfo>,
}

/// One reported path with its raw flags; the path is absent where the
/// entry is malformed.
#[derive(Clone, Debug, PartialEq, Eq)]
pub struct RawStatus {
    pub path: Option<String>,
    pub bits: u32,
}

/// Model of `CommitInfo`.
pub struct CommitModel {
    pub id: Seq<char>,
    pub message: Seq<char>,
}

/// Model of `HeadQuery`.
pub struct HeadReport {
    pub shorthand: Option<Seq<char>>,
    pub commit: Option<CommitModel>,
}

/// Model of `RawStatus`.
pub struct RawModel {
    pub path: Option<Seq<char>>,
    pub bits: u32,
}

/// Model of a branch enumeration: the names in order, absent where a branch
/// has none, or the message of the failure.
pub type BranchReport = Result<Seq<Option<Seq<char>>>, Seq<char>>;

/// Model of a status enumeration: the reported paths in order, or the
/// message of the failure.
pub type StatusReport = Result<Seq<RawModel>, Seq<char>>;

impl View for CommitInfo {
    type V = CommitModel;

    open spec fn view(&self) -> CommitModel {
        CommitModel { id: self.id@, message: self.message@ }
    }
}

/// The text of an optional string.
pub open spec fn text_view(text: Option<String>) -> Option<Seq<char>> {
    match text {
        Some(t) => Some(t@),
        None => None,
    }
}

impl View for HeadQuery {
    type V = HeadReport;

    open spec fn view(&self) -> HeadReport {
        HeadReport {
            shorthand: text_view(self.shorthand),
            commit: match self.commit {
                Some(c) => Some(c@),
                None => None,
            },
        }
    }
}

impl View for RawStatus {
    type V = RawModel;

    open spec fn view(&self) -> RawModel {
        RawModel { path: text_view(self.path), bits: self.bits }
    }
}

/// The models of enumerated branches.
pub open spec fn items_view(items: Seq<Option<String>>) -> Seq<Option<Seq<char>>> {
    items.map_values(|name: Option<String>| text_view(name))
}

/// The models of reported paths.
pub open spec fn raws_view(raw: Seq<RawStatus>) -> Seq<RawModel> {
    raw.map_values(|r: RawStatus| r@)
}

/// The model of a branch enumeration's outcome.
pub open spec fn branches_view(q: Result<Vec<Option<String>>, String>) -> BranchReport {
    match q {
        Ok(items) => Ok(items_view(items@)),
        Err(e) => Err(e@),
    }
}

/// The model of a status enumeration's outcome.
pub open spec fn statuses_view(q: Result<Vec<RawStatus>, String>) -> StatusReport {
    match q {
        Ok(raw) => Ok(raws_view(raw@)),
        Err(e) => Err(e@),
    }
}

/// One of the three shown sections.
#[derive(Clone, Copy, Debug, PartialEq, Eq, Structural)]
pub enum Section {
    Staged,
    Unstaged,
    Untracked,
}

/// The section that a category is shown in, if any.
pub open spec fn spec_section(cat: Category) -> Option<Section> {
    match cat {
        Category::Staged(_) => Some(Section::Staged),
        Category::Unstaged(_) => Some(Section::Unstaged),
        Category::Untracked => Some(Section::Untracked),
        Category::Dropped => None,
    }
}

/// The head built from a query: what was resolved, and empty text for the
/// rest.
pub open spec fn spec_head(q: HeadReport) -> HeadModel {
    HeadModel {
        ref_name: match q.shorthand {
            Some(s) => s,
            None => Seq::empty(),
        },
        hash: match q.commit {
            Some(c) => c.id,
            None => Seq::empty(),
        },
        message: match q.commit {
            Some(c) => c.message,
            None => Seq::empty(),
        },
    }
}

/// The names among the enumerated branches, in their order; a branch
/// without a name is skipped.
pub open spec fn branch_names(items: Seq<Option<Seq<char>>>) -> Seq<Seq<char>>
    decreases items.len(),
{
    if items.len() == 0 {
        Seq::empty()
    } else {
        let rest = branch_names(items.drop_last());
        match items.last() {
            Some(name) => rest.push(name),
            None => rest,
        }
    }
}

/// Whether a reported path is shown in `section`: it has a path and its
/// flags classify there.
pub open spec fn shown_in(r: RawModel, section: Section) -> bool {
    r.path is Some && spec_section(spec_classify(r.bits)) == Some(section)
}

/// The entries of `section` among the reported paths, in their order.
pub open spec fn section_entries(raw: Seq<RawModel>, section: Section) -> Seq<EntryModel>
    decreases raw.len(),
{
    if raw.len() == 0 {
        Seq::empty()
    } else {
        let rest = section_entries(raw.drop_last(), section);
        if shown_in(raw.last(), section) {
            rest.push(EntryModel { path: raw.last().path.unwrap(), status: raw.last().bits })
        } else {
            rest
        }
    }
}

/// The paths of a sequence of entries.
pub open spec fn paths_of(entries: Seq<EntryModel>) -> Seq<Seq<char>> {
    entries.map_values(|e: EntryModel| e.path)
}

/// The branch list after a refresh: empty where the enumeration failed.
pub open spec fn spec_branches(q: BranchReport) -> Seq<Seq<char>> {
    match q {
        Ok(items) => branch_names(items),
        Err(_) => Seq::empty(),
    }
}

/// A section after a refresh: empty where the enumeration failed.
pub open spec fn spec_entries(q: StatusReport, section: Section) -> Seq<EntryModel> {
    match q {
        Ok(raw) => section_entries(raw, section),
        Err(_) => Seq::empty(),
    }
}

/// The diagnostic notes of a refresh: the message of a failed branch
/// enumeration, then that of a failed status enumeration.
pub open spec fn spec_notes(branches: BranchReport, statuses: StatusReport) -> Seq<Seq<char>> {
    let first: Seq<Seq<char>> = match branches {
        Ok(_) => Seq::empty(),
        Err(e) => seq![e],
    };
    match statuses {
        Ok(_) => first,
        Err(e) => first.push(e),
    }
}

/// The state after a refresh. Where one is due, head, branches and the
/// three sections are replaced as a whole and the pending flag is cleared;
/// where none is due, nothing changes.
pub open spec fn spec_refresh(
    s: StateModel,
    head: HeadReport,
    branches: BranchReport,
    statuses: StatusReport,
) -> StateModel {
    if s.refresh_due() {
        StateModel {
            head: Some(spec_head(head)),
            branches: spec_branches(branches),
            untracked: paths_of(spec_entries(statuses, Section::Untracked)),
            unstaged: spec_entries(statuses, Section::Unstaged),
            staged: spec_entries(statuses, Section::Staged),
            needs_refresh: false,
            ..s
        }
    } else {
        s
    }
}

/// The notes that a refresh hands out: none where no refresh is due.
pub open spec fn spec_refresh_notes(
    s: StateModel,
    branches: BranchReport,
    statuses: StatusReport,
) -> Seq<Seq<char>> {
    if s.refresh_due() {
        spec_notes(branches, statuses)
    } else {
        Seq::empty()
    }
}

/// Every entry of a section classifies into that section.
pub proof fn lemma_section_classifies(raw: Seq<RawModel>, section: Section)
    ensures
        section_entries(raw, section).len() <= raw.len(),
        forall|i: int|
            0 <= i < section_entries(raw, section).len() ==> spec_section(
                spec_classify(#[trigger] section_entries(raw, section)[i].status),
            ) == Some(section),
    decreases raw.len(),
{
    if raw.len() > 0 {
        lemma_section_classifies(raw.drop_last(), section);
    }
}

/// Builds the head from what was resolved.
pub fn build_head(q: &HeadQuery) -> (r: HeadInfo)
    ensures
        r@ == spec_head(q@),
{
    let ref_name = match &q.shorthand {
        Some(s) => s.clone(),
        None => String::new(),
    };
    match &q.commit {
        Some(c) => HeadInfo { ref_name, hash: c.id.clone(), message: c.message.clone() },
        None => HeadInfo { ref_name, hash: String::new(), message: String::new() },
    }
}

/// Collects the names of the enumerated branches, in their order.
pub fn collect_branches(items: &Vec<Option<String>>) -> (r: Vec<String>)
    ensures
        names_view(r@) == branch_names(items_view(items@)),
{
    let mut names: Vec<String> = Vec::new();
    let mut i: usize = 0;
    assert(items_view(items@.take(0)) =~= Seq::empty());
    assert(names_view(names@) =~= Seq::empty());
    while i < items.len()
        invariant
            i <= items.len(),
            names_view(names@) == branch_names(items_view(items@.take(i as int))),
        decreases items.len() - i,
    {
        let ghost before = names@;
        proof {
            let next = items_view(items@.take(i + 1));
            assert(next.drop_last() =~= items_view(items@.take(i as int)));
            assert(next.last() == text_view(items@[i as int]));
        }
        match &items[i] {
            Some(name) => {
                names.push(name.clone());
                assert(names_view(names@) =~= names_view(before).push(name@));
            },
            None => {},
        }
        i += 1;
    }
    assert(items@.take(i as int) =~= items@);
    names
}

/// The three sections of the reported paths.
#[derive(Clone, Debug, PartialEq, Eq)]
pub struct Sections {
    pub staged: Vec<StatusEntry>,
    pub unstaged: Vec<StatusEntry>,
    pub untracked: Vec<String>,
}

/// Sorts the reported paths into the three sections, keeping their order.
/// Ignored paths, paths without a shown flag and malformed entries are
/// left out.
pub fn sort_statuses(raw: &Vec<RawStatus>) -> (r: Sections)
    ensures
        entries_view(r.staged@) == section_entries(raws_view(raw@), Section::Staged),
        entries_view(r.unstaged@) == section_entries(raws_view(raw@), Section::Unstaged),
        names_view(r.untracked@) == paths_of(
            section_entries(raws_view(raw@), Section::Untracked),
        ),
{
    let mut staged: Vec<StatusEntry> = Vec::new();
    let mut unstaged: Vec<StatusEntry> = Vec::new();
    let mut untracked: Vec<String> = Vec::new();
    let mut i: usize = 0;
    proof {
        assert(raws_view(raw@.take(0)) =~= Seq::empty());
        assert(entries_view(staged@) =~= Seq::empty());
        assert(entries_view(unstaged@) =~= Seq::empty());
        assert(names_view(untracked@) =~= paths_of(Seq::empty()));
    }
    while i < raw.len()
        invariant
            i <= raw.len(),
            entries_view(staged@) == section_entries(
                raws_view(raw@.take(i as int)),
                Section::Staged,
            ),
            entries_view(unstaged@) == section_entries(
                raws_view(raw@.take(i as int)),
                Section::Unstaged,
            ),
            names_view(untracked@) == paths_of(
                section_entries(raws_view(raw@.take(i as int)), Section::Untracked),
            ),
        decreases raw.len() - i,
    {
        let ghost staged_before = staged@;
        let ghost unstaged_before = unstaged@;
        let ghost untracked_before = untracked@;
        let ghost entries_before = section_entries(
            raws_view(raw@.take(i as int)),
            Section::Untracked,
        );
        proof {
            let next = raws_view(raw@.take(i + 1));
            assert(next.drop_last() =~= raws_view(raw@.take(i as int)));
            assert(next.last() == raw@[i as int]@);
        }
        let item = &raw[i];
        match &item.path {
            Some(path) => {
                let ghost entry = EntryModel { path: path@, status: item.bits };
                match classify(item.bits) {
                    Category::Staged(_) => {
                        staged.push(StatusEntry { path: path.clone(), status: item.bits });
                        assert(entries_view(staged@) =~= entries_view(staged_before).push(entry));
                    },
                    Category::Unstaged(_) => {
                        unstaged.push(StatusEntry { path: path.clone(), status: item.bits });
                        assert(entries_view(unstaged@) =~= entries_view(unstaged_before).push(
                            entry,
                        ));
                    },
                    Category::Untracked => {
                        untracked.push(path.clone());
                        assert(names_view(untracked@) =~= names_view(untracked_before).push(
                            path@,
                        ));
                        assert(paths_of(entries_before.push(entry)) =~= paths_of(
                            entries_before,
                        ).push(path@));
                    },
                    Category::Dropped => {},
                }
            },
            None => {},
        }
        i += 1;
    }
    assert(raw@.take(i as int) =~= raw@);
    Sections { staged, unstaged, untracked }
}

impl AppState {
    /// Replaces head, branches and the three sections by what the
    /// repository reported, and clears the pending flag; returns the
    /// diagnostic notes of the enumerations that failed. Where no refresh
    /// is due (no repository, or none pending) nothing changes and no
    /// note is returned. A failed enumeration leaves its part empty and
    /// does not keep the others from being replaced.
    pub fn refresh(
        &mut self,
        head: &HeadQuery,
        branches: &Result<Vec<Option<String>>, String>,
        statuses: &Result<Vec<RawStatus>, String>,
    ) -> (notes: Vec<String>)
        ensures
            final(self)@ == spec_refresh(
                old(self)@,
                head@,
                branches_view(*branches),
                statuses_view(*statuses),
            ),
            names_view(notes@) == spec_refresh_notes(
                old(self)@,
                branches_view(*branches),
                statuses_view(*statuses),
            ),
            old(self)@.refresh_due() ==> final(self)@.wf() && !final(self)@.needs_refresh,
            old(self)@.wf() ==> final(self)@.wf(),
    {
        let mut notes: Vec<String> = Vec::new();
        assert(names_view(notes@) =~= Seq::empty());
        if !self.refresh_due() {
            return notes;
        }
        self.head = Some(build_head(head));
        match branches {
            Ok(items) => {
                self.branches = collect_branches(items);
            },
            Err(e) => {
                self.branches = Vec::new();
                let ghost before = notes@;
                notes.push(e.clone());
                assert(names_view(self.branches@) =~= Seq::empty());
                assert(names_view(notes@) =~= names_view(before).push(e@));
                assert(names_view(notes@) =~= seq![e@]);
            },
        }
        match statuses {
            Ok(raw) => {
                let sections = sort_statuses(raw);
                self.staged = sections.staged;
                self.unstaged = sections.unstaged;
                self.untracked = sections.untracked;
                proof {
                    lemma_section_classifies(raws_view(raw@), Section::Staged);
                    lemma_section_classifies(raws_view(raw@), Section::Unstaged);
                }
            },
            Err(e) => {
                self.staged = Vec::new();
                self.unstaged = Vec::new();
                self.untracked = Vec::new();
                let ghost before = notes@;
                notes.push(e.clone());
                assert(entries_view(self.staged@) =~= Seq::empty());
                assert(entries_view(self.unstaged@) =~= Seq::empty());
                assert(names_view(self.untracked@) =~= paths_of(Seq::empty()));
                assert(names_view(notes@) =~= names_view(before).push(e@));
            },
        }
        self.needs_refresh = false;
        notes
    }
}

/// A refresh does not depend on what the lists held before: the same
/// reports give the same head, branches and sections, whether the refresh
/// runs once, runs again at once (when none is pending any more), or runs
/// again after a new request.
pub proof fn law_refresh_idempotent(
    s: StateModel,
    head: HeadReport,
    branches: BranchReport,
    statuses: StatusReport,
)
    ensures
        spec_refresh(spec_refresh(s, head, branches, statuses), head, branches, statuses)
            == spec_refresh(s, head, branches, statuses),
        spec_refresh(
            StateModel { needs_refresh: true, ..spec_refresh(s, head, branches, statuses) },
            head,
            branches,
            statuses,
        ) == spec_refresh(StateModel { needs_refresh: true, ..s }, head, branches, statuses),
{
}

/// A reported path is shown in at most one section, and the sections
/// together hold no more entries than were reported.
pub proof fn law_sections_disjoint(raw: Seq<RawModel>)
    ensures
        forall|i: int, a: Section, b: Section|
            0 <= i < raw.len() && a != b ==> !(#[trigger] shown_in(raw[i], a) && #[trigger] shown_in(
                raw[i],
                b,
            )),
        section_entries(raw, Section::Staged).len() + section_entries(
            raw,
            Section::Unstaged,
        ).len() + section_entries(raw, Section::Untracked).len() <= raw.len(),
    decreases raw.len(),
{
    if raw.len() > 0 {
        law_sections_disjoint(raw.drop_last());
    }
}

/// The state stays well formed: it is so at startup, and a refresh, an
/// event and a reported size each keep it so.
pub proof fn law_state_stays_well_formed(
    s: StateModel,
    head: HeadReport,
    branches: BranchReport,
    statuses: StatusReport,
    event: Event,
    size: TermSize,
    repo_present: bool,
)
    ensures
        spec_initial(size, repo_present).wf(),
        s.wf() ==> spec_refresh(s, head, branches, statuses).wf(),
        s.wf() ==> spec_handle(s, event).0.wf(),
        s.wf() ==> spec_update_size(s, size).0.wf(),
{
    match statuses {
        Ok(raw) => {
            lemma_section_classifies(raw, Section::Staged);
            lemma_section_classifies(raw, Section::Unstaged);
        },
        Err(_) => {},
    }
}

/// Without a repository a refresh changes nothing; with one, a completed
/// refresh leaves none pending.
pub proof fn law_refresh_clears_flag(
    s: StateModel,
    head: HeadReport,
    branches: BranchReport,
    statuses: StatusReport,
)
    ensures
        !s.repo_present ==> spec_refresh(s, head, branches, statuses) == s,
        s.repo_present ==> !spec_refresh(s, head, branches, statuses).needs_refresh,
        !spec_refresh(s, head, branches, statuses).refresh_due(),
{
}

} // verus!
