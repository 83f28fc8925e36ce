//! The text of a frame.

use vstd::prelude::*;
use colored::Colorize;
use crate::state::{
    entries_view, head_view, names_view, AppState, EntryModel, HeadInfo, HeadModel, StateModel,
    StatusEntry,
};
use crate::status::{index_kind, spec_index_kind, spec_prefix, spec_worktree_kind, worktree_kind, Kind};

verus! {

/// The level whose flags label an entry.
#[derive(Clone, Copy, Debug, PartialEq, Eq, Structural)]
pub enum Level {
    Index,
    WorkTree,
}

/// The texts of `parts`, one after the other.
pub open spec fn concat_all(parts: Seq<Seq<char>>) -> Seq<char>
    decreases parts.len(),
{
    if parts.len() == 0 {
        Seq::empty()
    } else {
        concat_all(parts.drop_last()) + parts.last()
    }
}

/// One line per name: the indent, the name, a line feed.
pub open spec fn name_lines(names: Seq<Seq<char>>, indent: Seq<char>) -> Seq<char>
    decreases names.len(),
{
    if names.len() == 0 {
        Seq::empty()
    } else {
        name_lines(names.drop_last(), indent) + indent + names.last() + "\n"@
    }
}

/// The label of an entry: that of the first matching change at `level`,
/// nothing where none matches.
pub open spec fn entry_prefix(status: u32, level: Level) -> Seq<char> {
    match level {
        Level::Index => spec_prefix(spec_index_kind(status)),
        Level::WorkTree => spec_prefix(spec_worktree_kind(status)),
    }
}

/// One line per entry: its label, its path, a line feed.
pub open spec fn entry_lines(entries: Seq<EntryModel>, level: Level) -> Seq<char>
    decreases entries.len(),
{
    if entries.len() == 0 {
        Seq::empty()
    } else {
        entry_lines(entries.drop_last(), level) + entry_prefix(entries.last().status, level)
            + entries.last().path + "\n"@
    }
}

/// The head line; nothing where no head is known.
pub open spec fn head_block(head: Option<HeadModel>) -> Seq<char> {
    match head {
        Some(h) => "Head: "@ + h.ref_name + " "@ + h.message + "\n"@,
        None => Seq::empty(),
    }
}

/// The branch list under its heading; nothing where there is no branch.
pub open spec fn branches_block(names: Seq<Seq<char>>) -> Seq<char> {
    if names.len() == 0 {
        Seq::empty()
    } else {
        "Branches:\n"@ + name_lines(names, "\t"@)
    }
}

/// The untracked paths under their heading; nothing where there is none.
pub open spec fn untracked_block(paths: Seq<Seq<char>>) -> Seq<char> {
    if paths.len() == 0 {
        Seq::empty()
    } else {
        "\nUntracked changes:\n"@ + name_lines(paths, ""@)
    }
}

/// The unstaged entries under their heading, labelled by their
/// working-tree-level flags; nothing where there is none.
pub open spec fn unstaged_block(entries: Seq<EntryModel>) -> Seq<char> {
    if entries.len() == 0 {
        Seq::empty()
    } else {
        "\nUnstaged changes:\n"@ + entry_lines(entries, Level::WorkTree)
    }
}

/// The staged entries under their heading, labelled by their index-level
/// flags; nothing where there is none.
pub open spec fn staged_block(entries: Seq<EntryModel>) -> Seq<char> {
    if entries.len() == 0 {
        Seq::empty()
    } else {
        "\nStaged changes:\n"@ + entry_lines(entries, Level::Index)
    }
}

/// The text of a frame: the title, the notes of the refresh that preceded
/// it, then head, branches, untracked, unstaged and staged paths, each left
/// out where it is empty.
pub open spec fn spec_document(s: StateModel, notes: Seq<Seq<char>>) -> Seq<char> {
    "rngit\n"@ + concat_all(notes) + head_block(s.head) + branches_block(s.branches)
        + untracked_block(s.untracked) + unstaged_block(s.unstaged) + staged_block(s.staged)
}

/// Marks a reference name as bright blue with `colored::Colorize::bright_blue`
/// and takes the marked string's text by its `Deref` to `str`. That text is
/// the name itself: the colour is kept beside it and is no part of it.
#[verifier::external_body]
fn highlight(name: &str) -> (r: String)
    ensures
        r@ == name@,
{
    let marked = name.bright_blue();
    let text: &str = &marked;
    text.to_string()
}

/// The label of an optional kind.
fn prefix_of(kind: Option<Kind>) -> (r: &'static str)
    ensures
        r@ == spec_prefix(kind),
{
    match kind {
        Some(k) => k.label(),
        None => {
            proof {
                reveal_strlit("");
            }
            ""
        },
    }
}

/// Appends every part to `out`.
fn append_all(out: &mut String, parts: &Vec<String>)
    ensures
        final(out)@ == old(out)@ + concat_all(names_view(parts@)),
{
    let ghost start = out@;
    let mut i: usize = 0;
    proof {
        assert(names_view(parts@.take(0)) =~= Seq::empty());
        assert(out@ =~= start + concat_all(names_view(parts@.take(0))));
    }
    while i < parts.len()
        invariant
            i <= parts.len(),
            out@ == start + concat_all(names_view(parts@.take(i as int))),
        decreases parts.len() - i,
    {
        let ghost before = out@;
        let ghost done = names_view(parts@.take(i as int));
        let ghost next = names_view(parts@.take(i + 1));
        proof {
            assert(next.drop_last() =~= done);
            assert(next.last() == parts@[i as int]@);
        }
        out.append(parts[i].as_str());
        assert(out@ =~= start + concat_all(next));
        i += 1;
    }
    assert(parts@.take(i as int) =~= parts@);
}

/// Appends one line per name to `out`.
fn append_name_lines(out: &mut String, names: &Vec<String>, indent: &str)
    ensures
        final(out)@ == old(out)@ + name_lines(names_view(names@), indent@),
{
    let ghost start = out@;
    let mut i: usize = 0;
    proof {
        assert(names_view(names@.take(0)) =~= Seq::empty());
        assert(out@ =~= start + name_lines(names_view(names@.take(0)), indent@));
    }
    while i < names.len()
        invariant
            i <= names.len(),
            out@ == start + name_lines(names_view(names@.take(i as int)), indent@),
        decreases names.len() - i,
    {
        let ghost done = names_view(names@.take(i as int));
        let ghost next = names_view(names@.take(i + 1));
        proof {
            assert(next.drop_last() =~= done);
            assert(next.last() == names@[i as int]@);
        }
        out.append(indent);
        out.append(names[i].as_str());
        out.append("\n");
        assert(out@ =~= start + name_lines(next, indent@));
        i += 1;
    }
    assert(names@.take(i as int) =~= names@);
}

/// Appends one labelled line per entry to `out`.
fn append_entry_lines(out: &mut String, entries: &Vec<StatusEntry>, level: Level)
    ensures
        final(out)@ == old(out)@ + entry_lines(entries_view(entries@), level),
{
    let ghost start = out@;
    let mut i: usize = 0;
    proof {
        assert(entries_view(entries@.take(0)) =~= Seq::empty());
        assert(out@ =~= start + entry_lines(entries_view(entries@.take(0)), level));
    }
    while i < entries.len()
        invariant
            i <= entries.len(),
            out@ == start + entry_lines(entries_view(entries@.take(i as int)), level),
        decreases entries.len() - i,
    {
        let ghost done = entries_view(entries@.take(i as int));
        let ghost next = entries_view(entries@.take(i + 1));
        proof {
            assert(next.drop_last() =~= done);
            assert(next.last() == entries@[i as int]@);
        }
        let entry = &entries[i];
        let kind = match level {
            Level::Index => index_kind(entry.status),
            Level::WorkTree => worktree_kind(entry.status),
        };
        out.append(prefix_of(kind));
        out.append(entry.path.as_str());
        out.append("\n");
        assert(out@ =~= start + entry_lines(next, level));
        i += 1;
    }
    assert(entries@.take(i as int) =~= entries@);
}

/// Appends the head line to `out`.
fn append_head(out: &mut String, head: &HeadInfo)
    ensures
        final(out)@ == old(out)@ + head_block(Some(head@)),
{
    let ghost start = out@;
    let name = highlight(head.ref_name.as_str());
    out.append("Head: ");
    out.append(name.as_str());
    out.append(" ");
    out.append(head.message.as_str());
    out.append("\n");
    assert(out@ =~= start + head_block(Some(head@)));
}

/// Appends the head line to `out`, where a head is known.
fn append_head_block(out: &mut String, head: &Option<HeadInfo>)
    ensures
        final(out)@ == old(out)@ + head_block(head_view(*head)),
{
    match head {
        Some(h) => {
            append_head(out, h);
        },
        None => {
            assert(out@ =~= out@ + Seq::<char>::empty());
        },
    }
}

/// Appends the branch list under its heading to `out`.
fn append_branches(out: &mut String, names: &Vec<String>)
    ensures
        final(out)@ == old(out)@ + branches_block(names_view(names@)),
{
    let ghost start = out@;
    if names.len() > 0 {
        out.append("Branches:\n");
        append_name_lines(out, names, "\t");
    }
    assert(out@ =~= start + branches_block(names_view(names@)));
}

/// Appends the untracked paths under their heading to `out`.
fn append_untracked(out: &mut String, paths: &Vec<String>)
    ensures
        final(out)@ == old(out)@ + untracked_block(names_view(paths@)),
{
    let ghost start = out@;
    if paths.len() > 0 {
        out.append("\nUntracked changes:\n");
        append_name_lines(out, paths, "");
    }
    assert(out@ =~= start + untracked_block(names_view(paths@)));
}

/// Appends the unstaged entries under their heading to `out`.
fn append_unstaged(out: &mut String, entries: &Vec<StatusEntry>)
    ensures
        final(out)@ == old(out)@ + unstaged_block(entries_view(entries@)),
{
    let ghost start = out@;
    if entries.len() > 0 {
        out.append("\nUnstaged changes:\n");
        append_entry_lines(out, entries, Level::WorkTree);
    }
    assert(out@ =~= start + unstaged_block(entries_view(entries@)));
}

/// Appends the staged entries under their heading to `out`.
fn append_staged(out: &mut String, entries: &Vec<StatusEntry>)
    ensures
        final(out)@ == old(out)@ + staged_block(entries_view(entries@)),
{
    let ghost start = out@;
    if entries.len() > 0 {
        out.append("\nStaged changes:\n");
        append_entry_lines(out, entries, Level::Index);
    }
    assert(out@ =~= start + staged_block(entries_view(entries@)));
}

/// Composes the text of a frame from the state and the notes of the
/// refresh that preceded it.
pub fn render(state: &AppState, notes: &Vec<String>) -> (out: String)
    ensures
        out@ == spec_document(state@, names_view(notes@)),
{
    let mut out = String::new();
    out.append("rngit\n");
    assert(out@ =~= "rngit\n"@);
    append_all(&mut out, notes);
    append_head_block(&mut out, &state.head);
    append_branches(&mut out, &state.branches);
    append_untracked(&mut out, &state.untracked);
    append_unstaged(&mut out, &state.unstaged);
    append_staged(&mut out, &state.staged);
    out
}

/// The one-line note for a repository that could not be opened: the path,
/// a colon and a space, the reason, a line feed.
pub open spec fn spec_open_failure_note(path: Seq<char>, reason: Seq<char>) -> Seq<char> {
    path + ": "@ + reason + "\n"@
}

/// Composes the note that a frame shows where the repository at `path`
/// could not be opened.
pub fn open_failure_note(path: &str, reason: &str) -> (note: String)
    ensures
        note@ == spec_open_failure_note(path@, reason@),
{
    let mut note = String::new();
    note.append(path);
    assert(note@ =~= path@);
    note.append(": ");
    note.append(reason);
    note.append("\n");
    note
}

/// A state without a head and with empty lists renders as the title
/// followed by the notes.
pub proof fn law_render_bare(s: StateModel, notes: Seq<Seq<char>>)
    requires
        s.head is None,
        s.branches.len() == 0,
        s.untracked.len() == 0,
        s.unstaged.len() == 0,
        s.staged.len() == 0,
    ensures
        spec_document(s, notes) == "rngit\n"@ + concat_all(notes),
{
    assert(spec_document(s, notes) =~= "rngit\n"@ + concat_all(notes));
}

} // verus!
