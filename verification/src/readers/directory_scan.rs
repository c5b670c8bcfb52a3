//! The last resort: a guess at the open files from what lies right in the
//! directory of the workspace. It looks at a few entries, takes a few
//! files that look like source files, and never goes down into a directory.

use crate::evidence::{DirEntry, Evidence, PathKind};
use crate::resolution::lemma_files_view_push;
use crate::text::{base_name, basename, ends_with, to_chars};
use crate::types::{file_at, files_view, open_file, FileInfo, FileInfoView};
use vstd::prelude::*;

verus! {

/// The most entries of a directory that the guess looks at.
pub const GUESS_ENTRIES: usize = 10;

/// The most files that the guess takes.
pub const GUESS_FILES: usize = 5;

/// Whether a file of the name `name` looks like a source file.
pub open spec fn is_source_name(name: Seq<char>) -> bool {
    ||| ".js"@.is_suffix_of(name)
    ||| ".ts"@.is_suffix_of(name)
    ||| ".py"@.is_suffix_of(name)
    ||| ".rs"@.is_suffix_of(name)
    ||| ".go"@.is_suffix_of(name)
    ||| ".java"@.is_suffix_of(name)
    ||| ".cpp"@.is_suffix_of(name)
    ||| ".c"@.is_suffix_of(name)
    ||| ".json"@.is_suffix_of(name)
    ||| ".md"@.is_suffix_of(name)
}

/// The files that the guess takes from `entries`: the files that look like
/// source files, while they are fewer than the most it takes, the first of
/// them marked active.
pub open spec fn guessed_files(entries: Seq<Option<DirEntry>>) -> Seq<FileInfoView>
    decreases entries.len(),
{
    if entries.len() == 0 {
        Seq::empty()
    } else {
        let before = guessed_files(entries.drop_last());
        match entries.last() {
            Some(entry) => if entry.kind == PathKind::File && before.len() < GUESS_FILES
                && is_source_name(base_name(entry.path@)) {
                before.push(file_at(entry.path@, before.len() == 0))
            } else {
                before
            },
            None => before,
        }
    }
}

/// The guess at the open files of the workspace at `workspace_path`, for
/// want of a session: what the first entries of the directory itself
/// yield, and nothing where the directory was not listed.
pub open spec fn heuristic_files(evidence: Evidence, workspace_path: Seq<char>) -> Seq<
    FileInfoView,
> {
    match evidence.entries_at(workspace_path) {
        Some(entries) => guessed_files(
            if entries.len() > GUESS_ENTRIES {
                entries.take(GUESS_ENTRIES as int)
            } else {
                entries
            },
        ),
        None => Seq::empty(),
    }
}

/// Whether a file of the name `name` looks like a source file.
pub fn looks_like_source(name: &Vec<char>) -> (r: bool)
    ensures
        r == is_source_name(name@),
{
    ends_with(name, &to_chars(".js")) || ends_with(name, &to_chars(".ts")) || ends_with(
        name,
        &to_chars(".py"),
    ) || ends_with(name, &to_chars(".rs")) || ends_with(name, &to_chars(".go")) || ends_with(
        name,
        &to_chars(".java"),
    ) || ends_with(name, &to_chars(".cpp")) || ends_with(name, &to_chars(".c")) || ends_with(
        name,
        &to_chars(".json"),
    ) || ends_with(name, &to_chars(".md"))
}

/// The guess at the open files of the workspace at `workspace_path`.
pub fn get_vscode_files_heuristic(evidence: &Evidence, workspace_path: &str) -> (r: Vec<FileInfo>)
    ensures
        files_view(r@) == heuristic_files(*evidence, workspace_path@),
{
    let mut files: Vec<FileInfo> = Vec::new();
    assert(files_view(files@) == Seq::<FileInfoView>::empty());
    let entries = match evidence.listing(workspace_path) {
        Some(entries) => entries,
        None => {
            return files;
        },
    };
    let count: usize = if entries.len() > GUESS_ENTRIES {
        GUESS_ENTRIES
    } else {
        entries.len()
    };
    let ghost looked = entries@.take(count as int);
    assert(entries@.take(entries.len() as int) == entries@);
    let mut i: usize = 0;
    assert(looked.take(0) == Seq::<Option<DirEntry>>::empty());
    while i < count
        invariant
            i <= count <= entries.len(),
            looked == entries@.take(count as int),
            files_view(files@) == guessed_files(looked.take(i as int)),
        decreases count - i,
    {
        assert(looked.take(i + 1).drop_last() == looked.take(i as int));
        assert(looked[i as int] == entries@[i as int]);
        match &entries[i] {
            Some(entry) => {
                if entry.kind == PathKind::File && files.len() < GUESS_FILES && looks_like_source(
                    &basename(&to_chars(entry.path.as_str())),
                ) {
                    let file = open_file(entry.path.as_str(), files.len() == 0);
                    proof {
                        lemma_files_view_push(files@, file);
                    }
                    files.push(file);
                }
            },
            None => {},
        }
        i += 1;
    }
    assert(looked.take(count as int) == looked);
    files
}

/// The guess takes no more files than its limit, each of them a file that
/// was listed, and marks the first of them active and no other.
pub proof fn lemma_guess_is_bounded(entries: Seq<Option<DirEntry>>)
    ensures
        guessed_files(entries).len() <= GUESS_FILES,
        guessed_files(entries).len() <= entries.len(),
        forall|k: int|
            0 <= k < guessed_files(entries).len() ==> (#[trigger] guessed_files(
                entries,
            )[k]).is_active == (k == 0),
    decreases entries.len(),
{
    if entries.len() > 0 {
        lemma_guess_is_bounded(entries.drop_last());
    }
}

} // verus!
