//! What of a result is shown, and in which lines.

use crate::types::{files_view, opt_text, DetectionResult, FileInfo, FileInfoView};
use vstd::prelude::*;

verus! {

/// The form in which a result is shown.
#[derive(Debug, Clone, Copy, PartialEq, Eq, Structural)]
pub enum OutputFormat {
    /// The whole result as JSON.
    Json,
    /// One line for each file, the active ones marked.
    Plain,
    /// One line for each file, the path alone.
    Paths,
}

/// The form of the name `name`: `plain`, `paths`, and JSON for any other
/// name.
pub open spec fn format_named(name: Seq<char>) -> OutputFormat {
    if name == "plain"@ {
        OutputFormat::Plain
    } else if name == "paths"@ {
        OutputFormat::Paths
    } else {
        OutputFormat::Json
    }
}

/// The form of the name `name`.
pub fn output_format(name: &str) -> (r: OutputFormat)
    ensures
        r == format_named(name@),
{
    let name = String::from_str(name);
    if name == String::from_str("plain") {
        OutputFormat::Plain
    } else if name == String::from_str("paths") {
        OutputFormat::Paths
    } else {
        OutputFormat::Json
    }
}

/// The files that are shown: all of them, or the active ones only.
pub open spec fn shown(files: Seq<FileInfoView>, active_only: bool) -> Seq<FileInfoView>
    decreases files.len(),
{
    if files.len() == 0 {
        files
    } else if files.last().is_active || !active_only {
        shown(files.drop_last(), active_only).push(files.last())
    } else {
        shown(files.drop_last(), active_only)
    }
}

/// The line that shows a file with its mark: `*` for an active file and a
/// space for another, a colon, a space and the path.
pub open spec fn plain_line(file: FileInfoView) -> Seq<char> {
    (if file.is_active {
        "*"@
    } else {
        " "@
    }) + ": "@ + file.path
}

/// The lines of the plain form.
pub open spec fn plain_lines_of(files: Seq<FileInfoView>, active_only: bool) -> Seq<Seq<char>> {
    shown(files, active_only).map_values(|file: FileInfoView| plain_line(file))
}

/// The lines of the form that shows paths.
pub open spec fn path_lines_of(files: Seq<FileInfoView>, active_only: bool) -> Seq<Seq<char>> {
    shown(files, active_only).map_values(|file: FileInfoView| file.path)
}

/// What a sequence of lines holds.
pub open spec fn lines_view(lines: Seq<String>) -> Seq<Seq<char>> {
    lines.map_values(|line: String| line@)
}

/// The lines of the plain form of a result.
pub fn plain_lines(data: &DetectionResult, active_only: bool) -> (r: Vec<String>)
    ensures
        lines_view(r@) == plain_lines_of(data@.findings.open_files, active_only),
{
    let mut lines: Vec<String> = Vec::new();
    let ghost files = files_view(data.open_files@);
    let mut i: usize = 0;
    assert(files.take(0) == Seq::<FileInfoView>::empty());
    assert(lines_view(lines@) =~= plain_lines_of(files.take(0), active_only));
    while i < data.open_files.len()
        invariant
            i <= data.open_files.len(),
            files == files_view(data.open_files@),
            lines_view(lines@) == plain_lines_of(files.take(i as int), active_only),
        decreases data.open_files.len() - i,
    {
        assert(files.take(i + 1).drop_last() == files.take(i as int));
        let file = &data.open_files[i];
        assert(files[i as int] == file@);
        if file.is_active || !active_only {
            let mut line = String::from_str(if file.is_active { "*" } else { " " });
            line.append(": ");
            line.append(file.path.as_str());
            assert(lines_view(lines@.push(line)) =~= lines_view(lines@).push(line@));
            assert(plain_lines_of(files.take(i + 1), active_only) =~= plain_lines_of(
                files.take(i as int),
                active_only,
            ).push(plain_line(file@)));
            lines.push(line);
        }
        i += 1;
    }
    assert(files.take(data.open_files.len() as int) == files);
    lines
}

/// The lines of the form of a result that shows paths.
pub fn path_lines(data: &DetectionResult, active_only: bool) -> (r: Vec<String>)
    ensures
        lines_view(r@) == path_lines_of(data@.findings.open_files, active_only),
{
    let mut lines: Vec<String> = Vec::new();
    let ghost files = files_view(data.open_files@);
    let mut i: usize = 0;
    assert(files.take(0) == Seq::<FileInfoView>::empty());
    assert(lines_view(lines@) =~= path_lines_of(files.take(0), active_only));
    while i < data.open_files.len()
        invariant
            i <= data.open_files.len(),
            files == files_view(data.open_files@),
            lines_view(lines@) == path_lines_of(files.take(i as int), active_only),
        decreases data.open_files.len() - i,
    {
        assert(files.take(i + 1).drop_last() == files.take(i as int));
        let file = &data.open_files[i];
        assert(files[i as int] == file@);
        if file.is_active || !active_only {
            let line = file.path.clone();
            assert(lines_view(lines@.push(line)) =~= lines_view(lines@).push(line@));
            assert(path_lines_of(files.take(i + 1), active_only) =~= path_lines_of(
                files.take(i as int),
                active_only,
            ).push(file@.path));
            lines.push(line);
        }
        i += 1;
    }
    assert(files.take(data.open_files.len() as int) == files);
    lines
}

/// The first of `files` at or after `from` that has the path `path`.
pub open spec fn entry_from(files: Seq<FileInfoView>, path: Seq<char>, from: int) -> Option<
    FileInfoView,
>
    decreases files.len() - from,
{
    if from < 0 || from >= files.len() {
        None
    } else if files[from].path == path {
        Some(files[from])
    } else {
        entry_from(files, path, from + 1)
    }
}

/// The active file of a result: the first of its files that has the path
/// of the active file.
pub open spec fn active_entry_of(
    files: Seq<FileInfoView>,
    active_file: Option<Seq<char>>,
) -> Option<FileInfoView> {
    match active_file {
        Some(path) => entry_from(files, path, 0),
        None => None,
    }
}

/// The active file of a result.
pub fn active_entry(data: &DetectionResult) -> (r: Option<FileInfo>)
    ensures
        match r {
            Some(file) => active_entry_of(data@.findings.open_files, data@.findings.active_file)
                == Some(file@),
            None => active_entry_of(data@.findings.open_files, data@.findings.active_file)
                is None,
        },
{
    let path = match &data.active_file {
        Some(path) => path,
        None => {
            return None;
        },
    };
    let ghost files = files_view(data.open_files@);
    let mut i: usize = 0;
    while i < data.open_files.len()
        invariant
            i <= data.open_files.len(),
            files == files_view(data.open_files@),
            opt_text(data.active_file) == Some(path@),
            entry_from(files, path@, 0) == entry_from(files, path@, i as int),
        decreases data.open_files.len() - i,
    {
        assert(files[i as int] == data.open_files@[i as int]@);
        if data.open_files[i].path == *path {
            return Some(data.open_files[i].clone());
        }
        i += 1;
    }
    None
}

} // verus!
