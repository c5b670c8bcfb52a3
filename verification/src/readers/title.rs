//! The window title of an editor of the JetBrains family, read for the
//! file in the focused tab, the project and the directory of the project.
//!
//! The forms of a title are regular expressions. What an expression matches
//! is the answer of the `regex` crate; what a match means is decided
//! here, for every answer. The title alone decides what is read from it.

use crate::pattern::{captures, group, group_at, groups_view, regex_captures};
use crate::text::{
    concatenate, eq_ignore_ascii_case, from_chars, is_char, same_ignoring_ascii_case, skip_trailing,
    to_chars, trim, trim_end_char, trimmed,
};
use crate::types::{opt_text, FileInfo, FileInfoView};
use vstd::prelude::*;

verus! {

/// The number of forms of a window title that the parser knows.
pub const TITLE_FORMS: usize = 4;

/// The forms of a window title, the most specific first, each as a regular
/// expression: the file, the project and the path of the project in
/// brackets, before the name and version of the editor; the same without
/// the path; the project and the file with a dash between them; and the
/// project alone before the name and version of the editor.
pub open spec fn title_form(which: int) -> Seq<char> {
    if which == 0 {
        r"^([^-]+?)\s*(\*)?\s*-\s*([^\[]+?)\s*\[([^\]]+)\]\s*-\s*(\w+(?:\s+\w+)*)\s+([\d.]+)"@
    } else if which == 1 {
        r"^([^-]+?)\s*(\*)?\s*-\s*([^-]+?)\s*-\s*(\w+(?:\s+\w+)*)\s+([\d.]+)"@
    } else if which == 2 {
        r"^([^–]+?)\s*–\s*(.+)$"@
    } else {
        r"^([^-]+?)\s*-\s*(\w+(?:\s+\w+)*)\s+([\d.]+)"@
    }
}

/// The regular expression of the form `which` of a window title.
pub fn title_form_text(which: usize) -> (r: &'static str)
    ensures
        r@ == title_form(which as int),
{
    if which == 0 {
        r"^([^-]+?)\s*(\*)?\s*-\s*([^\[]+?)\s*\[([^\]]+)\]\s*-\s*(\w+(?:\s+\w+)*)\s+([\d.]+)"
    } else if which == 1 {
        r"^([^-]+?)\s*(\*)?\s*-\s*([^-]+?)\s*-\s*(\w+(?:\s+\w+)*)\s+([\d.]+)"
    } else if which == 2 {
        r"^([^–]+?)\s*–\s*(.+)$"
    } else {
        r"^([^-]+?)\s*-\s*(\w+(?:\s+\w+)*)\s+([\d.]+)"
    }
}

/// What one form of a window title yields.
pub enum TitleReading {
    /// A file, and the directory of its project where that is known.
    Accepted(FileInfo, Option<String>),
    /// Nothing: the next form is to be tried.
    Rejected,
    /// The title names no file, and no other form is to be tried.
    Nothing,
}

/// What a [`TitleReading`] holds.
pub enum TitleReadingView {
    Accepted(FileInfoView, Option<Seq<char>>),
    Rejected,
    Nothing,
}

impl View for TitleReading {
    type V = TitleReadingView;

    open spec fn view(&self) -> TitleReadingView {
        match self {
            TitleReading::Accepted(file, project_path) => TitleReadingView::Accepted(
                file@,
                opt_text(*project_path),
            ),
            TitleReading::Rejected => TitleReadingView::Rejected,
            TitleReading::Nothing => TitleReadingView::Nothing,
        }
    }
}

/// The path of the file `filename` in the project directory `project_path`:
/// the directory without the `/` at its end, a `/`, and the file's name.
pub open spec fn path_in_project(project_path: Seq<char>, filename: Seq<char>) -> Seq<char> {
    skip_trailing(project_path, is_char('/')) + seq!['/'] + filename
}

/// The file that a window title names: the active one, with its path in the
/// directory of the project where that is known, and else its name alone.
pub open spec fn title_file(
    filename: Seq<char>,
    is_modified: bool,
    project_name: Seq<char>,
    project_path: Option<Seq<char>>,
) -> FileInfoView {
    FileInfoView {
        path: match project_path {
            Some(dir) => path_in_project(dir, filename),
            None => filename,
        },
        name: filename,
        is_active: true,
        is_modified,
        tab_index: None,
        project_name: Some(project_name),
    }
}

/// What the form `which` yields from the groups of its match. A candidate
/// is rejected where the name of the file is empty or is the name of the
/// project up to the case of ASCII letters. The first form takes the
/// directory of the project from the title; the second and the third give
/// none. The third form shows no unsaved changes, and the fourth names no
/// file.
pub open spec fn title_reading(which: int, groups: Seq<Option<Seq<char>>>) -> TitleReadingView {
    if which == 0 || which == 1 {
        match (group_at(groups, 1), group_at(groups, 3)) {
            (Some(first), Some(third)) => {
                let filename = trimmed(first);
                let project_name = trimmed(third);
                let project_path = if which == 0 {
                    match group_at(groups, 4) {
                        Some(fourth) => Some(trimmed(fourth)),
                        None => None,
                    }
                } else {
                    None
                };
                if filename.len() > 0 && !same_ignoring_ascii_case(filename, project_name) {
                    TitleReadingView::Accepted(
                        title_file(
                            filename,
                            group_at(groups, 2) is Some,
                            project_name,
                            project_path,
                        ),
                        project_path,
                    )
                } else {
                    TitleReadingView::Rejected
                }
            },
            _ => TitleReadingView::Nothing,
        }
    } else if which == 2 {
        match (group_at(groups, 1), group_at(groups, 2)) {
            (Some(first), Some(second)) => {
                let project_name = trimmed(first);
                let filename = trimmed(second);
                if filename.len() > 0 && !same_ignoring_ascii_case(filename, project_name) {
                    TitleReadingView::Accepted(
                        title_file(filename, false, project_name, None),
                        None,
                    )
                } else {
                    TitleReadingView::Rejected
                }
            },
            _ => TitleReadingView::Nothing,
        }
    } else {
        TitleReadingView::Nothing
    }
}

/// What the forms `which` and after yield from `title`: what the first
/// form yields that matches and is not rejected.
pub open spec fn title_parsed_from(title: Seq<char>, which: int) -> Option<
    (FileInfoView, Option<Seq<char>>),
>
    decreases TITLE_FORMS - which,
{
    if which < 0 || which >= TITLE_FORMS {
        None
    } else {
        match regex_captures(title_form(which), title) {
            Some(groups) => match title_reading(which, groups) {
                TitleReadingView::Accepted(file, project_path) => Some((file, project_path)),
                TitleReadingView::Rejected => title_parsed_from(title, which + 1),
                TitleReadingView::Nothing => None,
            },
            None => title_parsed_from(title, which + 1),
        }
    }
}

/// The file that the window title `title` names, with the directory of its
/// project where the title gives it.
pub open spec fn title_parsed(title: Seq<char>) -> Option<(FileInfoView, Option<Seq<char>>)> {
    title_parsed_from(title, 0)
}

/// The path of the file `filename` in the project directory `project_path`.
pub fn place_in_project(project_path: &str, filename: &str) -> (r: String)
    ensures
        r@ == path_in_project(project_path@, filename@),
{
    let mut slash: Vec<char> = Vec::new();
    slash.push('/');
    assert(slash@ == seq!['/']);
    let stem = concatenate(&trim_end_char(&to_chars(project_path), '/'), &slash);
    from_chars(&concatenate(&stem, &to_chars(filename)))
}

/// The file that a window title names.
pub fn file_of_title(
    filename: &Vec<char>,
    is_modified: bool,
    project_name: &Vec<char>,
    project_path: &Option<String>,
) -> (r: FileInfo)
    ensures
        r@ == title_file(filename@, is_modified, project_name@, opt_text(*project_path)),
{
    let name = from_chars(filename);
    let path = match project_path {
        Some(dir) => place_in_project(dir.as_str(), name.as_str()),
        None => from_chars(filename),
    };
    FileInfo {
        path,
        name,
        is_active: true,
        is_modified,
        tab_index: None,
        project_name: Some(from_chars(project_name)),
    }
}

/// What the form `which` yields from the groups of its match.
pub fn read_title_groups(which: usize, groups: &Vec<Option<String>>) -> (r: TitleReading)
    ensures
        r@ == title_reading(which as int, groups_view(groups@)),
{
    if which == 0 || which == 1 {
        let first = match group(groups, 1) {
            Some(text) => text,
            None => {
                return TitleReading::Nothing;
            },
        };
        let is_modified = group(groups, 2).is_some();
        let third = match group(groups, 3) {
            Some(text) => text,
            None => {
                return TitleReading::Nothing;
            },
        };
        let filename = trim(&to_chars(first.as_str()));
        let project_name = trim(&to_chars(third.as_str()));
        if filename.len() > 0 && !eq_ignore_ascii_case(&filename, &project_name) {
            let project_path = if which == 0 {
                match group(groups, 4) {
                    Some(fourth) => Some(from_chars(&trim(&to_chars(fourth.as_str())))),
                    None => None,
                }
            } else {
                None
            };
            let file = file_of_title(&filename, is_modified, &project_name, &project_path);
            TitleReading::Accepted(file, project_path)
        } else {
            TitleReading::Rejected
        }
    } else if which == 2 {
        let first = match group(groups, 1) {
            Some(text) => text,
            None => {
                return TitleReading::Nothing;
            },
        };
        let second = match group(groups, 2) {
            Some(text) => text,
            None => {
                return TitleReading::Nothing;
            },
        };
        let project_name = trim(&to_chars(first.as_str()));
        let filename = trim(&to_chars(second.as_str()));
        if filename.len() > 0 && !eq_ignore_ascii_case(&filename, &project_name) {
            let file = file_of_title(&filename, false, &project_name, &None);
            TitleReading::Accepted(file, None)
        } else {
            TitleReading::Rejected
        }
    } else {
        TitleReading::Nothing
    }
}

/// What a form accepts is a file with a name, marked active, whose path is
/// its place in the directory of the project, or its name alone where no
/// directory is known.
pub proof fn lemma_title_reading(which: int, groups: Seq<Option<Seq<char>>>)
    ensures
        match title_reading(which, groups) {
            TitleReadingView::Accepted(file, project_path) => {
                &&& file.name.len() > 0
                &&& file.path.len() > 0
                &&& file.is_active
                &&& file.project_name is Some
                &&& file.path == match project_path {
                    Some(dir) => path_in_project(dir, file.name),
                    None => file.name,
                }
            },
            _ => true,
        },
{
}

/// The file that a title names has a name, is marked active, and has for
/// its path its place in the directory of the project, or its name alone
/// where no directory is known.
pub proof fn lemma_title_parsed_from(title: Seq<char>, which: int)
    ensures
        match title_parsed_from(title, which) {
            Some((file, project_path)) => {
                &&& file.name.len() > 0
                &&& file.path.len() > 0
                &&& file.is_active
                &&& file.project_name is Some
                &&& file.path == match project_path {
                    Some(dir) => path_in_project(dir, file.name),
                    None => file.name,
                }
            },
            None => true,
        },
    decreases TITLE_FORMS - which,
{
    if 0 <= which < TITLE_FORMS {
        match regex_captures(title_form(which), title) {
            Some(groups) => {
                lemma_title_reading(which, groups);
            },
            None => {},
        }
        lemma_title_parsed_from(title, which + 1);
    }
}

/// The path of the file that a title names is the directory of its
/// project, a `/` and the name of the file, for every title from which the
/// parser takes a file and a directory that does not end in `/`, and so for
/// every such title of the form that gives the directory in brackets. Of a
/// directory that ends in `/` the path has the `/` once.
pub proof fn lemma_title_path(title: Seq<char>)
    ensures
        match title_parsed(title) {
            Some((file, Some(dir))) => {
                &&& file.path == path_in_project(dir, file.name)
                &&& (!(dir.len() > 0 && dir.last() == '/') ==> file.path == dir + seq!['/']
                    + file.name)
            },
            Some((file, None)) => file.path == file.name,
            None => true,
        },
{
    lemma_title_parsed_from(title, 0);
}

/// A title of the first form, the one with the directory of the project in
/// brackets: where the form matches and its candidate is accepted, the
/// parser returns that candidate, whose directory is the one in the
/// brackets and whose path is that directory, a `/` and the name of the
/// file, unless the directory ends in `/`.
pub proof fn lemma_full_title(title: Seq<char>, groups: Seq<Option<Seq<char>>>)
    requires
        regex_captures(title_form(0), title) == Some(groups),
        title_reading(0, groups) is Accepted,
    ensures
        match title_reading(0, groups) {
            TitleReadingView::Accepted(file, project_path) => {
                &&& title_parsed(title) == Some((file, project_path))
                &&& project_path == match group_at(groups, 4) {
                    Some(fourth) => Some(trimmed(fourth)),
                    None => None,
                }
                &&& match project_path {
                    Some(dir) => !(dir.len() > 0 && dir.last() == '/') ==> file.path == dir
                        + seq!['/'] + file.name,
                    None => file.path == file.name,
                }
            },
            _ => false,
        },
{
    lemma_title_reading(0, groups);
}

/// The file that the window title `title` names, with the directory of
/// its project where the title gives it; `None` where the title names no
/// file.
pub fn parse_window_title(title: &str) -> (r: Option<(FileInfo, Option<String>)>)
    ensures
        match r {
            Some((file, project_path)) => title_parsed(title@) == Some(
                (file@, opt_text(project_path)),
            ),
            None => title_parsed(title@) is None,
        },
{
    let mut which: usize = 0;
    while which < TITLE_FORMS
        invariant
            which <= TITLE_FORMS,
            title_parsed(title@) == title_parsed_from(title@, which as int),
        decreases TITLE_FORMS - which,
    {
        match captures(title_form_text(which), title) {
            Some(groups) => match read_title_groups(which, &groups) {
                TitleReading::Accepted(file, project_path) => {
                    return Some((file, project_path));
                },
                TitleReading::Rejected => {},
                TitleReading::Nothing => {
                    return None;
                },
            },
            None => {},
        }
        which += 1;
    }
    None
}

} // verus!
