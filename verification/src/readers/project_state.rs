//! The state that an editor of the JetBrains family keeps in the metadata
//! directory of a project, read for the open editor tabs.

use crate::evidence::{Evidence, PathKind};
use crate::pattern::{captures_all, group, group_at, groups_view, matches_view, regex_captures_all};
use crate::resolution::lemma_files_view_push;
use crate::text::{
    base_name, basename, concatenate, find, find_text, from_chars, join_path, joined, same,
    subrange, texts, to_chars,
};
use crate::types::{files_view, FileInfo, FileInfoView};
use vstd::prelude::*;

verus! {

/// The line that opens the editor tabs in a file of project state.
pub open spec fn tabs_opening() -> Seq<char> {
    "<component name=\"FileEditorManager\">"@
}

/// The line that closes a component in a file of project state.
pub open spec fn component_closing() -> Seq<char> {
    "</component>"@
}

/// The regular expression of one editor tab: whether it is the current
/// one, and the path of its file below the project directory.
pub open spec fn tab_form() -> Seq<char> {
    r#"<file[^>]*current-in-tab="([^"]*)"[^>]*>\s*<entry file="file://\$PROJECT_DIR\$([^"]+)""#@
}

/// The regular expression of a path below the project directory.
pub open spec fn path_form() -> Seq<char> {
    r#"file://\$PROJECT_DIR\$([^"]+)"#@
}

/// The regular expression of one editor tab.
pub fn tab_form_text() -> (r: &'static str)
    ensures
        r@ == tab_form(),
{
    r#"<file[^>]*current-in-tab="([^"]*)"[^>]*>\s*<entry file="file://\$PROJECT_DIR\$([^"]+)""#
}

/// The regular expression of a path below the project directory.
pub fn path_form_text() -> (r: &'static str)
    ensures
        r@ == path_form(),
{
    r#"file://\$PROJECT_DIR\$([^"]+)"#
}

/// The most files that the scan for paths takes from one file of state.
pub const SCAN_LIMIT: usize = 10;

/// The section of the editor tabs in a file of project state: from its
/// opening to the next closing of a component. `None` where either is
/// missing.
pub open spec fn editor_section(content: Seq<char>) -> Option<Seq<char>> {
    match find_text(content, tabs_opening()) {
        Some(start) => match find_text(content.skip(start), component_closing()) {
            Some(length) => Some(content.subrange(start, start + length)),
            None => None,
        },
        None => None,
    }
}

/// An open file at `relative` below the project directory, if it exists.
pub open spec fn state_file(
    project_path: Seq<char>,
    relative: Seq<char>,
    is_active: bool,
    evidence: Evidence,
) -> Option<FileInfoView> {
    if evidence.kind_at(project_path + relative) != PathKind::Missing {
        Some(
            FileInfoView {
                path: project_path + relative,
                name: base_name(relative),
                is_active,
                is_modified: false,
                tab_index: None,
                project_name: None,
            },
        )
    } else {
        None
    }
}

/// The file of one editor tab, from the groups of its match: the file at
/// the path, active where the tab is the current one, if it exists.
pub open spec fn tab_file(
    project_path: Seq<char>,
    groups: Seq<Option<Seq<char>>>,
    evidence: Evidence,
) -> Option<FileInfoView> {
    match (group_at(groups, 1), group_at(groups, 2)) {
        (Some(current), Some(relative)) => state_file(
            project_path,
            relative,
            current == "true"@,
            evidence,
        ),
        _ => None,
    }
}

/// The file of one path, from the groups of its match: the file at the
/// path, not active, if it exists.
pub open spec fn scanned_file(
    project_path: Seq<char>,
    groups: Seq<Option<Seq<char>>>,
    evidence: Evidence,
) -> Option<FileInfoView> {
    match group_at(groups, 1) {
        Some(relative) => state_file(project_path, relative, false, evidence),
        None => None,
    }
}

/// The files of the editor tabs `found`, in order.
pub open spec fn tab_files(
    project_path: Seq<char>,
    found: Seq<Seq<Option<Seq<char>>>>,
    evidence: Evidence,
) -> Seq<FileInfoView>
    decreases found.len(),
{
    if found.len() == 0 {
        Seq::empty()
    } else {
        match tab_file(project_path, found.last(), evidence) {
            Some(file) => tab_files(project_path, found.drop_last(), evidence).push(file),
            None => tab_files(project_path, found.drop_last(), evidence),
        }
    }
}

/// The files of the paths `found`, in order.
pub open spec fn scanned_files(
    project_path: Seq<char>,
    found: Seq<Seq<Option<Seq<char>>>>,
    evidence: Evidence,
) -> Seq<FileInfoView>
    decreases found.len(),
{
    if found.len() == 0 {
        Seq::empty()
    } else {
        match scanned_file(project_path, found.last(), evidence) {
            Some(file) => scanned_files(project_path, found.drop_last(), evidence).push(file),
            None => scanned_files(project_path, found.drop_last(), evidence),
        }
    }
}

/// The first `limit` of `files`; all of them where they are fewer.
pub open spec fn first_files(files: Seq<FileInfoView>, limit: int) -> Seq<FileInfoView> {
    if files.len() > limit {
        files.take(limit)
    } else {
        files
    }
}

/// What the scan for paths takes from a file of state: the first existing
/// files, up to the limit.
pub open spec fn scan_of(project_path: Seq<char>, content: Seq<char>, evidence: Evidence) -> Seq<
    FileInfoView,
> {
    first_files(
        scanned_files(project_path, regex_captures_all(path_form(), content), evidence),
        SCAN_LIMIT as int,
    )
}

/// The files after one file of project state was read, and whether the
/// reading ends with it. The files of its editor tabs are added to
/// `files`; where there are files then and the section of the tabs was
/// there, the reading ends. Where there is still no file, the scan for
/// paths gives the files.
pub open spec fn after_document(
    files: Seq<FileInfoView>,
    project_path: Seq<char>,
    content: Seq<char>,
    evidence: Evidence,
) -> (Seq<FileInfoView>, bool) {
    let with_tabs = match editor_section(content) {
        Some(section) => files + tab_files(
            project_path,
            regex_captures_all(tab_form(), section),
            evidence,
        ),
        None => files,
    };
    if with_tabs.len() > 0 {
        (with_tabs, editor_section(content) is Some)
    } else {
        (scan_of(project_path, content, evidence), false)
    }
}

/// The content of the file of state at `path`, if the file exists and
/// could be read.
pub open spec fn state_document(evidence: Evidence, path: Seq<char>) -> Option<Seq<char>> {
    if evidence.kind_at(path) != PathKind::Missing {
        evidence.content_at(path)
    } else {
        None
    }
}

/// The files after the file of state at `path` was read, if it could be.
pub open spec fn after_state_file(
    files: Seq<FileInfoView>,
    project_path: Seq<char>,
    path: Seq<char>,
    evidence: Evidence,
) -> (Seq<FileInfoView>, bool) {
    match state_document(evidence, path) {
        Some(content) => after_document(files, project_path, content, evidence),
        None => (files, false),
    }
}

/// The open files that the state of the project at `project_path` records:
/// none where the project has no metadata directory, and else what its two
/// files of state yield, the second being read unless the reading ended
/// with the first.
pub open spec fn recent_files(project_path: Seq<char>, evidence: Evidence) -> Seq<FileInfoView> {
    let idea = joined(project_path, ".idea"@);
    if evidence.kind_at(idea) == PathKind::Missing {
        Seq::empty()
    } else {
        let first = after_state_file(
            Seq::empty(),
            project_path,
            joined(idea, "workspace.xml"@),
            evidence,
        );
        if first.1 {
            first.0
        } else {
            after_state_file(
                first.0,
                project_path,
                joined(idea, "workspace_with_tabs.xml"@),
                evidence,
            ).0
        }
    }
}

/// The files of the paths `found[..n]` are the first of the files of all
/// the paths.
pub proof fn lemma_scanned_prefix(
    project_path: Seq<char>,
    found: Seq<Seq<Option<Seq<char>>>>,
    evidence: Evidence,
    n: int,
)
    requires
        0 <= n <= found.len(),
    ensures
        scanned_files(project_path, found.take(n), evidence).is_prefix_of(
            scanned_files(project_path, found, evidence),
        ),
    decreases found.len() - n,
{
    if n == found.len() {
        assert(found.take(n) == found);
    } else {
        assert(found.take(n + 1).drop_last() == found.take(n));
        lemma_scanned_prefix(project_path, found, evidence, n + 1);
    }
}

/// The section of the editor tabs in a file of project state.
pub fn editor_tabs_section(content: &Vec<char>) -> (r: Option<Vec<char>>)
    ensures
        match r {
            Some(section) => editor_section(content@) == Some(section@),
            None => editor_section(content@) is None,
        },
{
    let start = match find(content, &to_chars("<component name=\"FileEditorManager\">")) {
        Some(start) => start,
        None => {
            return None;
        },
    };
    let rest = subrange(content, start, content.len());
    assert(rest@ == content@.skip(start as int));
    match find(&rest, &to_chars("</component>")) {
        Some(length) => Some(subrange(content, start, start + length)),
        None => None,
    }
}

/// An open file at `relative` below the project directory, if it exists.
pub fn file_of_state(
    project_path: &Vec<char>,
    relative: &Vec<char>,
    is_active: bool,
    evidence: &Evidence,
) -> (r: Option<FileInfo>)
    ensures
        match r {
            Some(file) => state_file(project_path@, relative@, is_active, *evidence) == Some(
                file@,
            ),
            None => state_file(project_path@, relative@, is_active, *evidence) is None,
        },
{
    let path = from_chars(&concatenate(project_path, relative));
    if evidence.kind_of(path.as_str()) != PathKind::Missing {
        Some(
            FileInfo {
                path,
                name: from_chars(&basename(relative)),
                is_active,
                is_modified: false,
                tab_index: None,
                project_name: None,
            },
        )
    } else {
        None
    }
}

/// The file of one editor tab, from the groups of its match.
pub fn file_of_tab(
    project_path: &Vec<char>,
    groups: &Vec<Option<String>>,
    evidence: &Evidence,
) -> (r:
    Option<FileInfo>)
    ensures
        match r {
            Some(file) => tab_file(project_path@, groups_view(groups@), *evidence) == Some(file@),
            None => tab_file(project_path@, groups_view(groups@), *evidence) is None,
        },
{
    match (group(groups, 1), group(groups, 2)) {
        (Some(current), Some(relative)) => {
            let is_active = same(&to_chars(current.as_str()), &to_chars("true"));
            file_of_state(project_path, &to_chars(relative.as_str()), is_active, evidence)
        },
        _ => None,
    }
}

/// The file of one path, from the groups of its match.
pub fn file_of_scan(
    project_path: &Vec<char>,
    groups: &Vec<Option<String>>,
    evidence: &Evidence,
) -> (r:
    Option<FileInfo>)
    ensures
        match r {
            Some(file) => scanned_file(project_path@, groups_view(groups@), *evidence) == Some(
                file@,
            ),
            None => scanned_file(project_path@, groups_view(groups@), *evidence) is None,
        },
{
    match group(groups, 1) {
        Some(relative) => file_of_state(
            project_path,
            &to_chars(relative.as_str()),
            false,
            evidence,
        ),
        None => None,
    }
}

/// Adds the files of the editor tabs `found` to `files`.
pub fn add_tab_files(
    files: &mut Vec<FileInfo>,
    project_path: &Vec<char>,
    found: &Vec<Vec<Option<String>>>,
    evidence: &Evidence,
)
    ensures
        files_view(final(files)@) == files_view(old(files)@) + tab_files(
            project_path@,
            matches_view(found@),
            *evidence,
        ),
{
    let mut i: usize = 0;
    assert(matches_view(found@).take(0) == Seq::<Seq<Option<Seq<char>>>>::empty());
    assert(files_view(files@) == files_view(files@) + Seq::<FileInfoView>::empty());
    while i < found.len()
        invariant
            i <= found.len(),
            files_view(files@) == files_view(old(files)@) + tab_files(
                project_path@,
                matches_view(found@).take(i as int),
                *evidence,
            ),
        decreases found.len() - i,
    {
        assert(matches_view(found@).take(i + 1).drop_last() == matches_view(found@).take(
            i as int,
        ));
        assert(matches_view(found@)[i as int] == groups_view(found@[i as int]@));
        let ghost before = tab_files(project_path@, matches_view(found@).take(i as int), *evidence);
        match file_of_tab(project_path, &found[i], evidence) {
            Some(file) => {
                proof {
                    lemma_files_view_push(files@, file);
                    assert((files_view(old(files)@) + before).push(file@) == files_view(
                        old(files)@,
                    ) + before.push(file@));
                }
                files.push(file);
            },
            None => {},
        }
        i += 1;
    }
    assert(matches_view(found@).take(found.len() as int) == matches_view(found@));
}

/// The first existing files of the paths `found`, up to the limit.
pub fn scan_files(
    project_path: &Vec<char>,
    found: &Vec<Vec<Option<String>>>,
    evidence: &Evidence,
) -> (r:
    Vec<FileInfo>)
    ensures
        files_view(r@) == first_files(
            scanned_files(project_path@, matches_view(found@), *evidence),
            SCAN_LIMIT as int,
        ),
{
    let mut files: Vec<FileInfo> = Vec::new();
    let mut i: usize = 0;
    assert(matches_view(found@).take(0) == Seq::<Seq<Option<Seq<char>>>>::empty());
    assert(files_view(files@) == Seq::<FileInfoView>::empty());
    while i < found.len()
        invariant
            i <= found.len(),
            files@.len() < SCAN_LIMIT,
            files_view(files@) == scanned_files(
                project_path@,
                matches_view(found@).take(i as int),
                *evidence,
            ),
        decreases found.len() - i,
    {
        assert(matches_view(found@).take(i + 1).drop_last() == matches_view(found@).take(
            i as int,
        ));
        assert(matches_view(found@)[i as int] == groups_view(found@[i as int]@));
        match file_of_scan(project_path, &found[i], evidence) {
            Some(file) => {
                proof {
                    lemma_files_view_push(files@, file);
                }
                files.push(file);
                if files.len() >= SCAN_LIMIT {
                    proof {
                        lemma_scanned_prefix(
                            project_path@,
                            matches_view(found@),
                            *evidence,
                            i + 1,
                        );
                    }
                    return files;
                }
            },
            None => {},
        }
        i += 1;
    }
    assert(matches_view(found@).take(found.len() as int) == matches_view(found@));
    files
}

/// Reads one file of project state into `files`, and says whether the
/// reading ends with it.
pub fn read_state_document(
    files: &mut Vec<FileInfo>,
    project_path: &Vec<char>,
    content: &str,
    evidence: &Evidence,
) -> (stop: bool)
    ensures
        (files_view(final(files)@), stop) == after_document(
            files_view(old(files)@),
            project_path@,
            content@,
            *evidence,
        ),
{
    let chars = to_chars(content);
    let section = editor_tabs_section(&chars);
    match &section {
        Some(section) => {
            let found = captures_all(
                tab_form_text(),
                from_chars(section).as_str(),
            );
            add_tab_files(files, project_path, &found, evidence);
        },
        None => {},
    }
    if files.len() > 0 {
        section.is_some()
    } else {
        let found = captures_all(path_form_text(), content);
        let scanned = scan_files(project_path, &found, evidence);
        *files = scanned;
        false
    }
}

/// Reads the file of state at `path` into `files`, if it can be read, and
/// says whether the reading ends with it.
pub fn read_state_file(
    files: &mut Vec<FileInfo>,
    project_path: &Vec<char>,
    path: &Vec<char>,
    evidence: &Evidence,
) -> (stop: bool)
    ensures
        (files_view(final(files)@), stop) == after_state_file(
            files_view(old(files)@),
            project_path@,
            path@,
            *evidence,
        ),
{
    let path = from_chars(path);
    if evidence.kind_of(path.as_str()) == PathKind::Missing {
        return false;
    }
    match evidence.document(path.as_str()) {
        Some(content) => read_state_document(files, project_path, content.as_str(), evidence),
        None => false,
    }
}

/// The state of a project records no file where neither of its files of
/// state could be read.
pub proof fn lemma_unread_state_records_nothing(project_path: Seq<char>, evidence: Evidence)
    requires
        evidence.content_at(joined(joined(project_path, ".idea"@), "workspace.xml"@)) is None,
        evidence.content_at(joined(joined(project_path, ".idea"@), "workspace_with_tabs.xml"@))
            is None,
    ensures
        recent_files(project_path, evidence).len() == 0,
{
}

/// The open files that the state of the project at `project_path`
/// records.
pub fn read_recent_files(project_path: &str, evidence: &Evidence) -> (r: Vec<
    FileInfo,
>)
    ensures
        files_view(r@) == recent_files(project_path@, *evidence),
{
    let mut files: Vec<FileInfo> = Vec::new();
    assert(files_view(files@) == Seq::<FileInfoView>::empty());
    let project = to_chars(project_path);
    let idea = join_path(&project, &to_chars(".idea"));
    if evidence.kind_of(from_chars(&idea).as_str()) == PathKind::Missing {
        return files;
    }
    let first = join_path(&idea, &to_chars("workspace.xml"));
    if read_state_file(&mut files, &project, &first, evidence) {
        return files;
    }
    let second = join_path(&idea, &to_chars("workspace_with_tabs.xml"));
    read_state_file(&mut files, &project, &second, evidence);
    files
}

/// The paths below the project directory that group `index` of the
/// matches `found` gives, in order.
pub open spec fn mentioned_paths(
    project_path: Seq<char>,
    found: Seq<Seq<Option<Seq<char>>>>,
    index: int,
) -> Seq<Seq<char>>
    decreases found.len(),
{
    if found.len() == 0 {
        Seq::empty()
    } else {
        match group_at(found.last(), index) {
            Some(relative) => mentioned_paths(project_path, found.drop_last(), index).push(
                project_path + relative,
            ),
            None => mentioned_paths(project_path, found.drop_last(), index),
        }
    }
}

/// The paths that reading a file of project state may examine: those of
/// its editor tabs, then those that the scan for paths finds.
pub open spec fn document_candidates(project_path: Seq<char>, content: Seq<char>) -> Seq<
    Seq<char>,
> {
    (match editor_section(content) {
        Some(section) => mentioned_paths(
            project_path,
            regex_captures_all(tab_form(), section),
            2,
        ),
        None => Seq::empty(),
    }) + mentioned_paths(project_path, regex_captures_all(path_form(), content), 1)
}

/// The paths that reading the file of state at `path` may examine.
pub open spec fn file_candidates(
    project_path: Seq<char>,
    path: Seq<char>,
    evidence: Evidence,
) -> Seq<
    Seq<char>,
> {
    match state_document(evidence, path) {
        Some(content) => document_candidates(project_path, content),
        None => Seq::empty(),
    }
}

/// The paths that reading the state of the project at `project_path` may
/// examine, so that they can be examined beforehand.
pub open spec fn state_candidates(project_path: Seq<char>, evidence: Evidence) -> Seq<Seq<char>> {
    let idea = joined(project_path, ".idea"@);
    file_candidates(project_path, joined(idea, "workspace.xml"@), evidence) + file_candidates(
        project_path,
        joined(idea, "workspace_with_tabs.xml"@),
        evidence,
    )
}

/// Adds to `paths` the paths that group `index` of the matches `found`
/// gives.
pub fn add_mentioned_paths(
    paths: &mut Vec<String>,
    project_path: &Vec<char>,
    found: &Vec<Vec<Option<String>>>,
    index: usize,
)
    ensures
        texts(final(paths)@) == texts(old(paths)@) + mentioned_paths(
            project_path@,
            matches_view(found@),
            index as int,
        ),
{
    let mut i: usize = 0;
    assert(matches_view(found@).take(0) == Seq::<Seq<Option<Seq<char>>>>::empty());
    assert(texts(paths@) == texts(paths@) + Seq::<Seq<char>>::empty());
    while i < found.len()
        invariant
            i <= found.len(),
            texts(paths@) == texts(old(paths)@) + mentioned_paths(
                project_path@,
                matches_view(found@).take(i as int),
                index as int,
            ),
        decreases found.len() - i,
    {
        assert(matches_view(found@).take(i + 1).drop_last() == matches_view(found@).take(
            i as int,
        ));
        assert(matches_view(found@)[i as int] == groups_view(found@[i as int]@));
        let ghost before = mentioned_paths(
            project_path@,
            matches_view(found@).take(i as int),
            index as int,
        );
        match group(&found[i], index) {
            Some(relative) => {
                let path = from_chars(&concatenate(project_path, &to_chars(relative.as_str())));
                assert(texts(paths@.push(path)) == texts(paths@).push(path@));
                assert((texts(old(paths)@) + before).push(path@) == texts(old(paths)@)
                    + before.push(path@));
                paths.push(path);
            },
            None => {},
        }
        i += 1;
    }
    assert(matches_view(found@).take(found.len() as int) == matches_view(found@));
}

/// Adds to `paths` the paths that reading the file of state at `path` may
/// examine.
pub fn add_file_candidates(
    paths: &mut Vec<String>,
    project_path: &Vec<char>,
    path: &Vec<char>,
    evidence: &Evidence,
)
    ensures
        texts(final(paths)@) == texts(old(paths)@) + file_candidates(
            project_path@,
            path@,
            *evidence,
        ),
{
    let path = from_chars(path);
    assert(texts(paths@) == texts(paths@) + Seq::<Seq<char>>::empty());
    if evidence.kind_of(path.as_str()) == PathKind::Missing {
        return ;
    }
    let content = match evidence.document(path.as_str()) {
        Some(content) => content,
        None => {
            return ;
        },
    };
    let ghost start = texts(paths@);
    let ghost tabs = match editor_section(content@) {
        Some(section) => mentioned_paths(
            project_path@,
            regex_captures_all(tab_form(), section),
            2,
        ),
        None => Seq::empty(),
    };
    match editor_tabs_section(&to_chars(content.as_str())) {
        Some(section) => {
            let found = captures_all(
                tab_form_text(),
                from_chars(&section).as_str(),
            );
            add_mentioned_paths(paths, project_path, &found, 2);
        },
        None => {},
    }
    assert(texts(paths@) == start + tabs);
    let found = captures_all(path_form_text(), content.as_str());
    add_mentioned_paths(paths, project_path, &found, 1);
    assert((start + tabs) + mentioned_paths(
        project_path@,
        regex_captures_all(path_form(), content@),
        1,
    ) == start + (tabs + mentioned_paths(
        project_path@,
        regex_captures_all(path_form(), content@),
        1,
    )));
}

/// The paths that reading the state of the project at `project_path` may
/// examine.
pub fn paths_to_examine(project_path: &str, evidence: &Evidence) -> (r: Vec<String>)
    ensures
        texts(r@) == state_candidates(project_path@, *evidence),
{
    let mut paths: Vec<String> = Vec::new();
    assert(texts(paths@) == Seq::<Seq<char>>::empty());
    let project = to_chars(project_path);
    let idea = join_path(&project, &to_chars(".idea"));
    add_file_candidates(
        &mut paths,
        &project,
        &join_path(&idea, &to_chars("workspace.xml")),
        evidence,
    );
    let ghost first = texts(paths@);
    add_file_candidates(
        &mut paths,
        &project,
        &join_path(&idea, &to_chars("workspace_with_tabs.xml")),
        evidence,
    );
    assert(first == Seq::<Seq<char>>::empty() + first);
    paths
}

/// The files of state of the project at `project_path`, in the order in
/// which they are read.
pub open spec fn state_files_of(project_path: Seq<char>) -> Seq<Seq<char>> {
    seq![
        joined(joined(project_path, ".idea"@), "workspace.xml"@),
        joined(joined(project_path, ".idea"@), "workspace_with_tabs.xml"@),
    ]
}

/// The files of state of the project at `project_path`.
pub fn files_to_read(project_path: &str) -> (r: Vec<String>)
    ensures
        texts(r@) == state_files_of(project_path@),
{
    let idea = join_path(&to_chars(project_path), &to_chars(".idea"));
    let mut r: Vec<String> = Vec::new();
    r.push(from_chars(&join_path(&idea, &to_chars("workspace.xml"))));
    r.push(from_chars(&join_path(&idea, &to_chars("workspace_with_tabs.xml"))));
    assert(texts(r@) =~= state_files_of(project_path@));
    r
}

/// Every file that the tabs give exists.
pub proof fn lemma_tab_files_exist(
    project_path: Seq<char>,
    found: Seq<Seq<Option<Seq<char>>>>,
    evidence: Evidence,
)
    ensures
        forall|k: int|
            0 <= k < tab_files(project_path, found, evidence).len() ==> evidence.kind_at(
                (#[trigger] tab_files(project_path, found, evidence)[k]).path,
            ) != PathKind::Missing,
    decreases found.len(),
{
    if found.len() > 0 {
        lemma_tab_files_exist(project_path, found.drop_last(), evidence);
    }
}

/// Every file that the scan for paths gives exists.
pub proof fn lemma_scanned_files_exist(
    project_path: Seq<char>,
    found: Seq<Seq<Option<Seq<char>>>>,
    evidence: Evidence,
)
    ensures
        forall|k: int|
            0 <= k < scanned_files(project_path, found, evidence).len() ==> evidence.kind_at(
                (#[trigger] scanned_files(project_path, found, evidence)[k]).path,
            ) != PathKind::Missing,
    decreases found.len(),
{
    if found.len() > 0 {
        lemma_scanned_files_exist(project_path, found.drop_last(), evidence);
    }
}

/// Reading a file of state adds only files that exist, and the scan for
/// paths gives no more files than its limit.
pub proof fn lemma_after_document(
    files: Seq<FileInfoView>,
    project_path: Seq<char>,
    content: Seq<char>,
    evidence: Evidence,
)
    requires
        forall|k: int|
            0 <= k < files.len() ==> evidence.kind_at((#[trigger] files[k]).path)
                != PathKind::Missing,
    ensures
        forall|k: int|
            0 <= k < after_document(files, project_path, content, evidence).0.len()
                ==> evidence.kind_at(
                (#[trigger] after_document(files, project_path, content, evidence).0[k]).path,
            ) != PathKind::Missing,
        scan_of(project_path, content, evidence).len() <= SCAN_LIMIT,
{
    match editor_section(content) {
        Some(section) => {
            lemma_tab_files_exist(project_path, regex_captures_all(tab_form(), section), evidence);
        },
        None => {},
    }
    lemma_scanned_files_exist(project_path, regex_captures_all(path_form(), content), evidence);
}

/// No file is recorded that does not exist: every file that the state of a
/// project records was observed to be there.
pub proof fn lemma_recorded_files_exist(project_path: Seq<char>, evidence: Evidence)
    ensures
        forall|k: int|
            0 <= k < recent_files(project_path, evidence).len() ==> evidence.kind_at(
                (#[trigger] recent_files(project_path, evidence)[k]).path,
            ) != PathKind::Missing,
{
    let idea = joined(project_path, ".idea"@);
    let first_path = joined(idea, "workspace.xml"@);
    let second_path = joined(idea, "workspace_with_tabs.xml"@);
    let first = after_state_file(Seq::empty(), project_path, first_path, evidence);
    match state_document(evidence, first_path) {
        Some(content) => {
            lemma_after_document(Seq::empty(), project_path, content, evidence);
        },
        None => {},
    }
    match state_document(evidence, second_path) {
        Some(content) => {
            lemma_after_document(first.0, project_path, content, evidence);
        },
        None => {},
    }
}

} // verus!
