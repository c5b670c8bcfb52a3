//! The editor layout record of a session of Visual Studio Code: a grid of
//! groups, each with its editors and the order in which they were used
//! last, read for the files that the editors show.

use crate::json::{json_parsed, parse_json, Json, JsonView};
use crate::resolution::{append_files, lemma_files_view_push};
use crate::text::texts;
use crate::types::{file_at, files_view, open_file, FileInfo, FileInfoView};
use vstd::prelude::*;

verus! {

/// The file that one editor of a group shows: the path that the resource
/// of its descriptor gives, the descriptor being the JSON text under
/// `value`.
pub open spec fn editor_file(editor: JsonView, is_active: bool) -> Option<FileInfoView> {
    match editor.member("value"@) {
        Some(JsonView::Text(descriptor)) => match json_parsed(descriptor) {
            Some(described) => match described.member("resourceJSON"@) {
                Some(resource) => match resource.member("fsPath"@) {
                    Some(JsonView::Text(path)) => Some(file_at(path, is_active)),
                    _ => None,
                },
                None => None,
            },
            None => None,
        },
        _ => None,
    }
}

/// The file that the editor with the JSON text `editor` shows.
pub open spec fn editor_text_file(editor: Seq<char>, is_active: bool) -> Option<FileInfoView> {
    match json_parsed(editor) {
        Some(editor) => editor_file(editor, is_active),
        None => None,
    }
}

/// The files that the editors of a group show, in order. The editor at
/// position `active` is the active one.
pub open spec fn editor_files(editors: Seq<Seq<char>>, active: u64) -> Seq<FileInfoView>
    decreases editors.len(),
{
    if editors.len() == 0 {
        Seq::empty()
    } else {
        match editor_text_file(editors.last(), editors.len() - 1 == active) {
            Some(file) => editor_files(editors.drop_last(), active).push(file),
            None => editor_files(editors.drop_last(), active),
        }
    }
}

/// The position of the active editor of a group: the first entry of the
/// order of most recent use, and 0 where that is no position.
pub open spec fn active_position(order: Seq<Seq<char>>) -> u64 {
    if order.len() > 0 {
        match json_parsed(order[0]) {
            Some(JsonView::Number(Some(position))) => position,
            _ => 0,
        }
    } else {
        0
    }
}

/// The files of one group, from its editors and its order of most recent
/// use; none unless both are arrays.
pub open spec fn group_files(editors: JsonView, order: JsonView) -> Seq<FileInfoView> {
    match (editors.items(), order.items()) {
        (Some(editors), Some(order)) => editor_files(editors, active_position(order)),
        _ => Seq::empty(),
    }
}

/// The files of one entry of the grid, if it is a group with editors and an
/// order of most recent use.
pub open spec fn grid_entry_files(entry: JsonView) -> Seq<FileInfoView> {
    match entry.member("data"@) {
        Some(data) => match (data.member("editors"@), data.member("mru"@)) {
            (Some(editors), Some(order)) => group_files(editors, order),
            _ => Seq::empty(),
        },
        None => Seq::empty(),
    }
}

/// The files of the entry of the grid with the JSON text `entry`.
pub open spec fn grid_text_files(entry: Seq<char>) -> Seq<FileInfoView> {
    match json_parsed(entry) {
        Some(entry) => grid_entry_files(entry),
        None => Seq::empty(),
    }
}

/// The files of the entries of the grid, in order.
pub open spec fn grid_files(entries: Seq<Seq<char>>) -> Seq<FileInfoView>
    decreases entries.len(),
{
    if entries.len() == 0 {
        Seq::empty()
    } else {
        grid_files(entries.drop_last()) + grid_text_files(entries.last())
    }
}

/// The entries of the grid in an editor layout record, each as its JSON
/// text.
pub open spec fn grid_entries(state: JsonView) -> Option<Seq<Seq<char>>> {
    match state.member("editorpart.state"@) {
        Some(part) => match part.member("serializedGrid"@) {
            Some(grid) => match grid.member("root"@) {
                Some(root) => match root.member("data"@) {
                    Some(data) => data.items(),
                    None => None,
                },
                None => None,
            },
            None => None,
        },
        None => None,
    }
}

/// The open files that an editor layout record lists; none where the
/// record has no grid.
pub open spec fn state_files(state: JsonView) -> Seq<FileInfoView> {
    match grid_entries(state) {
        Some(entries) => grid_files(entries),
        None => Seq::empty(),
    }
}

/// The file that one editor of a group shows.
pub fn parse_editor(editor: &Json, is_active: bool) -> (r: Option<FileInfo>)
    ensures
        match r {
            Some(file) => editor_file(editor@, is_active) == Some(file@),
            None => editor_file(editor@, is_active) is None,
        },
{
    let value = match editor.get("value") {
        Some(value) => value,
        None => {
            return None;
        },
    };
    let descriptor = match value.as_str() {
        Some(text) => text,
        None => {
            return None;
        },
    };
    let described = match parse_json(descriptor.as_str()) {
        Some(described) => described,
        None => {
            return None;
        },
    };
    match described.get("resourceJSON") {
        Some(resource) => match resource.get("fsPath") {
            Some(path) => match path.as_str() {
                Some(path) => Some(open_file(path.as_str(), is_active)),
                None => None,
            },
            None => None,
        },
        None => None,
    }
}

/// The files of one group, from its editors and its order of most recent
/// use.
pub fn parse_editor_group(editors: &Json, mru: &Json) -> (r: Vec<FileInfo>)
    ensures
        files_view(r@) == group_files(editors@, mru@),
{
    let mut files: Vec<FileInfo> = Vec::new();
    assert(files_view(files@) == Seq::<FileInfoView>::empty());
    let (editors, order) = match (editors.as_array(), mru.as_array()) {
        (Some(editors), Some(order)) => (editors, order),
        _ => {
            return files;
        },
    };
    let ghost views = texts(editors@);
    let active: u64 = if order.len() > 0 {
        assert(texts(order@)[0] == order@[0]@);
        match parse_json(order[0].as_str()) {
            Some(first) => match first.as_u64() {
                Some(position) => position,
                None => 0,
            },
            None => 0,
        }
    } else {
        0
    };
    assert(active == active_position(texts(order@)));
    let mut i: usize = 0;
    assert(views.take(0) == Seq::<Seq<char>>::empty());
    while i < editors.len()
        invariant
            i <= editors.len(),
            views == texts(editors@),
            files_view(files@) == editor_files(views.take(i as int), active),
        decreases editors.len() - i,
    {
        assert(views.take(i + 1).drop_last() == views.take(i as int));
        assert(views[i as int] == editors@[i as int]@);
        let file = match parse_json(editors[i].as_str()) {
            Some(editor) => parse_editor(&editor, i as u64 == active),
            None => None,
        };
        match file {
            Some(file) => {
                proof {
                    lemma_files_view_push(files@, file);
                }
                files.push(file);
            },
            None => {},
        }
        i += 1;
    }
    assert(views.take(editors.len() as int) == views);
    files
}

/// The files of one entry of the grid.
pub fn parse_grid_entry(entry: &Json) -> (r: Vec<FileInfo>)
    ensures
        files_view(r@) == grid_entry_files(entry@),
{
    match entry.get("data") {
        Some(data) => match (data.get("editors"), data.get("mru")) {
            (Some(editors), Some(order)) => parse_editor_group(&editors, &order),
            _ => {
                let files: Vec<FileInfo> = Vec::new();
                assert(files_view(files@) == Seq::<FileInfoView>::empty());
                files
            },
        },
        None => {
            let files: Vec<FileInfo> = Vec::new();
            assert(files_view(files@) == Seq::<FileInfoView>::empty());
            files
        },
    }
}

/// The entries of the grid in an editor layout record.
pub fn grid_of(editor_state: &Json) -> (r: Option<Vec<String>>)
    ensures
        match r {
            Some(entries) => grid_entries(editor_state@) == Some(texts(entries@)),
            None => grid_entries(editor_state@) is None,
        },
{
    let part = match editor_state.get("editorpart.state") {
        Some(part) => part,
        None => {
            return None;
        },
    };
    let grid = match part.get("serializedGrid") {
        Some(grid) => grid,
        None => {
            return None;
        },
    };
    let root = match grid.get("root") {
        Some(root) => root,
        None => {
            return None;
        },
    };
    match root.get("data") {
        Some(data) => match data {
            Json::Array(entries) => Some(entries),
            _ => None,
        },
        None => None,
    }
}

/// The open files that an editor layout record lists.
pub fn parse_editor_state(editor_state: &Json) -> (r: Vec<FileInfo>)
    ensures
        files_view(r@) == state_files(editor_state@),
{
    let mut files: Vec<FileInfo> = Vec::new();
    assert(files_view(files@) == Seq::<FileInfoView>::empty());
    let entries = match grid_of(editor_state) {
        Some(entries) => entries,
        None => {
            return files;
        },
    };
    let ghost views = texts(entries@);
    let mut i: usize = 0;
    assert(views.take(0) == Seq::<Seq<char>>::empty());
    while i < entries.len()
        invariant
            i <= entries.len(),
            views == texts(entries@),
            files_view(files@) == grid_files(views.take(i as int)),
        decreases entries.len() - i,
    {
        assert(views.take(i + 1).drop_last() == views.take(i as int));
        assert(views[i as int] == entries@[i as int]@);
        match parse_json(entries[i].as_str()) {
            Some(entry) => {
                append_files(&mut files, parse_grid_entry(&entry));
            },
            None => {
                assert(files_view(files@) + Seq::<FileInfoView>::empty() == files_view(files@));
            },
        }
        i += 1;
    }
    assert(views.take(entries.len() as int) == views);
    files
}

} // verus!
