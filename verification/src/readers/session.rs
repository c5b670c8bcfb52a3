//! The session state that Visual Studio Code keeps: for each workspace a
//! directory of the workspace storage with the address of the workspace and
//! a database, whose editor layout record lists the open editors.

use crate::evidence::{DirEntry, Evidence, PathKind};
use crate::json::{json_parsed, parse_json, JsonView};
use crate::readers::directory_scan::{get_vscode_files_heuristic, heuristic_files};
use crate::readers::editor_layout::{parse_editor_state, state_files};
use crate::text::{
    base_name, basename, concatenate, contains, contains_text, from_chars, join_path, joined,
    strip_prefix, texts, to_chars, without_prefix,
};
use crate::types::{files_view, opt_text, FileInfo, FileInfoView};
use vstd::prelude::*;

verus! {

/// The open files that the session database at `db_path` lists: `None`
/// where it gave no editor layout record or the record is no JSON.
pub open spec fn database_files(evidence: Evidence, db_path: Seq<char>) -> Option<
    Seq<FileInfoView>,
> {
    match evidence.record_at(db_path) {
        Some(value) => match json_parsed(value) {
            Some(state) => Some(state_files(state)),
            None => None,
        },
        None => None,
    }
}

/// The open files that the session database at `db_path` lists.
pub fn parse_vscode_database(evidence: &Evidence, db_path: &str) -> (r: Option<Vec<FileInfo>>)
    ensures
        match r {
            Some(files) => database_files(*evidence, db_path@) == Some(files_view(files@)),
            None => database_files(*evidence, db_path@) is None,
        },
{
    match evidence.record(db_path) {
        Some(value) => match parse_json(value.as_str()) {
            Some(state) => Some(parse_editor_state(&state)),
            None => None,
        },
        None => None,
    }
}

/// The directory of the workspace that the file at `json_path` names under
/// `folder`, without `file://` before it.
pub open spec fn workspace_of_json(evidence: Evidence, json_path: Seq<char>) -> Option<Seq<char>> {
    match evidence.content_at(json_path) {
        Some(content) => match json_parsed(content) {
            Some(described) => match described.member("folder"@) {
                Some(JsonView::Text(folder)) => Some(without_prefix(folder, "file://"@)),
                _ => None,
            },
            None => None,
        },
        None => None,
    }
}

/// The directory of the workspace that the file at `json_path` names.
pub fn extract_workspace_from_json(evidence: &Evidence, json_path: &str) -> (r: Option<String>)
    ensures
        opt_text(r) == workspace_of_json(*evidence, json_path@),
{
    let content = match evidence.document(json_path) {
        Some(content) => content,
        None => {
            return None;
        },
    };
    let described = match parse_json(content.as_str()) {
        Some(described) => described,
        None => {
            return None;
        },
    };
    match described.get("folder") {
        Some(folder) => match folder.as_str() {
            Some(folder) => Some(
                from_chars(&strip_prefix(&to_chars(folder.as_str()), &to_chars("file://"))),
            ),
            None => None,
        },
        None => None,
    }
}

/// The directory in which the editor keeps the state of its workspaces.
pub open spec fn storage_dir(home: Seq<char>) -> Seq<char> {
    home + "/.config/Code/User/workspaceStorage"@
}

/// Whether the entry is the storage of the workspace with the address
/// `uri`: a directory whose `workspace.json` exists, could be read and
/// holds the address.
pub open spec fn stores_workspace(evidence: Evidence, entry: DirEntry, uri: Seq<char>) -> bool {
    &&& entry.kind == PathKind::Dir
    &&& evidence.kind_at(joined(entry.path@, "workspace.json"@)) != PathKind::Missing
    &&& match evidence.content_at(joined(entry.path@, "workspace.json"@)) {
        Some(content) => contains_text(content, uri),
        None => false,
    }
}

/// The name of the first entry at or after `from` that is the storage of
/// the workspace with the address `uri`.
pub open spec fn workspace_id_from(
    evidence: Evidence,
    entries: Seq<Option<DirEntry>>,
    uri: Seq<char>,
    from: int,
) -> Option<Seq<char>>
    decreases entries.len() - from,
{
    if from < 0 || from >= entries.len() {
        None
    } else {
        match entries[from] {
            Some(entry) => if stores_workspace(evidence, entry, uri) {
                Some(base_name(entry.path@))
            } else {
                workspace_id_from(evidence, entries, uri, from + 1)
            },
            None => workspace_id_from(evidence, entries, uri, from + 1),
        }
    }
}

/// The name under which the storage at `storage` keeps the workspace at
/// `workspace_path`.
pub open spec fn workspace_id(
    evidence: Evidence,
    workspace_path: Seq<char>,
    storage: Seq<char>,
) -> Option<
    Seq<char>,
> {
    match evidence.entries_at(storage) {
        Some(entries) => workspace_id_from(evidence, entries, "file://"@ + workspace_path, 0),
        None => None,
    }
}

/// The name under which the storage at `storage_dir` keeps the workspace
/// at `workspace_path`.
pub fn get_workspace_id(evidence: &Evidence, workspace_path: &str, storage_dir: &str) -> (r: Option<
    String,
>)
    ensures
        opt_text(r) == workspace_id(*evidence, workspace_path@, storage_dir@),
{
    let uri = concatenate(&to_chars("file://"), &to_chars(workspace_path));
    let entries = match evidence.listing(storage_dir) {
        Some(entries) => entries,
        None => {
            return None;
        },
    };
    let mut i: usize = 0;
    while i < entries.len()
        invariant
            i <= entries.len(),
            uri@ == "file://"@ + workspace_path@,
            evidence.entries_at(storage_dir@) == Some(entries@),
            workspace_id_from(*evidence, entries@, uri@, 0) == workspace_id_from(
                *evidence,
                entries@,
                uri@,
                i as int,
            ),
        decreases entries.len() - i,
    {
        match &entries[i] {
            Some(entry) => {
                let dir = to_chars(entry.path.as_str());
                let json = from_chars(&join_path(&dir, &to_chars("workspace.json")));
                if entry.kind == PathKind::Dir && evidence.kind_of(json.as_str())
                    != PathKind::Missing {
                    match evidence.document(json.as_str()) {
                        Some(content) => {
                            if contains(&to_chars(content.as_str()), &uri) {
                                return Some(from_chars(&basename(&dir)));
                            }
                        },
                        None => {},
                    }
                }
            },
            None => {},
        }
        i += 1;
    }
    None
}

/// The directories among `entries`, in order.
pub open spec fn directories(entries: Seq<Option<DirEntry>>) -> Seq<DirEntry>
    decreases entries.len(),
{
    if entries.len() == 0 {
        Seq::empty()
    } else {
        match entries.last() {
            Some(entry) => if entry.kind == PathKind::Dir {
                directories(entries.drop_last()).push(entry)
            } else {
                directories(entries.drop_last())
            },
            None => directories(entries.drop_last()),
        }
    }
}

/// The position of the entry that was modified last; of several such, the
/// first.
pub open spec fn newest(entries: Seq<DirEntry>) -> Option<int>
    decreases entries.len(),
{
    if entries.len() == 0 {
        None
    } else {
        match newest(entries.drop_last()) {
            Some(best) => if entries.last().modified > entries[best].modified {
                Some(entries.len() - 1)
            } else {
                Some(best)
            },
            None => Some(entries.len() - 1),
        }
    }
}

/// The position that `newest` gives is in range; no entry was modified
/// later, and none before it as late.
pub proof fn lemma_newest(entries: Seq<DirEntry>)
    ensures
        match newest(entries) {
            Some(best) => 0 <= best < entries.len() && (forall|k: int|
                0 <= k < entries.len() ==> entries[k].modified <= entries[best].modified)
                && forall|k: int| 0 <= k < best ==> entries[k].modified < entries[best].modified,
            None => entries.len() == 0,
        },
    decreases entries.len(),
{
    if entries.len() > 0 {
        lemma_newest(entries.drop_last());
        match newest(entries.drop_last()) {
            Some(best) => {
                assert forall|k: int| 0 <= k < entries.len() - 1 implies entries[k].modified
                    <= entries[best].modified by {
                    assert(entries.drop_last()[k] == entries[k]);
                }
                assert forall|k: int| 0 <= k < best implies entries[k].modified
                    < entries[best].modified by {
                    assert(entries.drop_last()[k] == entries[k]);
                }
            },
            None => {},
        }
    }
}

/// The two entries that were modified last, the later one first; of
/// entries modified at the same time, the one listed first comes first.
pub open spec fn two_newest(entries: Seq<DirEntry>) -> Seq<DirEntry> {
    match newest(entries) {
        Some(first) => match newest(entries.remove(first)) {
            Some(second) => seq![entries[first], entries.remove(first)[second]],
            None => seq![entries[first]],
        },
        None => Seq::empty(),
    }
}

/// The session of the first of `candidates`, at or after `from`, whose
/// database exists and lists at least one file: those files, and the
/// directory of the workspace that the candidate names.
pub open spec fn session_among(evidence: Evidence, candidates: Seq<DirEntry>, from: int) -> Option<
    (Seq<FileInfoView>, Option<Seq<char>>),
>
    decreases candidates.len() - from,
{
    if from < 0 || from >= candidates.len() {
        None
    } else {
        let dir = candidates[from].path@;
        let files = if evidence.kind_at(joined(dir, "state.vscdb"@)) != PathKind::Missing {
            database_files(evidence, joined(dir, "state.vscdb"@))
        } else {
            None
        };
        match files {
            Some(files) => if files.len() > 0 {
                Some((files, workspace_of_json(evidence, joined(dir, "workspace.json"@))))
            } else {
                session_among(evidence, candidates, from + 1)
            },
            None => session_among(evidence, candidates, from + 1),
        }
    }
}

/// The session that the scan of the storage finds: that of the two
/// directories modified last, the later one first.
pub open spec fn scanned_session(evidence: Evidence, storage: Seq<char>) -> Option<
    (Seq<FileInfoView>, Option<Seq<char>>),
> {
    match evidence.entries_at(storage) {
        Some(entries) => session_among(evidence, two_newest(directories(entries)), 0),
        None => None,
    }
}

/// The session of the workspace at `workspace_path`. Where the storage
/// keeps the workspace under a name and the database under that name
/// exists, it is the session of that database, and none if the database
/// cannot be read. Else it is what the scan of the storage finds. There is
/// none where the home directory is not known.
pub open spec fn session_files(evidence: Evidence, workspace_path: Seq<char>) -> Option<
    (Seq<FileInfoView>, Option<Seq<char>>),
> {
    match evidence.home {
        Some(home) => {
            let storage = storage_dir(home@);
            match workspace_id(evidence, workspace_path, storage) {
                Some(id) => if evidence.kind_at(storage + seq!['/'] + id + "/state.vscdb"@)
                    != PathKind::Missing {
                    match database_files(evidence, storage + seq!['/'] + id + "/state.vscdb"@) {
                        Some(files) => Some(
                            (
                                files,
                                workspace_of_json(
                                    evidence,
                                    storage + seq!['/'] + id + "/workspace.json"@,
                                ),
                            ),
                        ),
                        None => None,
                    }
                } else {
                    scanned_session(evidence, storage)
                },
                None => scanned_session(evidence, storage),
            }
        },
        None => None,
    }
}

/// The directories among `entries`, in order.
pub fn directories_of(entries: &Vec<Option<DirEntry>>) -> (r: Vec<DirEntry>)
    ensures
        r@ == directories(entries@),
{
    let mut r: Vec<DirEntry> = Vec::new();
    let mut i: usize = 0;
    assert(entries@.take(0) == Seq::<Option<DirEntry>>::empty());
    while i < entries.len()
        invariant
            i <= entries.len(),
            r@ == directories(entries@.take(i as int)),
        decreases entries.len() - i,
    {
        assert(entries@.take(i + 1).drop_last() == entries@.take(i as int));
        match &entries[i] {
            Some(entry) => {
                if entry.kind == PathKind::Dir {
                    r.push(entry.clone());
                }
            },
            None => {},
        }
        i += 1;
    }
    assert(entries@.take(entries.len() as int) == entries@);
    r
}

/// The position of the entry that was modified last.
pub fn newest_of(entries: &Vec<DirEntry>) -> (r: Option<usize>)
    ensures
        match r {
            Some(best) => {
                &&& newest(entries@) == Some(best as int)
                &&& best < entries.len()
                &&& forall|k: int|
                    0 <= k < entries.len() ==> entries@[k].modified <= entries@[best as int]
                        .modified
                &&& forall|k: int|
                    0 <= k < best ==> entries@[k].modified < entries@[best as int].modified
            },
            None => newest(entries@) is None && entries.len() == 0,
        },
{
    proof {
        lemma_newest(entries@);
    }
    if entries.len() == 0 {
        return None;
    }
    let mut best: usize = 0;
    let mut i: usize = 1;
    assert(entries@.take(1).drop_last() == Seq::<DirEntry>::empty());
    assert(newest(Seq::<DirEntry>::empty()) is None);
    while i < entries.len()
        invariant
            1 <= i <= entries.len(),
            best < i,
            newest(entries@.take(i as int)) == Some(best as int),
        decreases entries.len() - i,
    {
        assert(entries@.take(i + 1).drop_last() == entries@.take(i as int));
        if entries[i].modified > entries[best].modified {
            best = i;
        }
        i += 1;
    }
    assert(entries@.take(entries.len() as int) == entries@);
    Some(best)
}

/// The two entries that were modified last, the later one first.
pub fn two_newest_of(entries: &Vec<DirEntry>) -> (r: Vec<DirEntry>)
    ensures
        r@ == two_newest(entries@),
{
    let mut r: Vec<DirEntry> = Vec::new();
    let first = match newest_of(entries) {
        Some(first) => first,
        None => {
            return r;
        },
    };
    r.push(entries[first].clone());
    let mut rest: Vec<DirEntry> = Vec::new();
    let mut i: usize = 0;
    while i < entries.len()
        invariant
            i <= entries.len(),
            first < entries.len(),
            rest@ == if i <= first {
                entries@.take(i as int)
            } else {
                entries@.take(first as int) + entries@.subrange(first + 1, i as int)
            },
        decreases entries.len() - i,
    {
        if i != first {
            rest.push(entries[i].clone());
        }
        i += 1;
    }
    assert(rest@ == entries@.remove(first as int));
    match newest_of(&rest) {
        Some(second) => {
            r.push(rest[second].clone());
        },
        None => {},
    }
    r
}

/// The session of the first of `candidates` whose database exists and
/// lists at least one file.
pub fn first_session(evidence: &Evidence, candidates: &Vec<DirEntry>) -> (r: Option<
    (Vec<FileInfo>, Option<String>),
>)
    ensures
        match r {
            Some((files, workspace)) => session_among(*evidence, candidates@, 0) == Some(
                (files_view(files@), opt_text(workspace)),
            ),
            None => session_among(*evidence, candidates@, 0) is None,
        },
{
    let mut i: usize = 0;
    while i < candidates.len()
        invariant
            i <= candidates.len(),
            session_among(*evidence, candidates@, 0) == session_among(
                *evidence,
                candidates@,
                i as int,
            ),
        decreases candidates.len() - i,
    {
        let dir = to_chars(candidates[i].path.as_str());
        let db = from_chars(&join_path(&dir, &to_chars("state.vscdb")));
        if evidence.kind_of(db.as_str()) != PathKind::Missing {
            match parse_vscode_database(evidence, db.as_str()) {
                Some(files) => {
                    if files.len() > 0 {
                        let json = from_chars(&join_path(&dir, &to_chars("workspace.json")));
                        let workspace = extract_workspace_from_json(evidence, json.as_str());
                        return Some((files, workspace));
                    }
                },
                None => {},
            }
        }
        i += 1;
    }
    None
}

/// The session that the scan of the storage at `storage_dir` finds.
pub fn scan_all_vscode_sessions(evidence: &Evidence, storage_dir: &str) -> (r: Option<
    (Vec<FileInfo>, Option<String>),
>)
    ensures
        match r {
            Some((files, workspace)) => scanned_session(*evidence, storage_dir@) == Some(
                (files_view(files@), opt_text(workspace)),
            ),
            None => scanned_session(*evidence, storage_dir@) is None,
        },
{
    match evidence.listing(storage_dir) {
        Some(entries) => first_session(evidence, &two_newest_of(&directories_of(entries))),
        None => None,
    }
}

/// The session of the workspace at `workspace_path`.
pub fn get_vscode_session_files(evidence: &Evidence, workspace_path: &str) -> (r: Option<
    (Vec<FileInfo>, Option<String>),
>)
    ensures
        match r {
            Some((files, workspace)) => session_files(*evidence, workspace_path@) == Some(
                (files_view(files@), opt_text(workspace)),
            ),
            None => session_files(*evidence, workspace_path@) is None,
        },
{
    let home = match &evidence.home {
        Some(home) => home,
        None => {
            return None;
        },
    };
    let storage = concatenate(
        &to_chars(home.as_str()),
        &to_chars("/.config/Code/User/workspaceStorage"),
    );
    let storage_text = from_chars(&storage);
    match get_workspace_id(evidence, workspace_path, storage_text.as_str()) {
        Some(id) => {
            let mut slash: Vec<char> = Vec::new();
            slash.push('/');
            assert(slash@ == seq!['/']);
            let under = concatenate(&concatenate(&storage, &slash), &to_chars(id.as_str()));
            let db = from_chars(&concatenate(&under, &to_chars("/state.vscdb")));
            if evidence.kind_of(db.as_str()) != PathKind::Missing {
                return match parse_vscode_database(evidence, db.as_str()) {
                    Some(files) => {
                        let json = from_chars(&concatenate(&under, &to_chars("/workspace.json")));
                        let workspace = extract_workspace_from_json(evidence, json.as_str());
                        Some((files, workspace))
                    },
                    None => None,
                };
            }
        },
        None => {},
    }
    scan_all_vscode_sessions(evidence, storage_text.as_str())
}


/// The open files of the workspace at `workspace_path` and the directory
/// of the workspace that the session names: those of the session where it
/// has any, and else the guess.
pub open spec fn recent_files(evidence: Evidence, workspace_path: Seq<char>) -> (
    Seq<FileInfoView>,
    Option<Seq<char>>,
) {
    match session_files(evidence, workspace_path) {
        Some((files, workspace)) => if files.len() > 0 {
            (files, workspace)
        } else {
            (heuristic_files(evidence, workspace_path), None)
        },
        None => (heuristic_files(evidence, workspace_path), None),
    }
}

/// The open files of the workspace at `workspace_path` and the directory
/// of the workspace that the session names.
pub fn read_recent_files(evidence: &Evidence, workspace_path: &str) -> (r: (
    Vec<FileInfo>,
    Option<String>,
))
    ensures
        (files_view(r.0@), opt_text(r.1)) == recent_files(*evidence, workspace_path@),
{
    match get_vscode_session_files(evidence, workspace_path) {
        Some((files, workspace)) => {
            if files.len() > 0 {
                return (files, workspace);
            }
        },
        None => {},
    }
    (get_vscode_files_heuristic(evidence, workspace_path), None)
}

/// Where no database could be queried, no candidate has a session.
pub proof fn lemma_no_record_no_candidate(evidence: Evidence, candidates: Seq<DirEntry>, from: int)
    requires
        evidence.records@.len() == 0,
    ensures
        session_among(evidence, candidates, from) is None,
    decreases candidates.len() - from,
{
    if 0 <= from < candidates.len() {
        lemma_no_record_no_candidate(evidence, candidates, from + 1);
    }
}

/// Where no database could be queried there is no session, and the open
/// files are the guess.
pub proof fn lemma_no_record_no_session(evidence: Evidence, workspace_path: Seq<char>)
    requires
        evidence.records@.len() == 0,
    ensures
        session_files(evidence, workspace_path) is None,
        recent_files(evidence, workspace_path) == (
            heuristic_files(evidence, workspace_path),
            None::<Seq<char>>,
        ),
{
    match evidence.home {
        Some(home) => {
            match evidence.entries_at(storage_dir(home@)) {
                Some(entries) => {
                    lemma_no_record_no_candidate(evidence, two_newest(directories(entries)), 0);
                },
                None => {},
            }
        },
        None => {},
    }
}

/// The databases of the directories `candidates`, in order.
pub open spec fn databases_of(candidates: Seq<DirEntry>) -> Seq<Seq<char>> {
    candidates.map_values(|entry: DirEntry| joined(entry.path@, "state.vscdb"@))
}

/// The databases that reading the session of the workspace at
/// `workspace_path` may query, so that they can be queried beforehand: the
/// one under the name of the workspace, and those of the two directories
/// of the storage that were modified last.
pub open spec fn candidate_databases(evidence: Evidence, workspace_path: Seq<char>) -> Seq<
    Seq<char>,
> {
    match evidence.home {
        Some(home) => {
            let storage = storage_dir(home@);
            (match workspace_id(evidence, workspace_path, storage) {
                Some(id) => seq![storage + seq!['/'] + id + "/state.vscdb"@],
                None => Seq::empty(),
            }) + (match evidence.entries_at(storage) {
                Some(entries) => databases_of(two_newest(directories(entries))),
                None => Seq::empty(),
            })
        },
        None => Seq::empty(),
    }
}

/// The databases that reading the session of the workspace at
/// `workspace_path` may query.
pub fn databases_to_query(evidence: &Evidence, workspace_path: &str) -> (r: Vec<String>)
    ensures
        texts(r@) == candidate_databases(*evidence, workspace_path@),
{
    let mut r: Vec<String> = Vec::new();
    assert(texts(r@) == Seq::<Seq<char>>::empty());
    let home = match &evidence.home {
        Some(home) => home,
        None => {
            return r;
        },
    };
    let storage = concatenate(
        &to_chars(home.as_str()),
        &to_chars("/.config/Code/User/workspaceStorage"),
    );
    let storage_text = from_chars(&storage);
    match get_workspace_id(evidence, workspace_path, storage_text.as_str()) {
        Some(id) => {
            let mut slash: Vec<char> = Vec::new();
            slash.push('/');
            assert(slash@ == seq!['/']);
            let under = concatenate(&concatenate(&storage, &slash), &to_chars(id.as_str()));
            let db = from_chars(&concatenate(&under, &to_chars("/state.vscdb")));
            assert(texts(r@.push(db)) == texts(r@).push(db@));
            r.push(db);
        },
        None => {},
    }
    let ghost by_name = texts(r@);
    match evidence.listing(storage_text.as_str()) {
        Some(entries) => {
            let candidates = two_newest_of(&directories_of(entries));
            let mut i: usize = 0;
            assert(databases_of(candidates@).take(0) == Seq::<Seq<char>>::empty());
            assert(by_name + Seq::<Seq<char>>::empty() == by_name);
            while i < candidates.len()
                invariant
                    i <= candidates.len(),
                    texts(r@) == by_name + databases_of(candidates@).take(i as int),
                decreases candidates.len() - i,
            {
                let dir = to_chars(candidates[i].path.as_str());
                let db = from_chars(&join_path(&dir, &to_chars("state.vscdb")));
                assert(texts(r@.push(db)) == texts(r@).push(db@));
                assert(databases_of(candidates@).take(i + 1) == databases_of(candidates@).take(
                    i as int,
                ).push(db@));
                r.push(db);
                i += 1;
            }
            assert(databases_of(candidates@).take(candidates.len() as int) == databases_of(
                candidates@,
            ));
        },
        None => {
            assert(by_name + Seq::<Seq<char>>::empty() == by_name);
        },
    }
    r
}

/// The directory in which the editor keeps the state of its workspaces.
pub fn storage_path(home: &str) -> (r: String)
    ensures
        r@ == storage_dir(home@),
{
    from_chars(
        &concatenate(&to_chars(home), &to_chars("/.config/Code/User/workspaceStorage")),
    )
}

/// The file in the directory `dir` of the storage that gives the address of
/// the workspace.
pub open spec fn description_of(dir: Seq<char>) -> Seq<char> {
    joined(dir, "workspace.json"@)
}

/// The file in the directory `dir` of the storage that gives the address of
/// the workspace.
pub fn description_path(dir: &str) -> (r: String)
    ensures
        r@ == description_of(dir@),
{
    from_chars(&join_path(&to_chars(dir), &to_chars("workspace.json")))
}

} // verus!
