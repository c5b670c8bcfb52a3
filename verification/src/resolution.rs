//! The resolution engine: it turns the files that the evidence sources
//! yielded, in the order of discovery, into one coherent result.
//!
//! A file takes part once, by its path: of two files with one path the first
//! stays, with its own flags. A file without a path takes no part. The
//! active file is the first file of the result that is marked active.

use crate::detector::{DetectionError, DetectionErrorView};
use crate::types::{files_view, opt_text, DetectionResult, FileInfo, FileInfoView, Findings};
use vstd::prelude::*;

verus! {

/// Whether one of `files` has the path `path`.
pub open spec fn has_path(files: Seq<FileInfoView>, path: Seq<char>) -> bool {
    exists|i: int| 0 <= i < files.len() && files[i].path == path
}

/// `acc` after `file` was offered to it: `file` is appended unless it has no
/// path or its path is taken.
pub open spec fn admitted(acc: Seq<FileInfoView>, file: FileInfoView) -> Seq<FileInfoView> {
    if file.path.len() == 0 || has_path(acc, file.path) {
        acc
    } else {
        acc.push(file)
    }
}

/// `acc` after each of `files` was offered to it, in order.
pub open spec fn absorbed(acc: Seq<FileInfoView>, files: Seq<FileInfoView>) -> Seq<FileInfoView>
    decreases files.len(),
{
    if files.len() == 0 {
        acc
    } else {
        admitted(absorbed(acc, files.drop_last()), files.last())
    }
}

/// `files` without the files that have no path and without those whose path
/// occurred earlier.
pub open spec fn merged(files: Seq<FileInfoView>) -> Seq<FileInfoView> {
    absorbed(Seq::empty(), files)
}

/// The path of the first of `files` that is marked active.
pub open spec fn first_active(files: Seq<FileInfoView>) -> Option<Seq<char>>
    decreases files.len(),
{
    if files.len() == 0 {
        None
    } else {
        match first_active(files.drop_last()) {
            Some(path) => Some(path),
            None => if files.last().is_active {
                Some(files.last().path)
            } else {
                None
            },
        }
    }
}

/// Whether every file has a path and no two files share one.
pub open spec fn distinct_paths(files: Seq<FileInfoView>) -> bool {
    &&& forall|i: int| 0 <= i < files.len() ==> (#[trigger] files[i]).path.len() > 0
    &&& forall|i: int, j: int|
        0 <= i < j < files.len() ==> (#[trigger] files[i]).path != (#[trigger] files[j]).path
}

/// The invariant of a result: it has at least one file, every file has a
/// path of its own, and the active file is the first file marked active.
pub open spec fn coherent(findings: Findings) -> bool {
    &&& findings.open_files.len() > 0
    &&& distinct_paths(findings.open_files)
    &&& findings.active_file == first_active(findings.open_files)
}

/// After files were offered, the path of each of them is taken, unless it
/// is empty.
pub proof fn lemma_absorbed_covers(acc: Seq<FileInfoView>, files: Seq<FileInfoView>, k: int)
    requires
        0 <= k < files.len(),
        files[k].path.len() > 0,
    ensures
        has_path(absorbed(acc, files), files[k].path),
    decreases files.len(),
{
    let before = absorbed(acc, files.drop_last());
    let after = admitted(before, files.last());
    if k == files.len() - 1 {
        if !has_path(before, files[k].path) {
            assert(after[before.len() as int].path == files[k].path);
        }
    } else {
        lemma_absorbed_covers(acc, files.drop_last(), k);
        let i = choose|i: int| 0 <= i < before.len() && before[i].path == files[k].path;
        assert(before.is_prefix_of(after));
        assert(after[i].path == files[k].path);
    }
}

/// Offering files whose paths are all taken or empty changes nothing.
pub proof fn lemma_absorbed_known(acc: Seq<FileInfoView>, files: Seq<FileInfoView>)
    requires
        forall|k: int|
            0 <= k < files.len() ==> files[k].path.len() == 0 || has_path(acc, files[k].path),
    ensures
        absorbed(acc, files) == acc,
    decreases files.len(),
{
    if files.len() > 0 {
        lemma_absorbed_known(acc, files.drop_last());
    }
}

/// Offering `a` and then `b` is offering `a + b`.
pub proof fn lemma_absorbed_concat(
    acc: Seq<FileInfoView>,
    a: Seq<FileInfoView>,
    b: Seq<FileInfoView>,
)
    ensures
        absorbed(acc, a + b) == absorbed(absorbed(acc, a), b),
    decreases b.len(),
{
    if b.len() == 0 {
        assert(a + b == a);
    } else {
        assert((a + b).drop_last() == a + b.drop_last());
        lemma_absorbed_concat(acc, a, b.drop_last());
    }
}

/// Offering files to distinct files leaves distinct files.
pub proof fn lemma_absorbed_distinct(acc: Seq<FileInfoView>, files: Seq<FileInfoView>)
    requires
        distinct_paths(acc),
    ensures
        distinct_paths(absorbed(acc, files)),
    decreases files.len(),
{
    if files.len() > 0 {
        lemma_absorbed_distinct(acc, files.drop_last());
    }
}

/// The active file of a list is the path of one of its files, which is
/// marked active and before which no file is.
pub proof fn lemma_first_active(files: Seq<FileInfoView>)
    ensures
        match first_active(files) {
            Some(path) => exists|i: int|
                0 <= i < files.len() && files[i].path == path && files[i].is_active && forall|
                    k: int,
                | 0 <= k < i ==> !files[k].is_active,
            None => forall|k: int| 0 <= k < files.len() ==> !files[k].is_active,
        },
    decreases files.len(),
{
    if files.len() > 0 {
        let front = files.drop_last();
        lemma_first_active(front);
        match first_active(front) {
            Some(path) => {
                let i = choose|i: int|
                    0 <= i < front.len() && front[i].path == path && front[i].is_active && forall|
                        k: int,
                    | 0 <= k < i ==> !front[k].is_active;
                assert(files[i].path == path && files[i].is_active);
                assert forall|k: int| 0 <= k < i implies !files[k].is_active by {
                    assert(front[k] == files[k]);
                }
            },
            None => {
                if files.last().is_active {
                    let i = files.len() - 1;
                    assert(files[i].path == files.last().path && files[i].is_active);
                    assert forall|k: int| 0 <= k < i implies !files[k].is_active by {
                        assert(front[k] == files[k]);
                    }
                } else {
                    assert forall|k: int| 0 <= k < files.len() implies !files[k].is_active by {
                        if k < files.len() - 1 {
                            assert(front[k] == files[k]);
                        }
                    }
                }
            },
        }
    }
}

/// Merging is idempotent: a list followed by itself merges to what the list
/// alone merges to, the same files in the same order with the same flags,
/// and so elects the same active file.
pub proof fn lemma_merge_idempotent(files: Seq<FileInfoView>)
    ensures
        merged(files + files) == merged(files),
        first_active(merged(files + files)) == first_active(merged(files)),
        merged(merged(files)) == merged(files),
{
    lemma_absorbed_concat(Seq::empty(), files, files);
    assert forall|k: int| 0 <= k < files.len() implies files[k].path.len() == 0 || has_path(
        merged(files),
        files[k].path,
    ) by {
        if files[k].path.len() > 0 {
            lemma_absorbed_covers(Seq::empty(), files, k);
        }
    }
    lemma_absorbed_known(merged(files), files);
    lemma_absorbed_distinct(Seq::empty(), files);
    lemma_merged_fixed(merged(files));
}

/// Merging files that have distinct paths changes nothing.
pub proof fn lemma_merged_fixed(files: Seq<FileInfoView>)
    requires
        distinct_paths(files),
    ensures
        merged(files) == files,
    decreases files.len(),
{
    if files.len() == 0 {
    } else {
        let front = files.drop_last();
        assert(distinct_paths(front)) by {
            assert forall|i: int| 0 <= i < front.len() implies (#[trigger] front[i]).path.len()
                > 0 by {
                assert(front[i] == files[i]);
            }
            assert forall|i: int, j: int| 0 <= i < j < front.len() implies (#[trigger] front[
                i
            ]).path != (#[trigger] front[j]).path by {
                assert(front[i] == files[i]);
                assert(front[j] == files[j]);
            }
        }
        lemma_merged_fixed(front);
        if has_path(front, files.last().path) {
            let i = choose|i: int| 0 <= i < front.len() && front[i].path == files.last().path;
            assert(front[i] == files[i]);
            assert(files[i].path != files[files.len() - 1].path);
        }
        assert(front.push(files.last()) == files);
    }
}

/// The view of a vector of files with one more file at its end.
pub proof fn lemma_files_view_push(files: Seq<FileInfo>, file: FileInfo)
    ensures
        files_view(files.push(file)) == files_view(files).push(file@),
{
    assert(files_view(files.push(file)) =~= files_view(files).push(file@));
}

/// Moves the files of `more` to the end of `files`.
pub fn append_files(files: &mut Vec<FileInfo>, more: Vec<FileInfo>)
    ensures
        files_view(final(files)@) == files_view(old(files)@) + files_view(more@),
{
    let mut more = more;
    assert(files_view(files@) + files_view(more@) == files_view(files@ + more@));
    files.append(&mut more);
}

/// Whether one of `files` has the path `path`.
pub fn contains_path(files: &Vec<FileInfo>, path: &String) -> (r: bool)
    ensures
        r == has_path(files_view(files@), path@),
{
    let mut i: usize = 0;
    while i < files.len()
        invariant
            i <= files.len(),
            forall|k: int| 0 <= k < i ==> files_view(files@)[k].path != path@,
        decreases files.len() - i,
    {
        if files[i].path == *path {
            assert(files_view(files@)[i as int].path == path@);
            return true;
        }
        i += 1;
    }
    false
}

/// Offers `file` to `acc`: it is appended unless it has no path or its path
/// is taken.
pub fn merge_into(acc: &mut Vec<FileInfo>, file: FileInfo)
    ensures
        files_view(final(acc)@) == admitted(files_view(old(acc)@), file@),
{
    if file.path.as_str().unicode_len() == 0 || contains_path(acc, &file.path) {
    } else {
        proof {
            lemma_files_view_push(acc@, file);
        }
        acc.push(file);
    }
}

/// Offers each of `files` to `acc`, in order.
pub fn absorb(acc: &mut Vec<FileInfo>, files: &Vec<FileInfo>)
    ensures
        files_view(final(acc)@) == absorbed(files_view(old(acc)@), files_view(files@)),
{
    let mut i: usize = 0;
    while i < files.len()
        invariant
            i <= files.len(),
            files_view(acc@) == absorbed(files_view(old(acc)@), files_view(files@).take(i as int)),
        decreases files.len() - i,
    {
        merge_into(acc, files[i].clone());
        i += 1;
        assert(files_view(files@).take(i as int).drop_last() == files_view(files@).take(i - 1));
    }
    assert(files_view(files@).take(files.len() as int) == files_view(files@));
}

/// `files` without the files that have no path and without those whose path
/// occurred earlier.
pub fn merge_files(files: &Vec<FileInfo>) -> (r: Vec<FileInfo>)
    ensures
        files_view(r@) == merged(files_view(files@)),
        distinct_paths(files_view(r@)),
{
    let mut r: Vec<FileInfo> = Vec::new();
    assert(files_view(r@) == Seq::<FileInfoView>::empty());
    absorb(&mut r, files);
    proof {
        lemma_absorbed_distinct(Seq::empty(), files_view(files@));
    }
    r
}

/// The path of the first of `files` that is marked active.
pub fn select_active(files: &Vec<FileInfo>) -> (r: Option<String>)
    ensures
        opt_text(r) == first_active(files_view(files@)),
{
    let mut i: usize = 0;
    while i < files.len()
        invariant
            i <= files.len(),
            first_active(files_view(files@).take(i as int)) is None,
        decreases files.len() - i,
    {
        assert(files_view(files@).take(i + 1).drop_last() == files_view(files@).take(i as int));
        if files[i].is_active {
            proof {
                lemma_active_stays(files_view(files@), i + 1);
            }
            return Some(files[i].path.clone());
        }
        i += 1;
    }
    assert(files_view(files@).take(files.len() as int) == files_view(files@));
    None
}

/// An active file that is elected among the first `n` files is elected
/// among all of them.
pub proof fn lemma_active_stays(files: Seq<FileInfoView>, n: int)
    requires
        0 <= n <= files.len(),
        first_active(files.take(n)) is Some,
    ensures
        first_active(files) == first_active(files.take(n)),
    decreases files.len() - n,
{
    if n == files.len() {
        assert(files.take(n) == files);
    } else {
        assert(files.take(n + 1).drop_last() == files.take(n));
        lemma_active_stays(files, n + 1);
    }
}

/// The result of a detection that found `found`, in the order of discovery:
/// the failure `failure` where no file with a path is among them, and else
/// the merged files with the active file elected among them.
pub open spec fn concluded(
    ide_name: Seq<char>,
    found: Seq<FileInfoView>,
    project_path: Option<Seq<char>>,
    failure: Seq<char>,
) -> Result<Findings, DetectionErrorView> {
    if merged(found).len() == 0 {
        Err(DetectionErrorView::WindowParseError { message: failure })
    } else {
        Ok(
            Findings {
                ide_name,
                ide_version: None,
                active_file: first_active(merged(found)),
                open_files: merged(found),
                project_path,
            },
        )
    }
}

/// What a detection that succeeds returns is coherent.
pub proof fn lemma_concluded_coherent(
    ide_name: Seq<char>,
    found: Seq<FileInfoView>,
    project_path: Option<Seq<char>>,
    failure: Seq<char>,
)
    ensures
        match concluded(ide_name, found, project_path, failure) {
            Ok(findings) => coherent(findings),
            Err(_) => true,
        },
{
    lemma_absorbed_distinct(Seq::empty(), found);
}

/// In a coherent result the active file, if there is one, is the path of
/// exactly one of the files. That file is marked active, and no file before
/// it is.
pub proof fn lemma_active_file_is_one_entry(findings: Findings)
    requires
        coherent(findings),
    ensures
        match findings.active_file {
            Some(path) => exists|i: int|
                {
                    &&& 0 <= i < findings.open_files.len()
                    &&& findings.open_files[i].path == path
                    &&& findings.open_files[i].is_active
                    &&& forall|k: int| 0 <= k < i ==> !findings.open_files[k].is_active
                    &&& forall|k: int|
                        0 <= k < findings.open_files.len() && findings.open_files[k].path == path
                            ==> k == i
                },
            None => forall|k: int|
                0 <= k < findings.open_files.len() ==> !findings.open_files[k].is_active,
        },
{
    let files = findings.open_files;
    lemma_first_active(files);
    match findings.active_file {
        Some(path) => {
            let i = choose|i: int|
                0 <= i < files.len() && files[i].path == path && files[i].is_active && forall|
                    k: int,
                | 0 <= k < i ==> !files[k].is_active;
            assert forall|k: int| 0 <= k < files.len() && files[k].path == path implies k == i by {
                if k < i {
                    assert(files[k].path != files[i].path);
                } else if i < k {
                    assert(files[i].path != files[k].path);
                }
            }
        },
        None => {},
    }
}

/// Whether `result` is what the outcome `expected` asks for: the same
/// failure, or the same findings at whatever time.
pub open spec fn agrees(
    result: Result<DetectionResult, DetectionError>,
    expected: Result<Findings, DetectionErrorView>,
) -> bool {
    match result {
        Ok(found) => expected == Ok::<Findings, DetectionErrorView>(found@.findings),
        Err(e) => expected == Err::<Findings, DetectionErrorView>(e@),
    }
}

/// Concludes a detection that found `found`, in the order of discovery. It
/// fails with `failure` as its message where no file with a path is among
/// them.
pub fn conclude(
    ide_name: &str,
    found: &Vec<FileInfo>,
    project_path: Option<String>,
    failure: String,
    timestamp: String,
) -> (r: Result<DetectionResult, DetectionError>)
    ensures
        agrees(r, concluded(ide_name@, files_view(found@), opt_text(project_path), failure@)),
        r matches Ok(result) ==> result@.timestamp == timestamp@ && coherent(result@.findings),
{
    let open_files = merge_files(found);
    if open_files.len() == 0 {
        return Err(DetectionError::WindowParseError { message: failure });
    }
    let active_file = select_active(&open_files);
    Ok(
        DetectionResult {
            timestamp,
            ide_name: String::from_str(ide_name),
            ide_version: None,
            active_file,
            open_files,
            project_path,
        },
    )
}

} // verus!
