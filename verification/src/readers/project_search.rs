//! The search for the directory of a project that is known by its name
//! only: first right under the usual places for projects, then a few levels
//! below them.

use crate::evidence::{DirEntry, Evidence, PathKind};
use crate::text::{
    base_name, basename, concatenate, eq_ignore_ascii_case, from_chars, join_path, joined,
    same_ignoring_ascii_case, texts, to_chars,
};
use crate::types::opt_text;
use vstd::prelude::*;

verus! {

/// The number of levels that the search below a root goes through, the root
/// being the first.
pub const SEARCH_DEPTH: u32 = 3;

/// The directories under which projects are looked for, in the order of
/// the search.
pub open spec fn search_roots(user: Seq<char>) -> Seq<Seq<char>> {
    seq![
        "/home/"@ + user + "/codes"@,
        "/home/"@ + user + "/projects"@,
        "/home/"@ + user + "/workspace"@,
        "/home/"@ + user + "/dev"@,
        "/home/"@ + user + "/Documents"@,
        "/home/"@ + user + "/Dropbox/dev"@,
        "/home/"@ + user,
    ]
}

/// Whether `dir` holds the metadata directory of a project.
pub open spec fn holds_project(evidence: Evidence, dir: Seq<char>) -> bool {
    evidence.kind_at(joined(dir, ".idea"@)) == PathKind::Dir
}

/// Whether the search goes down into a directory of the name `name`:
/// not into a hidden one, nor into one that holds dependencies or build
/// output.
pub open spec fn descends_into(name: Seq<char>) -> bool {
    &&& !(name.len() > 0 && name.first() == '.')
    &&& !same_ignoring_ascii_case(name, "node_modules"@)
    &&& !same_ignoring_ascii_case(name, "target"@)
    &&& !same_ignoring_ascii_case(name, "build"@)
    &&& !same_ignoring_ascii_case(name, "dist"@)
}

/// The first project directory of the name `project`, up to the case of
/// ASCII letters, in the directory `base` or below it, `depth` levels deep
/// at most, the directory itself being the first level. A directory comes
/// before what is in it, and what is in it comes in the order of its
/// listing.
pub open spec fn project_in_directory(
    evidence: Evidence,
    base: Seq<char>,
    project: Seq<char>,
    depth: nat,
) -> Option<Seq<char>>
    decreases depth, 0nat,
{
    if depth == 0 || evidence.kind_at(base) != PathKind::Dir {
        None
    } else if same_ignoring_ascii_case(base_name(base), project) && holds_project(evidence, base) {
        Some(base)
    } else {
        match evidence.entries_at(base) {
            Some(entries) => project_in_entries(evidence, entries, 0, project, (depth - 1) as nat),
            None => None,
        }
    }
}

/// The first project directory of the name `project` in or below the
/// entries at and after position `from`, each searched `depth` levels deep.
pub open spec fn project_in_entries(
    evidence: Evidence,
    entries: Seq<Option<DirEntry>>,
    from: int,
    project: Seq<char>,
    depth: nat,
) -> Option<Seq<char>>
    decreases depth, 1 + entries.len() - from,
{
    if from < 0 || from >= entries.len() {
        None
    } else {
        let below = match entries[from] {
            Some(entry) => if entry.kind == PathKind::Dir && descends_into(base_name(entry.path@)) {
                project_in_directory(evidence, entry.path@, project, depth)
            } else {
                None
            },
            None => None,
        };
        match below {
            Some(found) => Some(found),
            None => project_in_entries(evidence, entries, from + 1, project, depth),
        }
    }
}

/// The first of the directories `roots[from..]` that has a project
/// directory of exactly the name `project` right in it.
pub open spec fn project_named_from(
    evidence: Evidence,
    roots: Seq<Seq<char>>,
    project: Seq<char>,
    from: int,
) -> Option<Seq<char>>
    decreases roots.len() - from,
{
    if from < 0 || from >= roots.len() {
        None
    } else if holds_project(evidence, roots[from] + seq!['/'] + project) {
        Some(roots[from] + seq!['/'] + project)
    } else {
        project_named_from(evidence, roots, project, from + 1)
    }
}

/// The first project directory that the search finds under the directories
/// `roots[from..]`, as many levels deep as the search goes.
pub open spec fn project_below_from(
    evidence: Evidence,
    roots: Seq<Seq<char>>,
    project: Seq<char>,
    from: int,
) -> Option<Seq<char>>
    decreases roots.len() - from,
{
    if from < 0 || from >= roots.len() {
        None
    } else {
        match project_in_directory(evidence, roots[from], project, SEARCH_DEPTH as nat) {
            Some(found) => Some(found),
            None => project_below_from(evidence, roots, project, from + 1),
        }
    }
}

/// The directory of the project `project`: a directory of exactly that name
/// right under one of the search roots, and failing that the first one that
/// the search below the roots finds.
pub open spec fn project_path_found(evidence: Evidence, project: Seq<char>) -> Option<Seq<char>> {
    let roots = search_roots(
        match evidence.user {
            Some(user) => user@,
            None => Seq::empty(),
        },
    );
    match project_named_from(evidence, roots, project, 0) {
        Some(found) => Some(found),
        None => project_below_from(evidence, roots, project, 0),
    }
}

/// The directories under which projects are looked for.
pub fn project_search_roots(user: &str) -> (r: Vec<Vec<char>>)
    ensures
        r@.map_values(|root: Vec<char>| root@) == search_roots(user@),
{
    let home = concatenate(&to_chars("/home/"), &to_chars(user));
    let mut r: Vec<Vec<char>> = Vec::new();
    r.push(concatenate(&home, &to_chars("/codes")));
    r.push(concatenate(&home, &to_chars("/projects")));
    r.push(concatenate(&home, &to_chars("/workspace")));
    r.push(concatenate(&home, &to_chars("/dev")));
    r.push(concatenate(&home, &to_chars("/Documents")));
    r.push(concatenate(&home, &to_chars("/Dropbox/dev")));
    r.push(home);
    assert(r@.map_values(|root: Vec<char>| root@) =~= search_roots(user@));
    r
}

/// Whether `dir` holds the metadata directory of a project.
pub fn has_project_metadata(evidence: &Evidence, dir: &Vec<char>) -> (r: bool)
    ensures
        r == holds_project(*evidence, dir@),
{
    let idea = join_path(dir, &to_chars(".idea"));
    evidence.kind_of(from_chars(&idea).as_str()) == PathKind::Dir
}

/// Whether the search goes down into a directory of the name `name`.
pub fn should_descend(name: &Vec<char>) -> (r: bool)
    ensures
        r == descends_into(name@),
{
    !(name.len() > 0 && name[0] == '.') && !eq_ignore_ascii_case(name, &to_chars("node_modules"))
        && !eq_ignore_ascii_case(name, &to_chars("target")) && !eq_ignore_ascii_case(
        name,
        &to_chars("build"),
    ) && !eq_ignore_ascii_case(name, &to_chars("dist"))
}

/// The first project directory of the name `project_name` in `base` or
/// below it, `max_depth` levels deep at most.
pub fn find_project_in_directory(
    evidence: &Evidence,
    base: &Vec<char>,
    project_name: &Vec<char>,
    max_depth: u32,
) -> (r: Option<Vec<char>>)
    ensures
        match r {
            Some(found) => project_in_directory(*evidence, base@, project_name@, max_depth as nat)
                == Some(found@),
            None => project_in_directory(*evidence, base@, project_name@, max_depth as nat)
                is None,
        },
    decreases max_depth,
{
    if max_depth == 0 {
        return None;
    }
    let base_text = from_chars(base);
    if evidence.kind_of(base_text.as_str()) != PathKind::Dir {
        return None;
    }
    if eq_ignore_ascii_case(&basename(base), project_name) && has_project_metadata(
        evidence,
        base,
    ) {
        return Some(concatenate(base, &Vec::new()));
    }
    let entries = match evidence.listing(base_text.as_str()) {
        Some(entries) => entries,
        None => {
            return None;
        },
    };
    let mut i: usize = 0;
    while i < entries.len()
        invariant
            i <= entries.len(),
            max_depth > 0,
            project_in_directory(*evidence, base@, project_name@, max_depth as nat)
                == project_in_entries(
                *evidence,
                entries@,
                0,
                project_name@,
                (max_depth - 1) as nat,
            ),
            project_in_entries(*evidence, entries@, 0, project_name@, (max_depth - 1) as nat)
                == project_in_entries(
                *evidence,
                entries@,
                i as int,
                project_name@,
                (max_depth - 1) as nat,
            ),
        decreases entries.len() - i,
    {
        match &entries[i] {
            Some(entry) => {
                let path = to_chars(entry.path.as_str());
                if entry.kind == PathKind::Dir && should_descend(&basename(&path)) {
                    match find_project_in_directory(evidence, &path, project_name, max_depth - 1) {
                        Some(found) => {
                            return Some(found);
                        },
                        None => {},
                    }
                }
            },
            None => {},
        }
        i += 1;
    }
    None
}

/// The directory of the project `project_name`.
pub fn find_project_path(evidence: &Evidence, project_name: &str) -> (r: Option<String>)
    ensures
        opt_text(r) == project_path_found(*evidence, project_name@),
{
    let roots = match &evidence.user {
        Some(user) => project_search_roots(user.as_str()),
        None => project_search_roots(""),
    };
    let ghost root_views = roots@.map_values(|root: Vec<char>| root@);
    proof {
        reveal_strlit("");
        assert(""@ == Seq::<char>::empty());
    }
    let ghost wanted = project_path_found(*evidence, project_name@);
    assert(wanted == match project_named_from(*evidence, root_views, project_name@, 0) {
        Some(found) => Some(found),
        None => project_below_from(*evidence, root_views, project_name@, 0),
    });
    let project = to_chars(project_name);
    let mut slash_project: Vec<char> = Vec::new();
    slash_project.push('/');
    assert(slash_project@ == seq!['/']);
    let slash_project = concatenate(&slash_project, &project);
    let mut i: usize = 0;
    while i < roots.len()
        invariant
            i <= roots.len(),
            wanted == project_path_found(*evidence, project_name@),
            root_views == roots@.map_values(|root: Vec<char>| root@),
            slash_project@ == seq!['/'] + project_name@,
            wanted == match project_named_from(*evidence, root_views, project_name@, 0) {
                Some(found) => Some(found),
                None => project_below_from(*evidence, root_views, project_name@, 0),
            },
            project_named_from(*evidence, root_views, project_name@, 0) == project_named_from(
                *evidence,
                root_views,
                project_name@,
                i as int,
            ),
        decreases roots.len() - i,
    {
        let candidate = concatenate(&roots[i], &slash_project);
        assert(root_views[i as int] == roots@[i as int]@);
        assert(candidate@ == root_views[i as int] + seq!['/'] + project_name@);
        if has_project_metadata(evidence, &candidate) {
            return Some(from_chars(&candidate));
        }
        i += 1;
    }
    let mut i: usize = 0;
    while i < roots.len()
        invariant
            i <= roots.len(),
            wanted == project_path_found(*evidence, project_name@),
            root_views == roots@.map_values(|root: Vec<char>| root@),
            project@ == project_name@,
            wanted == project_below_from(*evidence, root_views, project_name@, 0),
            project_below_from(*evidence, root_views, project_name@, 0) == project_below_from(
                *evidence,
                root_views,
                project_name@,
                i as int,
            ),
        decreases roots.len() - i,
    {
        assert(root_views[i as int] == roots@[i as int]@);
        match find_project_in_directory(evidence, &roots[i], &project, SEARCH_DEPTH) {
            Some(found) => {
                return Some(from_chars(&found));
            },
            None => {},
        }
        i += 1;
    }
    None
}

/// The metadata directory of the project directory `dir`.
pub open spec fn metadata_of(dir: Seq<char>) -> Seq<char> {
    joined(dir, ".idea"@)
}

/// The metadata directory of the project directory `dir`.
pub fn metadata_path(dir: &str) -> (r: String)
    ensures
        r@ == metadata_of(dir@),
{
    from_chars(&join_path(&to_chars(dir), &to_chars(".idea")))
}

/// The directories right under the search roots in which the project
/// `project` would lie, in the order of the search.
pub open spec fn named_directories(user: Seq<char>, project: Seq<char>) -> Seq<Seq<char>> {
    search_roots(user).map_values(|root: Seq<char>| root + seq!['/'] + project)
}

/// The directories right under the search roots in which the project
/// `project_name` would lie.
pub fn directories_to_examine(user: &str, project_name: &str) -> (r: Vec<String>)
    ensures
        texts(r@) == named_directories(user@, project_name@),
{
    let roots = project_search_roots(user);
    let ghost root_views = roots@.map_values(|root: Vec<char>| root@);
    let mut slash: Vec<char> = Vec::new();
    slash.push('/');
    assert(slash@ == seq!['/']);
    let tail = concatenate(&slash, &to_chars(project_name));
    let mut r: Vec<String> = Vec::new();
    let mut i: usize = 0;
    assert(texts(r@) =~= named_directories(user@, project_name@).take(0));
    while i < roots.len()
        invariant
            i <= roots.len(),
            root_views == roots@.map_values(|root: Vec<char>| root@),
            root_views == search_roots(user@),
            tail@ == seq!['/'] + project_name@,
            texts(r@) == named_directories(user@, project_name@).take(i as int),
        decreases roots.len() - i,
    {
        let dir = from_chars(&concatenate(&roots[i], &tail));
        assert(root_views[i as int] == roots@[i as int]@);
        assert(dir@ == named_directories(user@, project_name@)[i as int]);
        assert(texts(r@.push(dir)) =~= texts(r@).push(dir@));
        assert(named_directories(user@, project_name@).take(i + 1) =~= named_directories(
            user@,
            project_name@,
        ).take(i as int).push(dir@));
        r.push(dir);
        i += 1;
    }
    assert(named_directories(user@, project_name@).take(roots.len() as int)
        =~= named_directories(user@, project_name@));
    r
}

/// The search roots, as paths.
pub fn roots_to_search(user: &str) -> (r: Vec<String>)
    ensures
        texts(r@) == search_roots(user@),
{
    let roots = project_search_roots(user);
    let ghost root_views = roots@.map_values(|root: Vec<char>| root@);
    let mut r: Vec<String> = Vec::new();
    let mut i: usize = 0;
    assert(texts(r@) =~= root_views.take(0));
    while i < roots.len()
        invariant
            i <= roots.len(),
            root_views == roots@.map_values(|root: Vec<char>| root@),
            texts(r@) == root_views.take(i as int),
        decreases roots.len() - i,
    {
        let root = from_chars(&roots[i]);
        assert(root_views[i as int] == roots@[i as int]@);
        assert(texts(r@.push(root)) =~= texts(r@).push(root@));
        assert(root_views.take(i + 1) =~= root_views.take(i as int).push(root@));
        r.push(root);
        i += 1;
    }
    assert(root_views.take(roots.len() as int) =~= root_views);
    r
}

/// A directory that the search in a directory finds is a directory of the
/// name that was looked for, up to the case of ASCII letters, and holds the
/// metadata directory of a project.
pub proof fn lemma_project_in_directory(
    evidence: Evidence,
    base: Seq<char>,
    project: Seq<char>,
    depth: nat,
)
    ensures
        match project_in_directory(evidence, base, project, depth) {
            Some(found) => {
                &&& evidence.kind_at(found) == PathKind::Dir
                &&& same_ignoring_ascii_case(base_name(found), project)
                &&& holds_project(evidence, found)
            },
            None => true,
        },
    decreases depth, 0nat,
{
    if depth == 0 || evidence.kind_at(base) != PathKind::Dir {
    } else if same_ignoring_ascii_case(base_name(base), project) && holds_project(evidence, base) {
    } else {
        match evidence.entries_at(base) {
            Some(entries) => {
                lemma_project_in_entries(evidence, entries, 0, project, (depth - 1) as nat);
            },
            None => {},
        }
    }
}

/// A directory that the search in the entries of a directory finds is a
/// directory of the name that was looked for and holds the metadata
/// directory of a project.
pub proof fn lemma_project_in_entries(
    evidence: Evidence,
    entries: Seq<Option<DirEntry>>,
    from: int,
    project: Seq<char>,
    depth: nat,
)
    ensures
        match project_in_entries(evidence, entries, from, project, depth) {
            Some(found) => {
                &&& evidence.kind_at(found) == PathKind::Dir
                &&& same_ignoring_ascii_case(base_name(found), project)
                &&& holds_project(evidence, found)
            },
            None => true,
        },
    decreases depth, 1 + entries.len() - from,
{
    if 0 <= from < entries.len() {
        match entries[from] {
            Some(entry) => {
                if entry.kind == PathKind::Dir && descends_into(base_name(entry.path@)) {
                    lemma_project_in_directory(evidence, entry.path@, project, depth);
                }
            },
            None => {},
        }
        lemma_project_in_entries(evidence, entries, from + 1, project, depth);
    }
}

/// The first directory of exactly the name `project` right under a root
/// holds the metadata directory of a project.
pub proof fn lemma_project_named_from(
    evidence: Evidence,
    roots: Seq<Seq<char>>,
    project: Seq<char>,
    from: int,
)
    ensures
        match project_named_from(evidence, roots, project, from) {
            Some(found) => holds_project(evidence, found),
            None => true,
        },
    decreases roots.len() - from,
{
    if 0 <= from < roots.len() {
        lemma_project_named_from(evidence, roots, project, from + 1);
    }
}

/// The first directory that the search below the roots finds holds the
/// metadata directory of a project.
pub proof fn lemma_project_below_from(
    evidence: Evidence,
    roots: Seq<Seq<char>>,
    project: Seq<char>,
    from: int,
)
    ensures
        match project_below_from(evidence, roots, project, from) {
            Some(found) => holds_project(evidence, found),
            None => true,
        },
    decreases roots.len() - from,
{
    if 0 <= from < roots.len() {
        lemma_project_in_directory(evidence, roots[from], project, SEARCH_DEPTH as nat);
        lemma_project_below_from(evidence, roots, project, from + 1);
    }
}

/// No project directory is made up: the directory that is found for a
/// project was observed to hold the metadata directory of a project.
pub proof fn lemma_found_project_holds_metadata(evidence: Evidence, project: Seq<char>)
    ensures
        match project_path_found(evidence, project) {
            Some(found) => holds_project(evidence, found),
            None => true,
        },
{
    let roots = search_roots(
        match evidence.user {
            Some(user) => user@,
            None => Seq::empty(),
        },
    );
    lemma_project_named_from(evidence, roots, project, 0);
    lemma_project_below_from(evidence, roots, project, 0);
}

} // verus!
