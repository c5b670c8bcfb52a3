//! What was observed of the machine before a detection: command lines,
//! what paths name, file contents, directory listings, stored records and a
//! few names from the environment.
//!
//! The detectors read nothing themselves. Whoever calls them gathers these
//! observations and hands them over; an observation that is absent counts as
//! a source that was not available.

use vstd::prelude::*;

verus! {

/// What a path names.
#[derive(Debug, Clone, Copy, PartialEq, Eq, Structural)]
pub enum PathKind {
    /// Nothing, or nothing that could be examined.
    Missing,
    /// A file.
    File,
    /// A directory.
    Dir,
}

/// An observation that is found by the path it is about.
pub trait Keyed {
    /// The path that the observation is about.
    spec fn key(&self) -> Seq<char>;

    /// The path that the observation is about.
    fn key_text(&self) -> (r: &String)
        ensures
            r@ == self.key(),
    ;
}

/// What one path names.
#[derive(Debug)]
pub struct PathFact {
    pub path: String,
    pub kind: PathKind,
}

/// The content of one file that could be read as text.
#[derive(Debug)]
pub struct Document {
    pub path: String,
    pub content: String,
}

/// One entry of a directory.
#[derive(Debug)]
pub struct DirEntry {
    /// The path of the entry.
    pub path: String,
    /// What the entry is.
    pub kind: PathKind,
    /// When it was last modified, counted from the epoch; 0 when unknown.
    pub modified: u64,
}

impl Clone for DirEntry {
    fn clone(&self) -> (r: Self)
        ensures
            r == *self,
    {
        DirEntry { path: self.path.clone(), kind: self.kind, modified: self.modified }
    }
}

/// The entries of one directory that could be read, in the order in which
/// they were listed. An entry that could not be read is `None`.
#[derive(Debug)]
pub struct Listing {
    pub path: String,
    pub entries: Vec<Option<DirEntry>>,
}

/// The editor layout record of one session database that could be queried.
#[derive(Debug)]
pub struct Record {
    /// The path of the database.
    pub path: String,
    /// The stored value.
    pub value: String,
}

/// The arguments of one process.
#[derive(Debug)]
pub struct CommandLine {
    pub pid: u32,
    pub args: Vec<String>,
}

impl Keyed for PathFact {
    open spec fn key(&self) -> Seq<char> {
        self.path@
    }

    fn key_text(&self) -> (r: &String) {
        &self.path
    }
}

impl Keyed for Document {
    open spec fn key(&self) -> Seq<char> {
        self.path@
    }

    fn key_text(&self) -> (r: &String) {
        &self.path
    }
}

impl Keyed for Listing {
    open spec fn key(&self) -> Seq<char> {
        self.path@
    }

    fn key_text(&self) -> (r: &String) {
        &self.path
    }
}

impl Keyed for Record {
    open spec fn key(&self) -> Seq<char> {
        self.path@
    }

    fn key_text(&self) -> (r: &String) {
        &self.path
    }
}

/// The position of the first observation about `path` at or after `from`.
pub open spec fn position_from<T: Keyed>(items: Seq<T>, path: Seq<char>, from: int) -> Option<int>
    decreases items.len() - from,
{
    if from < 0 || from >= items.len() {
        None
    } else if items[from].key() == path {
        Some(from)
    } else {
        position_from(items, path, from + 1)
    }
}

/// The position of the first observation about `path`.
pub open spec fn position_of<T: Keyed>(items: Seq<T>, path: Seq<char>) -> Option<int> {
    position_from(items, path, 0)
}

/// The position of the first observation about `path`.
pub fn lookup<T: Keyed>(items: &Vec<T>, path: &str) -> (r: Option<usize>)
    ensures
        match r {
            Some(at) => position_of(items@, path@) == Some(at as int) && at < items.len(),
            None => position_of(items@, path@) is None,
        },
{
    let wanted = String::from_str(path);
    let mut i: usize = 0;
    while i < items.len()
        invariant
            i <= items.len(),
            wanted@ == path@,
            position_of(items@, path@) == position_from(items@, path@, i as int),
        decreases items.len() - i,
    {
        if *items[i].key_text() == wanted {
            return Some(i);
        }
        i += 1;
    }
    None
}

/// The position of the first command line of process `pid` at or after
/// `from`.
pub open spec fn command_line_from(lines: Seq<CommandLine>, pid: u32, from: int) -> Option<int>
    decreases lines.len() - from,
{
    if from < 0 || from >= lines.len() {
        None
    } else if lines[from].pid == pid {
        Some(from)
    } else {
        command_line_from(lines, pid, from + 1)
    }
}

/// What was observed of the machine.
#[derive(Debug)]
pub struct Evidence {
    /// The arguments of the processes whose command line could be read.
    pub command_lines: Vec<CommandLine>,
    /// What the examined paths name.
    pub paths: Vec<PathFact>,
    /// The files that were read.
    pub documents: Vec<Document>,
    /// The directories that were listed.
    pub listings: Vec<Listing>,
    /// The session databases that were queried.
    pub records: Vec<Record>,
    /// The name of the user, where the environment gives it.
    pub user: Option<String>,
    /// The home directory, where the environment gives it.
    pub home: Option<String>,
    /// The working directory, where it could be determined.
    pub working_dir: Option<String>,
}

impl Evidence {
    /// What `path` names: what the first observation about it says, and
    /// `Missing` without one.
    pub open spec fn kind_at(self, path: Seq<char>) -> PathKind {
        match position_of(self.paths@, path) {
            Some(at) => self.paths@[at].kind,
            None => PathKind::Missing,
        }
    }

    /// The content of the file at `path`, if it was read.
    pub open spec fn content_at(self, path: Seq<char>) -> Option<Seq<char>> {
        match position_of(self.documents@, path) {
            Some(at) => Some(self.documents@[at].content@),
            None => None,
        }
    }

    /// The entries of the directory at `path`, if it was listed.
    pub open spec fn entries_at(self, path: Seq<char>) -> Option<Seq<Option<DirEntry>>> {
        match position_of(self.listings@, path) {
            Some(at) => Some(self.listings@[at].entries@),
            None => None,
        }
    }

    /// The record of the database at `path`, if it was queried.
    pub open spec fn record_at(self, path: Seq<char>) -> Option<Seq<char>> {
        match position_of(self.records@, path) {
            Some(at) => Some(self.records@[at].value@),
            None => None,
        }
    }

    /// The arguments of process `pid`, if its command line was read.
    pub open spec fn args_of(self, pid: u32) -> Option<Seq<String>> {
        match command_line_from(self.command_lines@, pid, 0) {
            Some(at) => Some(self.command_lines@[at].args@),
            None => None,
        }
    }

    /// No observation at all.
    pub fn new() -> (r: Evidence)
        ensures
            r.command_lines@.len() == 0,
            r.paths@.len() == 0,
            r.documents@.len() == 0,
            r.listings@.len() == 0,
            r.records@.len() == 0,
            r.user is None,
            r.home is None,
            r.working_dir is None,
    {
        Evidence {
            command_lines: Vec::new(),
            paths: Vec::new(),
            documents: Vec::new(),
            listings: Vec::new(),
            records: Vec::new(),
            user: None,
            home: None,
            working_dir: None,
        }
    }

    /// What `path` names.
    pub fn kind_of(&self, path: &str) -> (r: PathKind)
        ensures
            r == self.kind_at(path@),
    {
        match lookup(&self.paths, path) {
            Some(at) => self.paths[at].kind,
            None => PathKind::Missing,
        }
    }

    /// The content of the file at `path`, if it was read.
    pub fn document(&self, path: &str) -> (r: Option<&String>)
        ensures
            match r {
                Some(content) => self.content_at(path@) == Some(content@),
                None => self.content_at(path@) is None,
            },
    {
        match lookup(&self.documents, path) {
            Some(at) => Some(&self.documents[at].content),
            None => None,
        }
    }

    /// The entries of the directory at `path`, if it was listed.
    pub fn listing(&self, path: &str) -> (r: Option<&Vec<Option<DirEntry>>>)
        ensures
            match r {
                Some(entries) => self.entries_at(path@) == Some(entries@),
                None => self.entries_at(path@) is None,
            },
    {
        match lookup(&self.listings, path) {
            Some(at) => Some(&self.listings[at].entries),
            None => None,
        }
    }

    /// The record of the database at `path`, if it was queried.
    pub fn record(&self, path: &str) -> (r: Option<&String>)
        ensures
            match r {
                Some(value) => self.record_at(path@) == Some(value@),
                None => self.record_at(path@) is None,
            },
    {
        match lookup(&self.records, path) {
            Some(at) => Some(&self.records[at].value),
            None => None,
        }
    }

    /// The arguments of process `pid`, if its command line was read.
    pub fn command_line(&self, pid: u32) -> (r: Option<&Vec<String>>)
        ensures
            match r {
                Some(args) => self.args_of(pid) == Some(args@),
                None => self.args_of(pid) is None,
            },
    {
        let mut i: usize = 0;
        while i < self.command_lines.len()
            invariant
                i <= self.command_lines.len(),
                command_line_from(self.command_lines@, pid, 0) == command_line_from(
                    self.command_lines@,
                    pid,
                    i as int,
                ),
            decreases self.command_lines.len() - i,
        {
            if self.command_lines[i].pid == pid {
                return Some(&self.command_lines[i].args);
            }
            i += 1;
        }
        None
    }
}

} // verus!
