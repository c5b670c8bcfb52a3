//! Editors that run in a terminal and are started with the file to edit as
//! an argument.

use crate::clock::now_rfc3339;
use crate::detector::{
    goes_by_any, is_known_process, names_view, DetectionError, DetectionErrorView, IDEDetector,
};
use crate::evidence::{Evidence, PathKind};
use crate::resolution::{conclude, concluded, lemma_files_view_push, lemma_merge_idempotent};
use crate::text::{base_name, basename, from_chars, join_path, joined, texts, to_chars};
use crate::types::{
    files_view, opt_text, DetectionResult, FileInfo, FileInfoView, Findings, ProcessInfo,
    SupportedIDE,
};
use vstd::prelude::*;

verus! {

/// The names by which the processes of a terminal editor go.
pub open spec fn terminal_names(kind: SupportedIDE) -> Seq<Seq<char>> {
    match kind {
        SupportedIDE::Vim => seq!["vim"@, "nvim"@, "gvim"@],
        SupportedIDE::Nano => seq!["nano"@],
        _ => Seq::empty(),
    }
}

/// The first argument at or after position `from`, and after the name of
/// the program, that is not empty and does not begin with `-`.
pub open spec fn file_argument_from(args: Seq<Seq<char>>, from: int) -> Option<Seq<char>>
    decreases args.len() - from,
{
    if from < 1 || from >= args.len() {
        None
    } else if args[from].len() > 0 && args[from].first() != '-' {
        Some(args[from])
    } else {
        file_argument_from(args, from + 1)
    }
}

/// `path` as an absolute path: itself where it starts at the root or the
/// working directory is not known, and else joined to the working directory.
pub open spec fn absolute(path: Seq<char>, working_dir: Option<Seq<char>>) -> Seq<char> {
    if path.len() > 0 && path.first() == '/' {
        path
    } else {
        match working_dir {
            Some(dir) => joined(dir, path),
            None => path,
        }
    }
}

/// The file that a command line of the editor `kind` names: its first file
/// argument, made absolute and marked active.
pub open spec fn command_file(
    kind: SupportedIDE,
    args: Seq<Seq<char>>,
    working_dir: Option<Seq<char>>,
) -> Option<FileInfoView> {
    if kind == SupportedIDE::Vim || kind == SupportedIDE::Nano {
        match file_argument_from(args, 1) {
            Some(arg) => Some(
                FileInfoView {
                    path: absolute(arg, working_dir),
                    name: base_name(absolute(arg, working_dir)),
                    is_active: true,
                    is_modified: false,
                    tab_index: Some(0),
                    project_name: None,
                },
            ),
            None => None,
        }
    } else {
        None
    }
}

/// The file that `process` has open: the file that its command line names,
/// if the command line was read and the file exists.
pub open spec fn process_file(
    kind: SupportedIDE,
    process: ProcessInfo,
    evidence: Evidence,
) -> Option<
    FileInfoView,
> {
    match evidence.args_of(process.pid) {
        Some(args) => match command_file(kind, texts(args), opt_text(evidence.working_dir)) {
            Some(file) => if evidence.kind_at(file.path) != PathKind::Missing {
                Some(file)
            } else {
                None
            },
            None => None,
        },
        None => None,
    }
}

/// The files that `processes` have open, in the order of the processes.
pub open spec fn found_files(
    kind: SupportedIDE,
    processes: Seq<ProcessInfo>,
    evidence: Evidence,
) -> Seq<
    FileInfoView,
>
    decreases processes.len(),
{
    if processes.len() == 0 {
        Seq::empty()
    } else {
        match process_file(kind, processes.last(), evidence) {
            Some(file) => found_files(kind, processes.drop_last(), evidence).push(file),
            None => found_files(kind, processes.drop_last(), evidence),
        }
    }
}

/// What a terminal editor's detector returns, apart from the time.
pub open spec fn terminal_outcome(
    kind: SupportedIDE,
    processes: Seq<ProcessInfo>,
    evidence: Evidence,
) -> Result<
    Findings,
    DetectionErrorView,
> {
    concluded(
        kind.label(),
        found_files(kind, processes, evidence),
        None,
        "No valid files found in "@ + kind.label() + " processes"@,
    )
}

/// The detector of a terminal editor.
pub struct TerminalEditorDetector {
    ide_type: SupportedIDE,
    process_names: Vec<&'static str>,
}

impl TerminalEditorDetector {
    #[verifier::type_invariant]
    spec fn names_fit(self) -> bool {
        names_view(self.process_names@) == terminal_names(self.ide_type)
    }

    /// The editor that the detector is for.
    pub closed spec fn kind(&self) -> SupportedIDE {
        self.ide_type
    }

    /// The names by which the detector knows its processes.
    pub closed spec fn names(&self) -> Seq<Seq<char>> {
        names_view(self.process_names@)
    }

    /// The detector of the editor `ide_type`. For an editor that does not
    /// run in a terminal it matches no process.
    pub fn new(ide_type: SupportedIDE) -> (r: Self)
        ensures
            r.kind() == ide_type,
            r.names() == terminal_names(ide_type),
    {
        let mut process_names: Vec<&'static str> = Vec::new();
        match ide_type {
            SupportedIDE::Vim => {
                process_names.push("vim");
                process_names.push("nvim");
                process_names.push("gvim");
            },
            SupportedIDE::Nano => {
                process_names.push("nano");
            },
            _ => {},
        }
        assert(names_view(process_names@) =~= terminal_names(ide_type));
        Self { ide_type, process_names }
    }

    /// The file that a command line names.
    pub fn extract_file_from_cmdline(&self, cmdline: &[String], working_dir: &Option<String>) -> (r:
        Option<FileInfo>)
        ensures
            match r {
                Some(file) => command_file(self.kind(), texts(cmdline@), opt_text(*working_dir))
                    == Some(file@),
                None => command_file(self.kind(), texts(cmdline@), opt_text(*working_dir)) is None,
            },
    {
        match self.ide_type {
            SupportedIDE::Vim | SupportedIDE::Nano => {},
            _ => {
                return None;
            },
        }
        let mut i: usize = 1;
        while i < cmdline.len()
            invariant
                1 <= i,
                self.kind() == SupportedIDE::Vim || self.kind() == SupportedIDE::Nano,
                file_argument_from(texts(cmdline@), 1) == file_argument_from(
                    texts(cmdline@),
                    i as int,
                ),
            decreases cmdline.len() - i,
        {
            let arg = to_chars(cmdline[i].as_str());
            assert(texts(cmdline@)[i as int] == arg@);
            if arg.len() > 0 && arg[0] != '-' {
                let path = if arg[0] == '/' {
                    arg
                } else {
                    match working_dir {
                        Some(dir) => join_path(&to_chars(dir.as_str()), &arg),
                        None => arg,
                    }
                };
                let name = basename(&path);
                return Some(
                    FileInfo {
                        path: from_chars(&path),
                        name: from_chars(&name),
                        is_active: true,
                        is_modified: false,
                        tab_index: Some(0),
                        project_name: None,
                    },
                );
            }
            i += 1;
        }
        None
    }

    /// Whether something exists at `path`.
    pub fn file_exists(&self, path: &str, evidence: &Evidence) -> (r: bool)
        ensures
            r == (evidence.kind_at(path@) != PathKind::Missing),
    {
        evidence.kind_of(path) != PathKind::Missing
    }

    /// The file that `process` has open.
    pub fn file_of_process(
        &self,
        process: &ProcessInfo,
        evidence: &Evidence,
    ) -> (r: Option<FileInfo>)
        ensures
            match r {
                Some(file) => process_file(self.kind(), *process, *evidence) == Some(file@),
                None => process_file(self.kind(), *process, *evidence) is None,
            },
    {
        match evidence.command_line(process.pid) {
            Some(args) => match self.extract_file_from_cmdline(
                args.as_slice(),
                &evidence.working_dir,
            ) {
                Some(file) => if self.file_exists(file.path.as_str(), evidence) {
                    Some(file)
                } else {
                    None
                },
                None => None,
            },
            None => None,
        }
    }
}

impl IDEDetector for TerminalEditorDetector {
    open spec fn editor(&self) -> SupportedIDE {
        self.kind()
    }

    open spec fn targets(&self, process: ProcessInfo) -> bool {
        goes_by_any(process, terminal_names(self.kind()))
    }

    open spec fn outcome(&self, processes: Seq<ProcessInfo>, evidence: Evidence) -> Result<
        Findings,
        DetectionErrorView,
    > {
        terminal_outcome(self.kind(), processes, evidence)
    }

    fn ide_type(&self) -> (r: SupportedIDE) {
        self.ide_type
    }

    fn is_target_process(&self, process: &ProcessInfo) -> (r: bool) {
        proof {
            use_type_invariant(self);
        }
        is_known_process(process, &self.process_names)
    }

    fn extract_files(&self, processes: &[ProcessInfo], evidence: &Evidence) -> (r: Result<
        DetectionResult,
        DetectionError,
    >) {
        let mut found: Vec<FileInfo> = Vec::new();
        let mut i: usize = 0;
        assert(processes@.take(0) == Seq::<ProcessInfo>::empty());
        assert(files_view(found@) == Seq::<FileInfoView>::empty());
        while i < processes.len()
            invariant
                i <= processes.len(),
                files_view(found@) == found_files(
                    self.kind(),
                    processes@.take(i as int),
                    *evidence,
                ),
            decreases processes.len() - i,
        {
            assert(processes@.take(i + 1).drop_last() == processes@.take(i as int));
            match self.file_of_process(&processes[i], evidence) {
                Some(file) => {
                    proof {
                        lemma_files_view_push(found@, file);
                    }
                    found.push(file);
                },
                None => {},
            }
            i += 1;
        }
        assert(processes@.take(processes.len() as int) == processes@);
        let mut failure = String::from_str("No valid files found in ");
        failure.append(self.display_name());
        failure.append(" processes");
        conclude(self.display_name(), &found, None, failure, now_rfc3339())
    }
}

/// No file is reported that does not exist: every file that the processes
/// have open was observed to be there, and is marked active.
pub proof fn lemma_found_files_exist(
    kind: SupportedIDE,
    processes: Seq<ProcessInfo>,
    evidence: Evidence,
)
    ensures
        forall|k: int|
            0 <= k < found_files(kind, processes, evidence).len() ==> {
                &&& evidence.kind_at((#[trigger] found_files(kind, processes, evidence)[k]).path)
                    != PathKind::Missing
                &&& found_files(kind, processes, evidence)[k].is_active
            },
    decreases processes.len(),
{
    if processes.len() > 0 {
        lemma_found_files_exist(kind, processes.drop_last(), evidence);
    }
}

/// The files of two lists of processes, one list after the other.
pub proof fn lemma_found_files_concat(
    kind: SupportedIDE,
    a: Seq<ProcessInfo>,
    b: Seq<ProcessInfo>,
    evidence: Evidence,
)
    ensures
        found_files(kind, a + b, evidence) == found_files(kind, a, evidence) + found_files(
            kind,
            b,
            evidence,
        ),
    decreases b.len(),
{
    if b.len() == 0 {
        assert(a + b == a);
        assert(found_files(kind, a, evidence) + Seq::<FileInfoView>::empty() == found_files(
            kind,
            a,
            evidence,
        ));
    } else {
        assert((a + b).drop_last() == a + b.drop_last());
        lemma_found_files_concat(kind, a, b.drop_last(), evidence);
        match process_file(kind, b.last(), evidence) {
            Some(file) => {
                assert((found_files(kind, a, evidence) + found_files(
                    kind,
                    b.drop_last(),
                    evidence,
                )).push(file) == found_files(kind, a, evidence) + found_files(
                    kind,
                    b.drop_last(),
                    evidence,
                ).push(file));
            },
            None => {},
        }
    }
}

/// A detection does not depend on how often a process is listed: the same
/// processes listed twice give what they give listed once.
pub proof fn lemma_repeated_processes(
    kind: SupportedIDE,
    processes: Seq<ProcessInfo>,
    evidence: Evidence,
)
    ensures
        terminal_outcome(kind, processes + processes, evidence) == terminal_outcome(
            kind,
            processes,
            evidence,
        ),
{
    lemma_found_files_concat(kind, processes, processes, evidence);
    lemma_merge_idempotent(found_files(kind, processes, evidence));
}

} // verus!
