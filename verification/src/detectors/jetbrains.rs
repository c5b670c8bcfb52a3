//! The editors of the JetBrains family: the title of the window names the
//! file and the project, and the project directory keeps the open tabs.

use crate::clock::now_rfc3339;
use crate::detector::{
    goes_by_any, is_known_process, names_view, DetectionError, DetectionErrorView, IDEDetector,
};
use crate::evidence::{Evidence, PathKind};
use crate::readers::project_state::{read_recent_files, recent_files};
use crate::readers::project_search::{find_project_path, project_path_found};
use crate::readers::title::{
    lemma_title_parsed_from, parse_window_title, path_in_project, place_in_project, title_parsed,
};
use crate::resolution::{
    append_files, conclude, concluded, lemma_absorbed_concat, lemma_absorbed_covers,
    lemma_files_view_push, lemma_merge_idempotent, merge_files, merged,
};
use crate::text::{texts, to_chars};
use crate::types::{
    files_view, opt_text, DetectionResult, FileInfo, FileInfoView, Findings, ProcessInfo,
    SupportedIDE,
};
use vstd::prelude::*;

verus! {

/// The names by which the processes of an editor of the family go.
pub open spec fn jetbrains_names(kind: SupportedIDE) -> Seq<Seq<char>> {
    match kind {
        SupportedIDE::GoLand => seq!["goland"@, "goland.exe"@, "goland64.exe"@],
        SupportedIDE::PyCharm => seq!["pycharm"@, "pycharm.exe"@, "pycharm64.exe"@],
        SupportedIDE::IntelliJIDEA => seq!["idea"@, "idea.exe"@, "idea64.exe"@],
        SupportedIDE::WebStorm => seq!["webstorm"@, "webstorm.exe"@, "webstorm64.exe"@],
        SupportedIDE::PhpStorm => seq!["phpstorm"@, "phpstorm.exe"@, "phpstorm64.exe"@],
        SupportedIDE::RubyMine => seq!["rubymine"@, "rubymine.exe"@, "rubymine64.exe"@],
        SupportedIDE::CLion => seq!["clion"@, "clion.exe"@, "clion64.exe"@],
        _ => Seq::empty(),
    }
}

/// The detector of one editor of the JetBrains family.
pub struct JetBrainsDetector {
    ide_type: SupportedIDE,
    process_names: Vec<&'static str>,
}

impl JetBrainsDetector {
    #[verifier::type_invariant]
    spec fn names_fit(self) -> bool {
        names_view(self.process_names@) == jetbrains_names(self.ide_type)
    }

    /// The editor that the detector is for.
    pub closed spec fn kind(&self) -> SupportedIDE {
        self.ide_type
    }

    /// The names by which the detector knows its processes.
    pub closed spec fn names(&self) -> Seq<Seq<char>> {
        names_view(self.process_names@)
    }

    /// The detector of the editor `ide_type`. For an editor of another
    /// family it matches no process.
    pub fn new(ide_type: SupportedIDE) -> (r: Self)
        ensures
            r.kind() == ide_type,
            r.names() == jetbrains_names(ide_type),
    {
        let mut process_names: Vec<&'static str> = Vec::new();
        match ide_type {
            SupportedIDE::GoLand => {
                process_names.push("goland");
                process_names.push("goland.exe");
                process_names.push("goland64.exe");
            },
            SupportedIDE::PyCharm => {
                process_names.push("pycharm");
                process_names.push("pycharm.exe");
                process_names.push("pycharm64.exe");
            },
            SupportedIDE::IntelliJIDEA => {
                process_names.push("idea");
                process_names.push("idea.exe");
                process_names.push("idea64.exe");
            },
            SupportedIDE::WebStorm => {
                process_names.push("webstorm");
                process_names.push("webstorm.exe");
                process_names.push("webstorm64.exe");
            },
            SupportedIDE::PhpStorm => {
                process_names.push("phpstorm");
                process_names.push("phpstorm.exe");
                process_names.push("phpstorm64.exe");
            },
            SupportedIDE::RubyMine => {
                process_names.push("rubymine");
                process_names.push("rubymine.exe");
                process_names.push("rubymine64.exe");
            },
            SupportedIDE::CLion => {
                process_names.push("clion");
                process_names.push("clion.exe");
                process_names.push("clion64.exe");
            },
            _ => {},
        }
        assert(names_view(process_names@) =~= jetbrains_names(ide_type));
        Self { ide_type, process_names }
    }

    /// The file that the window title `title` names, with the directory of
    /// its project where the title gives it; `None` where the title names
    /// no file. The title alone decides the result.
    pub fn parse_jetbrains_window_title(&self, title: &str) -> (r: Option<
        (FileInfo, Option<String>),
    >)
        ensures
            match r {
                Some((file, project_path)) => title_parsed(title@) == Some(
                    (file@, opt_text(project_path)),
                ),
                None => title_parsed(title@) is None,
            },
    {
        parse_window_title(title)
    }

    /// Puts the file of a title in its place.
    pub fn place_title_file(
        &self,
        file: FileInfo,
        project_path: Option<String>,
        evidence: &Evidence,
    ) -> (r: (FileInfo, Option<String>))
        ensures
            (r.0@, opt_text(r.1)) == placed((file@, opt_text(project_path)), *evidence),
    {
        if project_path.is_some() {
            return (file, project_path);
        }
        let found = match &file.project_name {
            Some(project) => find_project_path(evidence, project.as_str()),
            None => None,
        };
        match found {
            Some(dir) => {
                let path = place_in_project(dir.as_str(), file.name.as_str());
                (
                    FileInfo {
                        path,
                        name: file.name,
                        is_active: file.is_active,
                        is_modified: file.is_modified,
                        tab_index: file.tab_index,
                        project_name: file.project_name,
                    },
                    Some(dir),
                )
            },
            None => (file, project_path),
        }
    }
}


/// The first argument at or after position `from`, and after the name of
/// the program, that does not begin with `-` and names a directory.
pub open spec fn project_argument_from(
    args: Seq<Seq<char>>,
    evidence: Evidence,
    from: int,
) -> Option<
    Seq<char>,
>
    decreases args.len() - from,
{
    if from < 1 || from >= args.len() {
        None
    } else if !(args[from].len() > 0 && args[from].first() == '-') && evidence.kind_at(args[from])
        == PathKind::Dir {
        Some(args[from])
    } else {
        project_argument_from(args, evidence, from + 1)
    }
}

/// The file of a title in its place. Where the title gave no directory,
/// the directory of the project is searched for by the name of the
/// project; if it is found, it is the directory of the project, and the
/// path of the file is its place in that directory.
pub open spec fn placed(parsed: (FileInfoView, Option<Seq<char>>), evidence: Evidence) -> (
    FileInfoView,
    Option<Seq<char>>,
) {
    match (parsed.1, parsed.0.project_name) {
        (None, Some(project)) => match project_path_found(evidence, project) {
            Some(dir) => (
                FileInfoView { path: path_in_project(dir, parsed.0.name), ..parsed.0 },
                Some(dir),
            ),
            None => parsed,
        },
        _ => parsed,
    }
}

/// What the title of `process` gives: the file that it names, in its
/// place, and the directory of its project where that is known.
pub open spec fn titled(process: ProcessInfo, evidence: Evidence) -> Option<
    (FileInfoView, Option<Seq<char>>),
> {
    match title_parsed(process.window_title@) {
        Some(parsed) => Some(placed(parsed, evidence)),
        None => None,
    }
}

/// The directory of the project that the title of `process` gives.
pub open spec fn titled_directory(process: ProcessInfo, evidence: Evidence) -> Option<Seq<char>> {
    match titled(process, evidence) {
        Some((_, Some(dir))) => Some(dir),
        _ => None,
    }
}

/// The directory of the project that the command line of `process` names,
/// if the command line was read.
pub open spec fn argued_directory(process: ProcessInfo, evidence: Evidence) -> Option<Seq<char>> {
    match evidence.args_of(process.pid) {
        Some(args) => project_argument_from(texts(args), evidence, 1),
        None => None,
    }
}

/// What is known after a process was looked at: the files that the titles
/// gave so far, and the directory of the project. A title that names a file
/// gives that file, and the directory of its project where it is known,
/// whatever directory was known before. While no directory is known, the
/// command line of the process may give one.
pub open spec fn after_process(
    known: (Seq<FileInfoView>, Option<Seq<char>>),
    process: ProcessInfo,
    evidence: Evidence,
) -> (Seq<FileInfoView>, Option<Seq<char>>) {
    (
        match titled(process, evidence) {
            Some((file, _)) => known.0.push(file),
            None => known.0,
        },
        match titled_directory(process, evidence) {
            Some(dir) => Some(dir),
            None => match known.1 {
                Some(dir) => Some(dir),
                None => argued_directory(process, evidence),
            },
        },
    )
}

/// What is known after `processes` were looked at, in order.
pub open spec fn after_processes(processes: Seq<ProcessInfo>, evidence: Evidence) -> (
    Seq<FileInfoView>,
    Option<Seq<char>>,
)
    decreases processes.len(),
{
    if processes.len() == 0 {
        (Seq::empty(), None)
    } else {
        after_process(after_processes(processes.drop_last(), evidence), processes.last(), evidence)
    }
}

/// The files that a detection found. Where a project directory is known
/// and its state records files, these take the place of the files that the
/// titles gave; but where the titles gave a single file, counted by its
/// path, it stays, and the recorded files follow it. Else the files are those that the titles gave.
pub open spec fn found_files(processes: Seq<ProcessInfo>, evidence: Evidence) -> Seq<FileInfoView> {
    let known = after_processes(processes, evidence);
    match known.1 {
        Some(dir) => if recent_files(dir, evidence).len() == 0 {
            known.0
        } else if merged(known.0).len() == 1 {
            known.0 + recent_files(dir, evidence)
        } else {
            recent_files(dir, evidence)
        },
        None => known.0,
    }
}

/// What the detector of an editor of the family returns, apart from the
/// time.
pub open spec fn jetbrains_outcome(
    kind: SupportedIDE,
    processes: Seq<ProcessInfo>,
    evidence: Evidence,
) -> Result<
    Findings,
    DetectionErrorView,
> {
    concluded(
        kind.label(),
        found_files(processes, evidence),
        after_processes(processes, evidence).1,
        "No files detected for "@ + kind.label(),
    )
}

impl JetBrainsDetector {
    /// The directory of the project that a command line names: its first
    /// argument that is no option and names a directory.
    pub fn extract_project_from_cmdline(&self, cmdline: &[String], evidence: &Evidence) -> (r:
        Option<String>)
        ensures
            opt_text(r) == project_argument_from(texts(cmdline@), *evidence, 1),
    {
        let mut i: usize = 1;
        while i < cmdline.len()
            invariant
                1 <= i,
                project_argument_from(texts(cmdline@), *evidence, 1) == project_argument_from(
                    texts(cmdline@),
                    *evidence,
                    i as int,
                ),
            decreases cmdline.len() - i,
        {
            let arg = to_chars(cmdline[i].as_str());
            assert(texts(cmdline@)[i as int] == arg@);
            if !(arg.len() > 0 && arg[0] == '-') && evidence.kind_of(cmdline[i].as_str())
                == PathKind::Dir {
                return Some(cmdline[i].clone());
            }
            i += 1;
        }
        None
    }

    /// The open files that the state of the project at `project_path`
    /// records.
    pub fn get_jetbrains_recent_files(&self, project_path: &str, evidence: &Evidence) -> (r: Vec<
        FileInfo,
    >)
        ensures
            files_view(r@) == recent_files(project_path@, *evidence),
    {
        read_recent_files(project_path, evidence)
    }

    /// What is known after `process` was looked at.
    pub fn look_at_process(
        &self,
        files: &mut Vec<FileInfo>,
        project_path: Option<String>,
        process: &ProcessInfo,
        evidence: &Evidence,
    ) -> (r: Option<String>)
        ensures
            (files_view(final(files)@), opt_text(r)) == after_process(
                (files_view(old(files)@), opt_text(project_path)),
                *process,
                *evidence,
            ),
    {
        let mut project_path = project_path;
        match self.parse_jetbrains_window_title(process.window_title.as_str()) {
            Some((file, found)) => {
                let (file, found) = self.place_title_file(file, found, evidence);
                proof {
                    lemma_files_view_push(files@, file);
                }
                files.push(file);
                match found {
                    Some(dir) => {
                        project_path = Some(dir);
                    },
                    None => {},
                }
            },
            None => {},
        }
        if project_path.is_none() {
            match evidence.command_line(process.pid) {
                Some(args) => {
                    project_path = self.extract_project_from_cmdline(args.as_slice(), evidence);
                },
                None => {},
            }
        }
        project_path
    }
}

impl JetBrainsDetector {
    /// What is known after `processes` were looked at: the files that
    /// their titles gave, and the directory of the project.
    pub fn titles_and_project(&self, processes: &[ProcessInfo], evidence: &Evidence) -> (r: (
        Vec<FileInfo>,
        Option<String>,
    ))
        ensures
            (files_view(r.0@), opt_text(r.1)) == after_processes(processes@, *evidence),
    {
        let mut open_files: Vec<FileInfo> = Vec::new();
        let mut project_path: Option<String> = None;
        let mut i: usize = 0;
        assert(processes@.take(0) == Seq::<ProcessInfo>::empty());
        assert(files_view(open_files@) == Seq::<FileInfoView>::empty());
        while i < processes.len()
            invariant
                i <= processes.len(),
                (files_view(open_files@), opt_text(project_path)) == after_processes(
                    processes@.take(i as int),
                    *evidence,
                ),
            decreases processes.len() - i,
        {
            assert(processes@.take(i + 1).drop_last() == processes@.take(i as int));
            project_path = self.look_at_process(
                &mut open_files,
                project_path,
                &processes[i],
                evidence,
            );
            i += 1;
        }
        assert(processes@.take(processes.len() as int) == processes@);
        (open_files, project_path)
    }
}

impl IDEDetector for JetBrainsDetector {
    open spec fn editor(&self) -> SupportedIDE {
        self.kind()
    }

    open spec fn targets(&self, process: ProcessInfo) -> bool {
        goes_by_any(process, jetbrains_names(self.kind()))
    }

    open spec fn outcome(&self, processes: Seq<ProcessInfo>, evidence: Evidence) -> Result<
        Findings,
        DetectionErrorView,
    > {
        jetbrains_outcome(self.kind(), processes, evidence)
    }

    fn ide_type(&self) -> (r: SupportedIDE) {
        self.ide_type
    }

    fn is_target_process(&self, process: &ProcessInfo) -> (r: bool) {
        proof {
            use_type_invariant(self);
        }
        is_known_process(process, &self.process_names)
    }

    fn extract_files(&self, processes: &[ProcessInfo], evidence: &Evidence) -> (r: Result<
        DetectionResult,
        DetectionError,
    >) {
        let (mut open_files, project_path) = self.titles_and_project(processes, evidence);
        match &project_path {
            Some(dir) => {
                let recorded = self.get_jetbrains_recent_files(dir.as_str(), evidence);
                if recorded.len() > 0 {
                    if merge_files(&open_files).len() == 1 {
                        append_files(&mut open_files, recorded);
                    } else {
                        open_files = recorded;
                    }
                }
            },
            None => {},
        }
        let mut failure = String::from_str("No files detected for ");
        failure.append(self.display_name());
        conclude(self.display_name(), &open_files, project_path, failure, now_rfc3339())
    }
}

/// Every file that the titles gave has a path.
pub proof fn lemma_titled_files_have_paths(processes: Seq<ProcessInfo>, evidence: Evidence)
    ensures
        forall|k: int|
            0 <= k < after_processes(processes, evidence).0.len() ==> (#[trigger] after_processes(
                processes,
                evidence,
            ).0[k]).path.len() > 0,
    decreases processes.len(),
{
    if processes.len() > 0 {
        lemma_titled_files_have_paths(processes.drop_last(), evidence);
        lemma_title_parsed_from(processes.last().window_title@, 0);
    }
}

/// A detection does not depend on the state of the project being
/// readable. Where the project has no state that records a file, as when
/// none of its files of state could be read, the detection rests on the
/// titles alone: it fails with `WindowParseError` where they gave no file,
/// and succeeds with their files where they gave any.
pub proof fn lemma_state_unavailable(
    kind: SupportedIDE,
    processes: Seq<ProcessInfo>,
    evidence: Evidence,
)
    requires
        match after_processes(processes, evidence).1 {
            Some(dir) => recent_files(dir, evidence).len() == 0,
            None => true,
        },
    ensures
        jetbrains_outcome(kind, processes, evidence) == concluded(
            kind.label(),
            after_processes(processes, evidence).0,
            after_processes(processes, evidence).1,
            "No files detected for "@ + kind.label(),
        ),
        after_processes(processes, evidence).0.len() == 0 ==> jetbrains_outcome(
            kind,
            processes,
            evidence,
        ) == Err::<Findings, DetectionErrorView>(
            DetectionErrorView::WindowParseError {
                message: "No files detected for "@ + kind.label(),
            },
        ),
        after_processes(processes, evidence).0.len() > 0 ==> jetbrains_outcome(
            kind,
            processes,
            evidence,
        ) is Ok,
{
    let titled = after_processes(processes, evidence).0;
    if titled.len() > 0 {
        lemma_titled_files_have_paths(processes, evidence);
        lemma_absorbed_covers(Seq::empty(), titled, 0);
    }
}

/// The files that the titles of `processes` give, in order.
pub open spec fn titled_files(processes: Seq<ProcessInfo>, evidence: Evidence) -> Seq<FileInfoView>
    decreases processes.len(),
{
    if processes.len() == 0 {
        Seq::empty()
    } else {
        match titled(processes.last(), evidence) {
            Some((file, _)) => titled_files(processes.drop_last(), evidence).push(file),
            None => titled_files(processes.drop_last(), evidence),
        }
    }
}

/// The directory that the last of the titles with a directory gives.
pub open spec fn last_titled_directory(processes: Seq<ProcessInfo>, evidence: Evidence) -> Option<
    Seq<char>,
>
    decreases processes.len(),
{
    if processes.len() == 0 {
        None
    } else {
        match titled_directory(processes.last(), evidence) {
            Some(dir) => Some(dir),
            None => last_titled_directory(processes.drop_last(), evidence),
        }
    }
}

/// The directory that the first of the command lines with a directory
/// names.
pub open spec fn first_argued_directory(processes: Seq<ProcessInfo>, evidence: Evidence) -> Option<
    Seq<char>,
>
    decreases processes.len(),
{
    if processes.len() == 0 {
        None
    } else {
        match first_argued_directory(processes.drop_last(), evidence) {
            Some(dir) => Some(dir),
            None => argued_directory(processes.last(), evidence),
        }
    }
}

/// What is known after the processes were looked at, said at once: the
/// files are those that the titles give, and the directory of the project
/// is that of the last title that has one, and for want of such a title
/// that of the first command line that names one.
pub proof fn lemma_after_processes(processes: Seq<ProcessInfo>, evidence: Evidence)
    ensures
        after_processes(processes, evidence) == (
            titled_files(processes, evidence),
            match last_titled_directory(processes, evidence) {
                Some(dir) => Some(dir),
                None => first_argued_directory(processes, evidence),
            },
        ),
    decreases processes.len(),
{
    if processes.len() > 0 {
        lemma_after_processes(processes.drop_last(), evidence);
    }
}

/// What the titles and command lines of two lists of processes give, one
/// list after the other.
pub proof fn lemma_processes_concat(a: Seq<ProcessInfo>, b: Seq<ProcessInfo>, evidence: Evidence)
    ensures
        titled_files(a + b, evidence) == titled_files(a, evidence) + titled_files(b, evidence),
        last_titled_directory(a + b, evidence) == match last_titled_directory(b, evidence) {
            Some(dir) => Some(dir),
            None => last_titled_directory(a, evidence),
        },
        first_argued_directory(a + b, evidence) == match first_argued_directory(a, evidence) {
            Some(dir) => Some(dir),
            None => first_argued_directory(b, evidence),
        },
    decreases b.len(),
{
    if b.len() == 0 {
        assert(a + b == a);
        assert(titled_files(a, evidence) + Seq::<FileInfoView>::empty() == titled_files(
            a,
            evidence,
        ));
    } else {
        assert((a + b).drop_last() == a + b.drop_last());
        lemma_processes_concat(a, b.drop_last(), evidence);
        match titled(b.last(), evidence) {
            Some((file, _)) => {
                assert((titled_files(a, evidence) + titled_files(b.drop_last(), evidence)).push(
                    file,
                ) == titled_files(a, evidence) + titled_files(b.drop_last(), evidence).push(file));
            },
            None => {},
        }
    }
}

/// A detection does not depend on how often a process is listed: the same
/// processes listed twice give what they give listed once, the same
/// failure or the same files in the same order, each path once.
pub proof fn lemma_repeated_processes(
    kind: SupportedIDE,
    processes: Seq<ProcessInfo>,
    evidence: Evidence,
)
    ensures
        jetbrains_outcome(kind, processes + processes, evidence) == jetbrains_outcome(
            kind,
            processes,
            evidence,
        ),
{
    let files = titled_files(processes, evidence);
    lemma_after_processes(processes, evidence);
    lemma_after_processes(processes + processes, evidence);
    lemma_processes_concat(processes, processes, evidence);
    lemma_merge_idempotent(files);
    match after_processes(processes, evidence).1 {
        Some(dir) => {
            let recorded = recent_files(dir, evidence);
            lemma_absorbed_concat(Seq::empty(), files + files, recorded);
            lemma_absorbed_concat(Seq::empty(), files, recorded);
        },
        None => {},
    }
}

} // verus!
