//! Visual Studio Code: the command line of a process names the workspace
//! or the files, and the editor keeps a session for each workspace.

use crate::clock::now_rfc3339;
use crate::detector::{
    goes_by_any, is_known_process, names_view, DetectionError, DetectionErrorView, IDEDetector,
};
use crate::evidence::{Evidence, PathKind};
use crate::readers::session::{lemma_no_record_no_session, read_recent_files, recent_files};
use crate::resolution::{
    append_files, conclude, concluded, lemma_absorbed_covers, lemma_files_view_push,
    lemma_merge_idempotent,
};
use crate::text::{
    contains, contains_char, contains_text, ends_with, from_chars, after_char, after_first,
    starts_with, strip_prefix, texts, to_chars, without_prefix,
};
use crate::types::{
    file_at, files_view, open_file, opt_text, DetectionResult, FileInfo, FileInfoView, Findings,
    ProcessInfo, SupportedIDE,
};
use vstd::prelude::*;

verus! {

/// The names by which the processes of the editor go.
pub open spec fn vscode_names() -> Seq<Seq<char>> {
    seq!["code"@, "code-oss"@, "codium"@, "code-insiders"@, "Code"@, "Code.exe"@, "code.exe"@]
}

/// The path that an address names: the address without `file://` before
/// it.
pub open spec fn decoded_uri(uri: Seq<char>) -> Seq<char> {
    without_prefix(uri, "file://"@)
}

/// Whether `path` is the editor's own or a build product and no file of
/// the user: a path into the extensions of the editor, into a cache of
/// extensions or into a directory of dependencies, or a script of a server
/// or a bundle.
pub open spec fn is_noise(path: Seq<char>) -> bool {
    ||| contains_text(path, "/.vscode/extensions/"@)
    ||| contains_text(path, "/resources/app/extensions/"@)
    ||| contains_text(path, "/CachedExtension"@)
    ||| contains_text(path, "node_modules"@)
    ||| (".js"@.is_suffix_of(path) && (contains_text(path, "server"@) || contains_text(
        path,
        "bundle"@,
    )))
}

/// Whether an argument is the option that gives the address of a folder.
pub open spec fn is_folder_flag(arg: Seq<char>) -> bool {
    "--folder-uri"@.is_prefix_of(arg)
}

/// Whether an argument is the option that gives the address of a file.
pub open spec fn is_file_flag(arg: Seq<char>) -> bool {
    "--file-uri"@.is_prefix_of(arg)
}

/// What a command line has given: the workspace, and the files.
pub type Given = (Option<Seq<char>>, Seq<FileInfoView>);

/// What is given after an address: of a folder the workspace, of a file
/// one more file.
pub open spec fn with_uri(given: Given, folder: bool, uri: Seq<char>) -> Given {
    if folder {
        (Some(decoded_uri(uri)), given.1)
    } else {
        (given.0, given.1.push(file_at(decoded_uri(uri), false)))
    }
}

/// What is given after an argument that is no address option. An option
/// gives nothing, nor an argument without a `/`, nor noise. Else the
/// argument, without `file://` before it, gives the workspace if it names
/// a directory, one more file if it names something else, and nothing if
/// it names nothing.
pub open spec fn with_path(given: Given, arg: Seq<char>, evidence: Evidence) -> Given {
    let path = without_prefix(arg, "file://"@);
    if (arg.len() > 0 && arg.first() == '-') || !arg.contains('/') || is_noise(path) {
        given
    } else if evidence.kind_at(path) == PathKind::Dir {
        (Some(path), given.1)
    } else if evidence.kind_at(path) != PathKind::Missing {
        (given.0, given.1.push(file_at(path, false)))
    } else {
        given
    }
}

/// What is given after the arguments at and after position `from`, read
/// one after the other. The address of an address option is all that
/// follows its first `=`; without a `=` it is the next argument, which is
/// then not read again.
pub open spec fn given_from(
    args: Seq<Seq<char>>,
    evidence: Evidence,
    from: int,
    given: Given,
) -> Given
    decreases args.len() - from,
{
    if from < 1 || from >= args.len() {
        given
    } else if is_folder_flag(args[from]) || is_file_flag(args[from]) {
        if args[from].contains('=') {
            given_from(
                args,
                evidence,
                from + 1,
                with_uri(given, is_folder_flag(args[from]), after_char(args[from], '=')),
            )
        } else if from + 1 < args.len() {
            given_from(
                args,
                evidence,
                from + 2,
                with_uri(given, is_folder_flag(args[from]), args[from + 1]),
            )
        } else {
            given
        }
    } else {
        given_from(args, evidence, from + 1, with_path(given, args[from], evidence))
    }
}

/// What a command line gives: the workspace, empty where it names none,
/// and the files; `None` where it names neither.
pub open spec fn command_info(args: Seq<Seq<char>>, evidence: Evidence) -> Option<
    (Seq<char>, Seq<FileInfoView>),
> {
    let given = given_from(args, evidence, 1, (None, Seq::empty()));
    match given.0 {
        Some(workspace) => Some((workspace, given.1)),
        None => if given.1.len() > 0 {
            Some((Seq::empty(), given.1))
        } else {
            None
        },
    }
}

/// What is known after a process was looked at: the workspace, and the
/// files that the command lines gave so far. The first command line that
/// names a workspace gives the workspace.
pub open spec fn after_process(given: Given, process: ProcessInfo, evidence: Evidence) -> Given {
    match evidence.args_of(process.pid) {
        Some(args) => match command_info(texts(args), evidence) {
            Some((workspace, files)) => (
                if workspace.len() > 0 && given.0 is None {
                    Some(workspace)
                } else {
                    given.0
                },
                given.1 + files,
            ),
            None => given,
        },
        None => given,
    }
}

/// What is known after `processes` were looked at, in order.
pub open spec fn after_processes(processes: Seq<ProcessInfo>, evidence: Evidence) -> Given
    decreases processes.len(),
{
    if processes.len() == 0 {
        (None, Seq::empty())
    } else {
        after_process(after_processes(processes.drop_last(), evidence), processes.last(), evidence)
    }
}

/// What the detector returns, apart from the time. Where the command lines
/// name files, these are the files. Else the files are those of the
/// session of the workspace, or the guess at them, and the session gives
/// the workspace where no command line did.
pub open spec fn vscode_outcome(processes: Seq<ProcessInfo>, evidence: Evidence) -> Result<
    Findings,
    DetectionErrorView,
> {
    let given = after_processes(processes, evidence);
    if given.1.len() > 0 {
        concluded(
            SupportedIDE::VSCode.label(),
            given.1,
            given.0,
            "No workspace or files detected for VSCode"@,
        )
    } else {
        let recent = recent_files(
            evidence,
            match given.0 {
                Some(workspace) => workspace,
                None => Seq::empty(),
            },
        );
        concluded(
            SupportedIDE::VSCode.label(),
            recent.0,
            match given.0 {
                Some(workspace) => Some(workspace),
                None => recent.1,
            },
            "No workspace or files detected for VSCode"@,
        )
    }
}

/// Whether `path` is the editor's own or a build product.
pub fn is_noise_path(path: &Vec<char>) -> (r: bool)
    ensures
        r == is_noise(path@),
{
    contains(path, &to_chars("/.vscode/extensions/")) || contains(
        path,
        &to_chars("/resources/app/extensions/"),
    ) || contains(path, &to_chars("/CachedExtension")) || contains(path, &to_chars("node_modules"))
        || (ends_with(path, &to_chars(".js")) && (contains(path, &to_chars("server")) || contains(
        path,
        &to_chars("bundle"),
    )))
}

/// The detector of Visual Studio Code.
pub struct VSCodeDetector {
    process_names: Vec<&'static str>,
}

impl VSCodeDetector {
    #[verifier::type_invariant]
    spec fn names_fit(self) -> bool {
        names_view(self.process_names@) == vscode_names()
    }

    /// The names by which the detector knows its processes.
    pub closed spec fn names(&self) -> Seq<Seq<char>> {
        names_view(self.process_names@)
    }

    /// The detector.
    pub fn new() -> (r: Self)
        ensures
            r.names() == vscode_names(),
    {
        let mut process_names: Vec<&'static str> = Vec::new();
        process_names.push("code");
        process_names.push("code-oss");
        process_names.push("codium");
        process_names.push("code-insiders");
        process_names.push("Code");
        process_names.push("Code.exe");
        process_names.push("code.exe");
        assert(names_view(process_names@) =~= vscode_names());
        Self { process_names }
    }

    /// The path that an address names.
    pub fn decode_vscode_uri(&self, uri: &str) -> (r: Option<String>)
        ensures
            opt_text(r) == Some(decoded_uri(uri@)),
    {
        Some(from_chars(&strip_prefix(&to_chars(uri), &to_chars("file://"))))
    }

    /// The file at `path`, as the editor has it open.
    pub fn create_file_info(&self, path: &str, is_active: bool) -> (r: FileInfo)
        ensures
            r@ == file_at(path@, is_active),
    {
        open_file(path, is_active)
    }

    /// The open files of the workspace at `workspace_path` and the
    /// directory of the workspace that the session names.
    pub fn get_vscode_recent_files(&self, workspace_path: &str, evidence: &Evidence) -> (r: (
        Vec<FileInfo>,
        Option<String>,
    ))
        ensures
            (files_view(r.0@), opt_text(r.1)) == recent_files(*evidence, workspace_path@),
    {
        read_recent_files(evidence, workspace_path)
    }

    /// Takes up what an address gives.
    pub fn take_uri(
        &self,
        workspace: Option<String>,
        files: &mut Vec<FileInfo>,
        folder: bool,
        uri: &str,
    ) -> (r: Option<String>)
        ensures
            (opt_text(r), files_view(final(files)@)) == with_uri(
                (opt_text(workspace), files_view(old(files)@)),
                folder,
                uri@,
            ),
    {
        match self.decode_vscode_uri(uri) {
            Some(path) => {
                if folder {
                    Some(path)
                } else {
                    let file = self.create_file_info(path.as_str(), false);
                    proof {
                        lemma_files_view_push(files@, file);
                    }
                    files.push(file);
                    workspace
                }
            },
            None => workspace,
        }
    }

    /// Takes up what an argument gives that is no address option.
    pub fn take_path(
        &self,
        workspace: Option<String>,
        files: &mut Vec<FileInfo>,
        arg: &str,
        evidence: &Evidence,
    ) -> (r: Option<String>)
        ensures
            (opt_text(r), files_view(final(files)@)) == with_path(
                (opt_text(workspace), files_view(old(files)@)),
                arg@,
                *evidence,
            ),
    {
        let chars = to_chars(arg);
        if (chars.len() > 0 && chars[0] == '-') || !contains_char(&chars, '/') {
            return workspace;
        }
        let path = strip_prefix(&chars, &to_chars("file://"));
        if is_noise_path(&path) {
            return workspace;
        }
        let path = from_chars(&path);
        match evidence.kind_of(path.as_str()) {
            PathKind::Dir => Some(path),
            PathKind::File => {
                let file = self.create_file_info(path.as_str(), false);
                proof {
                    lemma_files_view_push(files@, file);
                }
                files.push(file);
                workspace
            },
            PathKind::Missing => workspace,
        }
    }

    /// What a command line gives: the workspace, empty where it names
    /// none, and the files; `None` where it names neither.
    pub fn extract_vscode_info(&self, cmdline: &[String], evidence: &Evidence) -> (r: Option<
        (String, Vec<FileInfo>),
    >)
        ensures
            match r {
                Some((workspace, files)) => command_info(texts(cmdline@), *evidence) == Some(
                    (workspace@, files_view(files@)),
                ),
                None => command_info(texts(cmdline@), *evidence) is None,
            },
    {
        let mut workspace: Option<String> = None;
        let mut files: Vec<FileInfo> = Vec::new();
        assert(files_view(files@) == Seq::<FileInfoView>::empty());
        let ghost args = texts(cmdline@);
        let mut i: usize = 1;
        while i < cmdline.len()
            invariant
                1 <= i,
                args == texts(cmdline@),
                given_from(args, *evidence, 1, (None, Seq::empty())) == given_from(
                    args,
                    *evidence,
                    i as int,
                    (opt_text(workspace), files_view(files@)),
                ),
            decreases cmdline.len() - i,
        {
            let arg = to_chars(cmdline[i].as_str());
            assert(args[i as int] == arg@);
            let folder = starts_with(&arg, &to_chars("--folder-uri"));
            if folder || starts_with(&arg, &to_chars("--file-uri")) {
                if contains_char(&arg, '=') {
                    let uri = from_chars(&after_first(&arg, '='));
                    workspace = self.take_uri(workspace, &mut files, folder, uri.as_str());
                } else if i + 1 < cmdline.len() {
                    i += 1;
                    assert(args[i as int] == cmdline@[i as int]@);
                    workspace = self.take_uri(workspace, &mut files, folder, cmdline[i].as_str());
                }
            } else {
                workspace = self.take_path(workspace, &mut files, cmdline[i].as_str(), evidence);
            }
            i += 1;
        }
        proof {
            reveal_strlit("");
            assert(""@ == Seq::<char>::empty());
        }
        match workspace {
            Some(workspace) => Some((workspace, files)),
            None => if files.len() > 0 {
                Some((String::from_str(""), files))
            } else {
                None
            },
        }
    }

    /// What is known after `process` was looked at.
    pub fn look_at_process(
        &self,
        workspace: Option<String>,
        files: &mut Vec<FileInfo>,
        process: &ProcessInfo,
        evidence: &Evidence,
    ) -> (r: Option<String>)
        ensures
            (opt_text(r), files_view(final(files)@)) == after_process(
                (opt_text(workspace), files_view(old(files)@)),
                *process,
                *evidence,
            ),
    {
        let args = match evidence.command_line(process.pid) {
            Some(args) => args,
            None => {
                return workspace;
            },
        };
        match self.extract_vscode_info(args.as_slice(), evidence) {
            Some((named, named_files)) => {
                append_files(files, named_files);
                if named.as_str().unicode_len() > 0 && workspace.is_none() {
                    Some(named)
                } else {
                    workspace
                }
            },
            None => workspace,
        }
    }
}

impl IDEDetector for VSCodeDetector {
    open spec fn editor(&self) -> SupportedIDE {
        SupportedIDE::VSCode
    }

    open spec fn targets(&self, process: ProcessInfo) -> bool {
        goes_by_any(process, vscode_names())
    }

    open spec fn outcome(&self, processes: Seq<ProcessInfo>, evidence: Evidence) -> Result<
        Findings,
        DetectionErrorView,
    > {
        vscode_outcome(processes, evidence)
    }

    fn ide_type(&self) -> (r: SupportedIDE) {
        SupportedIDE::VSCode
    }

    fn is_target_process(&self, process: &ProcessInfo) -> (r: bool) {
        proof {
            use_type_invariant(self);
        }
        is_known_process(process, &self.process_names)
    }

    fn extract_files(&self, processes: &[ProcessInfo], evidence: &Evidence) -> (r: Result<
        DetectionResult,
        DetectionError,
    >) {
        let mut all_files: Vec<FileInfo> = Vec::new();
        let mut project_path: Option<String> = None;
        let mut i: usize = 0;
        assert(processes@.take(0) == Seq::<ProcessInfo>::empty());
        assert(files_view(all_files@) == Seq::<FileInfoView>::empty());
        while i < processes.len()
            invariant
                i <= processes.len(),
                (opt_text(project_path), files_view(all_files@)) == after_processes(
                    processes@.take(i as int),
                    *evidence,
                ),
            decreases processes.len() - i,
        {
            assert(processes@.take(i + 1).drop_last() == processes@.take(i as int));
            project_path = self.look_at_process(
                project_path,
                &mut all_files,
                &processes[i],
                evidence,
            );
            i += 1;
        }
        assert(processes@.take(processes.len() as int) == processes@);
        assert(files_view(all_files@).len() == all_files@.len());
        if all_files.len() == 0 {
            proof {
                reveal_strlit("");
                assert(""@ == Seq::<char>::empty());
            }
            let (session_files, detected) = match &project_path {
                Some(workspace) => read_recent_files(evidence, workspace.as_str()),
                None => read_recent_files(evidence, ""),
            };
            if project_path.is_none() {
                project_path = detected;
            }
            all_files = session_files;
        }
        conclude(
            self.display_name(),
            &all_files,
            project_path,
            String::from_str("No workspace or files detected for VSCode"),
            now_rfc3339(),
        )
    }
}

/// A detection does not depend on the session being readable. Where the
/// command lines name files, the detection rests on them alone, and it
/// succeeds if one of them has a path. Where they name none and no database
/// could be queried, the detection rests on the guess: it fails with
/// `WindowParseError` where the directory of the workspace was not listed.
pub proof fn lemma_session_unavailable(processes: Seq<ProcessInfo>, evidence: Evidence)
    ensures
        after_processes(processes, evidence).1.len() > 0 ==> vscode_outcome(processes, evidence)
            == concluded(
            SupportedIDE::VSCode.label(),
            after_processes(processes, evidence).1,
            after_processes(processes, evidence).0,
            "No workspace or files detected for VSCode"@,
        ),
        (exists|k: int|
            0 <= k < after_processes(processes, evidence).1.len() && (#[trigger] after_processes(
                processes,
                evidence,
            ).1[k]).path.len() > 0) ==> vscode_outcome(processes, evidence) is Ok,
        after_processes(processes, evidence).1.len() == 0 && evidence.records@.len() == 0
            && evidence.entries_at(
            match after_processes(processes, evidence).0 {
                Some(workspace) => workspace,
                None => Seq::empty(),
            },
        ) is None ==> vscode_outcome(processes, evidence) == Err::<Findings, DetectionErrorView>(
            DetectionErrorView::WindowParseError {
                message: "No workspace or files detected for VSCode"@,
            },
        ),
{
    let given = after_processes(processes, evidence);
    if exists|k: int| 0 <= k < given.1.len() && (#[trigger] given.1[k]).path.len() > 0 {
        let k = choose|k: int| 0 <= k < given.1.len() && (#[trigger] given.1[k]).path.len() > 0;
        lemma_absorbed_covers(Seq::empty(), given.1, k);
    }
    if given.1.len() == 0 && evidence.records@.len() == 0 {
        lemma_no_record_no_session(
            evidence,
            match given.0 {
                Some(workspace) => workspace,
                None => Seq::empty(),
            },
        );
    }
}

/// The workspace that the command line of `process` names.
pub open spec fn named_workspace(process: ProcessInfo, evidence: Evidence) -> Option<Seq<char>> {
    match evidence.args_of(process.pid) {
        Some(args) => match command_info(texts(args), evidence) {
            Some((workspace, _)) => if workspace.len() > 0 {
                Some(workspace)
            } else {
                None
            },
            None => None,
        },
        None => None,
    }
}

/// The files that the command line of `process` names.
pub open spec fn named_files(process: ProcessInfo, evidence: Evidence) -> Seq<FileInfoView> {
    match evidence.args_of(process.pid) {
        Some(args) => match command_info(texts(args), evidence) {
            Some((_, files)) => files,
            None => Seq::empty(),
        },
        None => Seq::empty(),
    }
}

/// The workspace that the first of the command lines with a workspace
/// names.
pub open spec fn first_workspace(processes: Seq<ProcessInfo>, evidence: Evidence) -> Option<
    Seq<char>,
>
    decreases processes.len(),
{
    if processes.len() == 0 {
        None
    } else {
        match first_workspace(processes.drop_last(), evidence) {
            Some(workspace) => Some(workspace),
            None => named_workspace(processes.last(), evidence),
        }
    }
}

/// The files that the command lines name, in the order of the processes.
pub open spec fn all_named_files(processes: Seq<ProcessInfo>, evidence: Evidence) -> Seq<
    FileInfoView,
>
    decreases processes.len(),
{
    if processes.len() == 0 {
        Seq::empty()
    } else {
        all_named_files(processes.drop_last(), evidence) + named_files(processes.last(), evidence)
    }
}

/// What is known after the processes were looked at, said at once: the
/// workspace is that of the first command line that names one, and the
/// files are those that the command lines name.
pub proof fn lemma_after_processes(processes: Seq<ProcessInfo>, evidence: Evidence)
    ensures
        after_processes(processes, evidence) == (
            first_workspace(processes, evidence),
            all_named_files(processes, evidence),
        ),
    decreases processes.len(),
{
    if processes.len() > 0 {
        lemma_after_processes(processes.drop_last(), evidence);
        assert(all_named_files(processes.drop_last(), evidence) + Seq::<FileInfoView>::empty()
            == all_named_files(processes.drop_last(), evidence));
    }
}

/// What the command lines of two lists of processes name, one list after
/// the other.
pub proof fn lemma_processes_concat(a: Seq<ProcessInfo>, b: Seq<ProcessInfo>, evidence: Evidence)
    ensures
        all_named_files(a + b, evidence) == all_named_files(a, evidence) + all_named_files(
            b,
            evidence,
        ),
        first_workspace(a + b, evidence) == match first_workspace(a, evidence) {
            Some(workspace) => Some(workspace),
            None => first_workspace(b, evidence),
        },
    decreases b.len(),
{
    if b.len() == 0 {
        assert(a + b == a);
        assert(all_named_files(a, evidence) + Seq::<FileInfoView>::empty() == all_named_files(
            a,
            evidence,
        ));
    } else {
        assert((a + b).drop_last() == a + b.drop_last());
        lemma_processes_concat(a, b.drop_last(), evidence);
        assert((all_named_files(a, evidence) + all_named_files(b.drop_last(), evidence))
            + named_files(b.last(), evidence) == all_named_files(a, evidence) + (all_named_files(
            b.drop_last(),
            evidence,
        ) + named_files(b.last(), evidence)));
    }
}

/// A detection does not depend on how often a process is listed: the same
/// processes listed twice give what they give listed once.
pub proof fn lemma_repeated_processes(processes: Seq<ProcessInfo>, evidence: Evidence)
    ensures
        vscode_outcome(processes + processes, evidence) == vscode_outcome(processes, evidence),
{
    lemma_after_processes(processes, evidence);
    lemma_after_processes(processes + processes, evidence);
    lemma_processes_concat(processes, processes, evidence);
    lemma_merge_idempotent(all_named_files(processes, evidence));
}

} // verus!
