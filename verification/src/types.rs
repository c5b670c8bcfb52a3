//! The values that a detection reads and returns.

use crate::text::{
    base_name, basename, eq_ignore_ascii_case, from_chars, same_ignoring_ascii_case, to_chars,
};
use vstd::prelude::*;

verus! {

/// The view of an optional string.
pub open spec fn opt_text(s: Option<String>) -> Option<Seq<char>> {
    match s {
        Some(s) => Some(s@),
        None => None,
    }
}

/// A copy of an optional string.
pub fn clone_opt_text(s: &Option<String>) -> (r: Option<String>)
    ensures
        opt_text(r) == opt_text(*s),
{
    match s {
        Some(s) => Some(s.clone()),
        None => None,
    }
}

/// One file that an editor has open.
#[derive(Debug)]
pub struct FileInfo {
    /// Where the file is.
    pub path: String,
    /// The last component of `path`.
    pub name: String,
    /// Whether this is the file in the focused tab.
    pub is_active: bool,
    /// Whether the editor shows unsaved changes; `false` when unknown.
    pub is_modified: bool,
    /// The position of the tab, where known.
    pub tab_index: Option<usize>,
    /// The project that the file belongs to, where known.
    pub project_name: Option<String>,
}

/// What a [`FileInfo`] holds.
pub struct FileInfoView {
    pub path: Seq<char>,
    pub name: Seq<char>,
    pub is_active: bool,
    pub is_modified: bool,
    pub tab_index: Option<usize>,
    pub project_name: Option<Seq<char>>,
}

impl View for FileInfo {
    type V = FileInfoView;

    open spec fn view(&self) -> FileInfoView {
        FileInfoView {
            path: self.path@,
            name: self.name@,
            is_active: self.is_active,
            is_modified: self.is_modified,
            tab_index: self.tab_index,
            project_name: opt_text(self.project_name),
        }
    }
}

impl Clone for FileInfo {
    fn clone(&self) -> (r: Self)
        ensures
            r@ == self@,
    {
        FileInfo {
            path: self.path.clone(),
            name: self.name.clone(),
            is_active: self.is_active,
            is_modified: self.is_modified,
            tab_index: self.tab_index,
            project_name: clone_opt_text(&self.project_name),
        }
    }
}

/// The file at `path`, as an editor has it open: its name is the last
/// component of the path.
pub open spec fn file_at(path: Seq<char>, is_active: bool) -> FileInfoView {
    FileInfoView {
        path,
        name: base_name(path),
        is_active,
        is_modified: false,
        tab_index: None,
        project_name: None,
    }
}

/// The file at `path`, as an editor has it open.
pub fn open_file(path: &str, is_active: bool) -> (r: FileInfo)
    ensures
        r@ == file_at(path@, is_active),
{
    FileInfo {
        path: String::from_str(path),
        name: from_chars(&basename(&to_chars(path))),
        is_active,
        is_modified: false,
        tab_index: None,
        project_name: None,
    }
}

/// What a sequence of files holds.
pub open spec fn files_view(files: Seq<FileInfo>) -> Seq<FileInfoView> {
    files.map_values(|f: FileInfo| f@)
}

/// What one detection found.
#[derive(Debug)]
pub struct DetectionResult {
    /// When the detection was made, in RFC 3339 form.
    pub timestamp: String,
    /// The display name of the editor.
    pub ide_name: String,
    /// The version of the editor, where known.
    pub ide_version: Option<String>,
    /// The path of the active file, if one of the open files is active.
    pub active_file: Option<String>,
    /// The open files, in the order in which they were discovered.
    pub open_files: Vec<FileInfo>,
    /// The project or workspace directory, where known.
    pub project_path: Option<String>,
}

/// What a [`DetectionResult`] holds apart from the time at which it was
/// made.
pub struct Findings {
    pub ide_name: Seq<char>,
    pub ide_version: Option<Seq<char>>,
    pub active_file: Option<Seq<char>>,
    pub open_files: Seq<FileInfoView>,
    pub project_path: Option<Seq<char>>,
}

/// What a [`DetectionResult`] holds.
pub struct DetectionResultView {
    pub timestamp: Seq<char>,
    pub findings: Findings,
}

impl View for DetectionResult {
    type V = DetectionResultView;

    open spec fn view(&self) -> DetectionResultView {
        DetectionResultView {
            timestamp: self.timestamp@,
            findings: Findings {
                ide_name: self.ide_name@,
                ide_version: opt_text(self.ide_version),
                active_file: opt_text(self.active_file),
                open_files: files_view(self.open_files@),
                project_path: opt_text(self.project_path),
            },
        }
    }
}

/// One running process, as the process source reports it.
#[derive(Debug)]
pub struct ProcessInfo {
    /// The process identifier.
    pub pid: u32,
    /// The name of the process.
    pub name: String,
    /// The title of its window; empty when it has none.
    pub window_title: String,
    /// The path of its executable; empty when unknown.
    pub executable_path: String,
}

impl Clone for ProcessInfo {
    fn clone(&self) -> (r: Self)
        ensures
            r == *self,
    {
        ProcessInfo {
            pid: self.pid,
            name: self.name.clone(),
            window_title: self.window_title.clone(),
            executable_path: self.executable_path.clone(),
        }
    }
}

/// The editors that can be detected.
#[derive(Debug, Clone, Copy, PartialEq, Eq, Structural)]
pub enum SupportedIDE {
    GoLand,
    PyCharm,
    IntelliJIDEA,
    VSCode,
    VisualStudio,
    WebStorm,
    PhpStorm,
    RubyMine,
    CLion,
    Vim,
    Nano,
}

impl SupportedIDE {
    /// The key by which the editor is named on a command line.
    pub open spec fn key(self) -> Seq<char> {
        match self {
            SupportedIDE::GoLand => "goland"@,
            SupportedIDE::PyCharm => "pycharm"@,
            SupportedIDE::IntelliJIDEA => "idea"@,
            SupportedIDE::VSCode => "vscode"@,
            SupportedIDE::VisualStudio => "vs"@,
            SupportedIDE::WebStorm => "webstorm"@,
            SupportedIDE::PhpStorm => "phpstorm"@,
            SupportedIDE::RubyMine => "rubymine"@,
            SupportedIDE::CLion => "clion"@,
            SupportedIDE::Vim => "vim"@,
            SupportedIDE::Nano => "nano"@,
        }
    }

    /// The name under which the editor is shown.
    pub open spec fn label(self) -> Seq<char> {
        match self {
            SupportedIDE::GoLand => "GoLand"@,
            SupportedIDE::PyCharm => "PyCharm"@,
            SupportedIDE::IntelliJIDEA => "IntelliJ IDEA"@,
            SupportedIDE::VSCode => "Visual Studio Code"@,
            SupportedIDE::VisualStudio => "Visual Studio"@,
            SupportedIDE::WebStorm => "WebStorm"@,
            SupportedIDE::PhpStorm => "PhpStorm"@,
            SupportedIDE::RubyMine => "RubyMine"@,
            SupportedIDE::CLion => "CLion"@,
            SupportedIDE::Vim => "Vim"@,
            SupportedIDE::Nano => "Nano"@,
        }
    }

    /// Every editor, in the order in which keys are looked up.
    pub open spec fn every() -> Seq<SupportedIDE> {
        seq![
            SupportedIDE::GoLand,
            SupportedIDE::PyCharm,
            SupportedIDE::IntelliJIDEA,
            SupportedIDE::VSCode,
            SupportedIDE::VisualStudio,
            SupportedIDE::WebStorm,
            SupportedIDE::PhpStorm,
            SupportedIDE::RubyMine,
            SupportedIDE::CLion,
            SupportedIDE::Vim,
            SupportedIDE::Nano,
        ]
    }

    /// The first editor at or after position `from` of [`Self::every`] whose
    /// key is `s` up to the case of ASCII letters.
    pub open spec fn keyed_from(s: Seq<char>, from: int) -> Option<SupportedIDE>
        decreases Self::every().len() - from,
    {
        if from < 0 || from >= Self::every().len() {
            None
        } else if same_ignoring_ascii_case(Self::every()[from].key(), s) {
            Some(Self::every()[from])
        } else {
            Self::keyed_from(s, from + 1)
        }
    }

    /// The editor whose key is `s` up to the case of ASCII letters.
    pub open spec fn keyed(s: Seq<char>) -> Option<SupportedIDE> {
        Self::keyed_from(s, 0)
    }

    /// The key by which the editor is named on a command line.
    pub fn as_str(&self) -> (r: &'static str)
        ensures
            r@ == self.key(),
    {
        match self {
            SupportedIDE::GoLand => "goland",
            SupportedIDE::PyCharm => "pycharm",
            SupportedIDE::IntelliJIDEA => "idea",
            SupportedIDE::VSCode => "vscode",
            SupportedIDE::VisualStudio => "vs",
            SupportedIDE::WebStorm => "webstorm",
            SupportedIDE::PhpStorm => "phpstorm",
            SupportedIDE::RubyMine => "rubymine",
            SupportedIDE::CLion => "clion",
            SupportedIDE::Vim => "vim",
            SupportedIDE::Nano => "nano",
        }
    }

    /// The name under which the editor is shown.
    pub fn display_name(&self) -> (r: &'static str)
        ensures
            r@ == self.label(),
    {
        match self {
            SupportedIDE::GoLand => "GoLand",
            SupportedIDE::PyCharm => "PyCharm",
            SupportedIDE::IntelliJIDEA => "IntelliJ IDEA",
            SupportedIDE::VSCode => "Visual Studio Code",
            SupportedIDE::VisualStudio => "Visual Studio",
            SupportedIDE::WebStorm => "WebStorm",
            SupportedIDE::PhpStorm => "PhpStorm",
            SupportedIDE::RubyMine => "RubyMine",
            SupportedIDE::CLion => "CLion",
            SupportedIDE::Vim => "Vim",
            SupportedIDE::Nano => "Nano",
        }
    }

    /// Every editor.
    pub fn all() -> (r: Vec<SupportedIDE>)
        ensures
            r@ == Self::every(),
    {
        let mut r: Vec<SupportedIDE> = Vec::new();
        r.push(SupportedIDE::GoLand);
        r.push(SupportedIDE::PyCharm);
        r.push(SupportedIDE::IntelliJIDEA);
        r.push(SupportedIDE::VSCode);
        r.push(SupportedIDE::VisualStudio);
        r.push(SupportedIDE::WebStorm);
        r.push(SupportedIDE::PhpStorm);
        r.push(SupportedIDE::RubyMine);
        r.push(SupportedIDE::CLion);
        r.push(SupportedIDE::Vim);
        r.push(SupportedIDE::Nano);
        assert(r@ =~= Self::every());
        r
    }

    /// The editor whose key is `s`, whatever the case of its ASCII letters.
    pub fn from_str(s: &str) -> (r: Option<SupportedIDE>)
        ensures
            r == Self::keyed(s@),
    {
        let wanted = to_chars(s);
        let kinds = Self::all();
        let mut i: usize = 0;
        while i < kinds.len()
            invariant
                i <= kinds.len(),
                kinds@ == Self::every(),
                wanted@ == s@,
                Self::keyed(s@) == Self::keyed_from(s@, i as int),
            decreases kinds.len() - i,
        {
            let key = to_chars(kinds[i].as_str());
            if eq_ignore_ascii_case(&key, &wanted) {
                return Some(kinds[i]);
            }
            i += 1;
        }
        None
    }
}

} // verus!
