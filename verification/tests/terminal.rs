use ide_files::detector::{DetectionError, IDEDetector};
use ide_files::detectors::terminal::TerminalEditorDetector;
use ide_files::evidence::{CommandLine, Evidence, PathFact, PathKind};
use ide_files::types::{ProcessInfo, SupportedIDE};

fn editor(pid: u32, name: &str) -> ProcessInfo {
    ProcessInfo {
        pid,
        name: name.to_string(),
        window_title: String::new(),
        executable_path: String::new(),
    }
}

fn args(items: &[&str]) -> Vec<String> {
    items.iter().map(|s| s.to_string()).collect()
}

fn observed(lines: &[(u32, &[&str])], existing: &[&str]) -> Evidence {
    let mut evidence = Evidence::new();
    for (pid, items) in lines {
        evidence.command_lines.push(CommandLine { pid: *pid, args: args(items) });
    }
    for path in existing {
        evidence.paths.push(PathFact { path: path.to_string(), kind: PathKind::File });
    }
    evidence
}

#[test]
fn vim_goes_by_three_names() {
    let vim = TerminalEditorDetector::new(SupportedIDE::Vim);
    assert_eq!(vim.ide_type(), SupportedIDE::Vim);
    assert_eq!(vim.display_name(), "Vim");
    assert!(vim.is_target_process(&editor(1, "vim")));
    assert!(vim.is_target_process(&editor(1, "nvim")));
    assert!(vim.is_target_process(&editor(1, "gvim")));
    assert!(vim.is_target_process(&editor(1, "VIM.basic")));
    assert!(!vim.is_target_process(&editor(1, "nano")));
    assert!(!vim.is_target_process(&editor(1, "evim")));
    let nano = TerminalEditorDetector::new(SupportedIDE::Nano);
    assert!(nano.is_target_process(&editor(1, "nano")));
    assert!(!nano.is_target_process(&editor(1, "vim")));
    let other = TerminalEditorDetector::new(SupportedIDE::GoLand);
    assert!(!other.is_target_process(&editor(1, "goland")));
}

#[test]
fn process_is_known_by_the_path_of_its_executable() {
    let vim = TerminalEditorDetector::new(SupportedIDE::Vim);
    let mut process = editor(1, "editor");
    process.executable_path = "/usr/bin/NVim".to_string();
    assert!(vim.is_target_process(&process));
    process.executable_path = "/usr/bin/ed".to_string();
    assert!(!vim.is_target_process(&process));
}

#[test]
fn first_file_argument_is_taken() {
    let vim = TerminalEditorDetector::new(SupportedIDE::Vim);
    let file = vim
        .extract_file_from_cmdline(&args(&["vim", "-n", "", "/tmp/a.txt", "/tmp/b.txt"]), &None)
        .unwrap();
    assert_eq!(file.path, "/tmp/a.txt");
    assert_eq!(file.name, "a.txt");
    assert!(file.is_active);
    assert!(!file.is_modified);
    assert_eq!(file.tab_index, Some(0));
    assert_eq!(file.project_name, None);
}

#[test]
fn relative_file_is_joined_to_the_working_directory() {
    let nano = TerminalEditorDetector::new(SupportedIDE::Nano);
    let file = nano
        .extract_file_from_cmdline(&args(&["nano", "notes/a.md"]), &Some("/home/u".to_string()))
        .unwrap();
    assert_eq!(file.path, "/home/u/notes/a.md");
    assert_eq!(file.name, "a.md");
    let file = nano
        .extract_file_from_cmdline(&args(&["nano", "a.md"]), &Some("/".to_string()))
        .unwrap();
    assert_eq!(file.path, "/a.md");
    let file = nano.extract_file_from_cmdline(&args(&["nano", "a.md"]), &None).unwrap();
    assert_eq!(file.path, "a.md");
}

#[test]
fn command_line_without_file_gives_none() {
    let vim = TerminalEditorDetector::new(SupportedIDE::Vim);
    assert!(vim.extract_file_from_cmdline(&[], &None).is_none());
    assert!(vim.extract_file_from_cmdline(&args(&["vim"]), &None).is_none());
    assert!(vim.extract_file_from_cmdline(&args(&["/tmp/a.txt"]), &None).is_none());
    assert!(vim.extract_file_from_cmdline(&args(&["vim", "-R", "--", ""]), &None).is_none());
    let other = TerminalEditorDetector::new(SupportedIDE::CLion);
    assert!(other.extract_file_from_cmdline(&args(&["clion", "/tmp/a.txt"]), &None).is_none());
}

#[test]
fn existing_files_are_reported() {
    let vim = TerminalEditorDetector::new(SupportedIDE::Vim);
    let evidence = observed(
        &[(1, &["vim", "/tmp/gone.txt"]), (2, &["nvim", "-n", "/tmp/a.txt"]), (4, &["vim", "/tmp/b.txt"])],
        &["/tmp/a.txt", "/tmp/b.txt"],
    );
    assert!(vim.file_exists("/tmp/a.txt", &evidence));
    assert!(!vim.file_exists("/tmp/gone.txt", &evidence));
    let processes = vec![editor(1, "vim"), editor(2, "nvim"), editor(3, "vim"), editor(4, "vim")];
    let result = vim.extract_files(&processes, &evidence).unwrap();
    assert_eq!(result.ide_name, "Vim");
    let paths: Vec<&str> = result.open_files.iter().map(|f| f.path.as_str()).collect();
    assert_eq!(paths, vec!["/tmp/a.txt", "/tmp/b.txt"]);
    assert_eq!(result.active_file, Some("/tmp/a.txt".to_string()));
    assert_eq!(result.project_path, None);
    assert_eq!(result.ide_version, None);
    assert!(vim.file_of_process(&processes[0], &evidence).is_none());
    assert!(vim.file_of_process(&processes[2], &evidence).is_none());
    assert_eq!(vim.file_of_process(&processes[1], &evidence).unwrap().path, "/tmp/a.txt");
}

#[test]
fn two_processes_on_one_file_report_it_once() {
    let vim = TerminalEditorDetector::new(SupportedIDE::Vim);
    let evidence = observed(&[(1, &["vim", "/tmp/a.txt"]), (2, &["vim", "/tmp/a.txt"])], &["/tmp/a.txt"]);
    let result = vim.extract_files(&[editor(1, "vim"), editor(2, "vim")], &evidence).unwrap();
    assert_eq!(result.open_files.len(), 1);
}

#[test]
fn no_existing_file_is_a_failure_to_parse() {
    let nano = TerminalEditorDetector::new(SupportedIDE::Nano);
    let evidence = observed(&[(1, &["nano", "/tmp/gone.txt"])], &[]);
    match nano.extract_files(&[editor(1, "nano")], &evidence) {
        Err(DetectionError::WindowParseError { message }) => {
            assert_eq!(message, "No valid files found in Nano processes")
        }
        _ => panic!("a failure to parse was expected"),
    }
    assert!(nano.extract_files(&[editor(1, "nano")], &Evidence::new()).is_err());
}
