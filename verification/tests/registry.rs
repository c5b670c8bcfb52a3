use ide_files::detector::{
    is_known_process, target_processes, DetectionError, Detector, IDEDetector, IDEDetectorManager,
};
use ide_files::detectors::jetbrains::JetBrainsDetector;
use ide_files::detectors::terminal::TerminalEditorDetector;
use ide_files::detectors::vscode::VSCodeDetector;
use ide_files::evidence::{CommandLine, Evidence, PathFact, PathKind};
use ide_files::types::{ProcessInfo, SupportedIDE};

fn running(pid: u32, name: &str, title: &str) -> ProcessInfo {
    ProcessInfo {
        pid,
        name: name.to_string(),
        window_title: title.to_string(),
        executable_path: String::new(),
    }
}

fn manager() -> IDEDetectorManager {
    let mut manager = IDEDetectorManager::new();
    manager.register_detector(Detector::JetBrains(JetBrainsDetector::new(SupportedIDE::GoLand)));
    manager.register_detector(Detector::JetBrains(JetBrainsDetector::new(SupportedIDE::PyCharm)));
    manager.register_detector(Detector::Terminal(TerminalEditorDetector::new(SupportedIDE::Vim)));
    manager.register_detector(Detector::VSCode(VSCodeDetector::new()));
    manager
}

fn vim_on(path: &str) -> Evidence {
    let mut evidence = Evidence::new();
    evidence.command_lines.push(CommandLine {
        pid: 3,
        args: vec!["vim".to_string(), path.to_string()],
    });
    evidence.paths.push(PathFact { path: path.to_string(), kind: PathKind::File });
    evidence
}

#[test]
fn registry_lists_its_editors_in_order() {
    assert!(IDEDetectorManager::new().list_supported_ides().is_empty());
    assert_eq!(
        manager().list_supported_ides(),
        vec!["GoLand", "PyCharm", "Vim", "Visual Studio Code"]
    );
}

#[test]
fn detection_of_an_unregistered_editor_is_unsupported() {
    let processes = vec![running(1, "nano", "")];
    match manager().detect_ide(SupportedIDE::Nano, &processes, &Evidence::new()) {
        Err(DetectionError::UnsupportedIDE { ide }) => assert_eq!(ide, "Nano"),
        _ => panic!("the editor should have been unsupported"),
    }
    assert!(matches!(
        IDEDetectorManager::new().detect_ide(SupportedIDE::Vim, &processes, &Evidence::new()),
        Err(DetectionError::UnsupportedIDE { .. })
    ));
}

#[test]
fn detection_without_a_process_finds_no_process() {
    let processes = vec![running(1, "bash", ""), running(2, "pycharm", "")];
    match manager().detect_ide(SupportedIDE::GoLand, &processes, &Evidence::new()) {
        Err(DetectionError::NoProcessFound { ide }) => assert_eq!(ide, "GoLand"),
        _ => panic!("no process should have been found"),
    }
    match manager().auto_detect(&[running(1, "bash", "")], &Evidence::new()) {
        Err(DetectionError::NoProcessFound { ide }) => assert_eq!(ide, "any supported editor"),
        _ => panic!("no process should have been found"),
    }
    assert!(matches!(
        IDEDetectorManager::new().auto_detect(&processes, &Evidence::new()),
        Err(DetectionError::NoProcessFound { .. })
    ));
}

#[test]
fn detection_hands_its_own_processes_to_the_detector() {
    let processes = vec![
        running(1, "pycharm", "x.py - other [/other] - PyCharm 2024.1"),
        running(2, "goland", "main.go - myapp [/home/u/myapp] - GoLand 2024.1"),
        running(3, "vim", ""),
    ];
    let result = manager().detect_ide(SupportedIDE::GoLand, &processes, &Evidence::new()).unwrap();
    assert_eq!(result.ide_name, "GoLand");
    assert_eq!(result.open_files.len(), 1);
    assert_eq!(result.active_file, Some("/home/u/myapp/main.go".to_string()));
    let result = manager().detect_ide(SupportedIDE::Vim, &processes, &vim_on("/tmp/a")).unwrap();
    assert_eq!(result.ide_name, "Vim");
    assert_eq!(result.active_file, Some("/tmp/a".to_string()));
}

#[test]
fn auto_detection_takes_the_detector_registered_first() {
    let processes = vec![
        running(3, "vim", ""),
        running(1, "pycharm", "x.py - other [/other] - PyCharm 2024.1"),
        running(2, "goland", "main.go - myapp [/home/u/myapp] - GoLand 2024.1"),
    ];
    let evidence = vim_on("/tmp/a");
    let manager = manager();
    assert_eq!(manager.find_matching(&processes, 0), Some(0));
    assert_eq!(manager.find_matching(&processes, 1), Some(1));
    assert_eq!(manager.find_matching(&processes, 2), Some(2));
    assert_eq!(manager.find_matching(&processes, 3), None);
    assert_eq!(manager.find_matching(&processes, 9), None);
    for _ in 0..3 {
        let result = manager.auto_detect(&processes, &evidence).unwrap();
        assert_eq!(result.ide_name, "GoLand");
        assert_eq!(result.active_file, Some("/home/u/myapp/main.go".to_string()));
        assert_eq!(result.open_files.len(), 1);
    }
    let result = manager.auto_detect(&processes[..2], &evidence).unwrap();
    assert_eq!(result.ide_name, "PyCharm");
    let result = manager.auto_detect(&processes[..1], &evidence).unwrap();
    assert_eq!(result.ide_name, "Vim");
}

#[test]
fn auto_detection_passes_over_a_detector_that_finds_no_file() {
    let processes = vec![running(3, "vim", ""), running(2, "goland", "myapp - GoLand 2024.1")];
    let result = manager().auto_detect(&processes, &vim_on("/tmp/a")).unwrap();
    assert_eq!(result.ide_name, "Vim");
    assert_eq!(result.active_file, Some("/tmp/a".to_string()));
}

#[test]
fn auto_detection_fails_as_the_first_detector_when_none_finds_a_file() {
    let processes = vec![running(3, "vim", ""), running(2, "goland", "myapp - GoLand 2024.1")];
    match manager().auto_detect(&processes, &Evidence::new()) {
        Err(DetectionError::WindowParseError { message }) => {
            assert_eq!(message, "No files detected for GoLand")
        }
        _ => panic!("the failure of the first detector was expected"),
    }
}

#[test]
fn registry_finds_detectors_and_their_processes() {
    let manager = manager();
    assert_eq!(manager.find_detector(SupportedIDE::PyCharm), Some(1));
    assert_eq!(manager.find_detector(SupportedIDE::VSCode), Some(3));
    assert_eq!(manager.find_detector(SupportedIDE::CLion), None);
    assert_eq!(manager.editor_at(2), SupportedIDE::Vim);
    let processes = vec![running(3, "vim", ""), running(4, "bash", ""), running(5, "nvim", "")];
    assert_eq!(manager.find_matching(&processes, 0), Some(2));
    assert_eq!(manager.find_matching(&processes[1..2], 0), None);
    let own = manager.targets_at(2, &processes);
    let pids: Vec<u32> = own.iter().map(|p| p.pid).collect();
    assert_eq!(pids, vec![3, 5]);
    let vim = TerminalEditorDetector::new(SupportedIDE::Vim);
    assert_eq!(target_processes(&vim, &processes).len(), 2);
    assert_eq!(target_processes(&vim, &[]).len(), 0);
}

#[test]
fn detector_of_any_kind_answers_for_its_own() {
    let detector = Detector::Terminal(TerminalEditorDetector::new(SupportedIDE::Nano));
    assert_eq!(detector.ide_type(), SupportedIDE::Nano);
    assert_eq!(detector.display_name(), "Nano");
    assert!(detector.is_target_process(&running(1, "nano", "")));
    assert!(!detector.is_target_process(&running(1, "vim", "")));
    let detector = Detector::VSCode(VSCodeDetector::new());
    assert_eq!(detector.ide_type(), SupportedIDE::VSCode);
    let detector = Detector::JetBrains(JetBrainsDetector::new(SupportedIDE::CLion));
    assert_eq!(detector.display_name(), "CLion");
    assert!(detector
        .extract_files(&[running(1, "clion", "a.c - p [/p] - CLion 2024.1")], &Evidence::new())
        .is_ok());
}

#[test]
fn names_are_compared_in_lower_case() {
    let names = vec!["Code", "idea"];
    assert!(is_known_process(&running(1, "CODE-insiders", ""), &names));
    assert!(is_known_process(&running(1, "IDEA64.EXE", ""), &names));
    assert!(!is_known_process(&running(1, "vscode", ""), &names));
    assert!(!is_known_process(&running(1, "", ""), &names));
    assert!(!is_known_process(&running(1, "code", ""), &Vec::new()));
    let mut process = running(1, "electron", "");
    process.executable_path = "/opt/Vs\u{212a}ode/Code".to_string();
    assert!(is_known_process(&process, &names));
    // U+212A, the Kelvin sign, becomes `k` in lower case.
    let kelvin = vec!["k"];
    assert!(is_known_process(&running(1, "\u{212a}ate", ""), &kelvin));
}
