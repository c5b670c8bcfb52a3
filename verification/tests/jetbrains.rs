use ide_files::detector::{DetectionError, IDEDetector};
use ide_files::detectors::jetbrains::JetBrainsDetector;
use ide_files::evidence::{CommandLine, DirEntry, Document, Evidence, Listing, PathFact, PathKind};
use ide_files::readers::project_search::{
    directories_to_examine, find_project_in_directory, find_project_path, has_project_metadata,
    metadata_path, project_search_roots, roots_to_search, should_descend, SEARCH_DEPTH,
};
use ide_files::readers::project_state::{
    editor_tabs_section, files_to_read, paths_to_examine, read_recent_files, SCAN_LIMIT,
};
use ide_files::types::{ProcessInfo, SupportedIDE};

fn chars(s: &str) -> Vec<char> {
    s.chars().collect()
}

fn text(v: Vec<char>) -> String {
    v.into_iter().collect()
}

fn process(pid: u32, name: &str, title: &str) -> ProcessInfo {
    ProcessInfo {
        pid,
        name: name.to_string(),
        window_title: title.to_string(),
        executable_path: String::new(),
    }
}

fn fact(path: &str, kind: PathKind) -> PathFact {
    PathFact { path: path.to_string(), kind }
}

fn entry(path: &str, kind: PathKind) -> Option<DirEntry> {
    Some(DirEntry { path: path.to_string(), kind, modified: 0 })
}

const TABS: &str = r#"<project version="4">
  <component name="FileEditorManager">
    <leaf>
      <file leaf-file-name="a.go" pinned="false" current-in-tab="false">
        <entry file="file://$PROJECT_DIR$/src/a.go">
          <provider selected="true" editor-type-id="text-editor" />
        </entry>
      </file>
      <file leaf-file-name="b.go" pinned="false" current-in-tab="true">
        <entry file="file://$PROJECT_DIR$/b.go" />
      </file>
      <file leaf-file-name="gone.go" current-in-tab="false">
        <entry file="file://$PROJECT_DIR$/gone.go" />
      </file>
    </leaf>
  </component>
  <component name="Other">
    <option value="file://$PROJECT_DIR$/other.go" />
  </component>
</project>"#;

fn project_with_tabs() -> Evidence {
    let mut evidence = Evidence::new();
    evidence.paths.push(fact("/p/.idea", PathKind::Dir));
    evidence.paths.push(fact("/p/.idea/workspace.xml", PathKind::File));
    evidence.paths.push(fact("/p/src/a.go", PathKind::File));
    evidence.paths.push(fact("/p/b.go", PathKind::File));
    evidence.paths.push(fact("/p/other.go", PathKind::File));
    evidence.documents.push(Document {
        path: "/p/.idea/workspace.xml".to_string(),
        content: TABS.to_string(),
    });
    evidence
}

#[test]
fn detector_knows_its_editor_and_processes() {
    let detector = JetBrainsDetector::new(SupportedIDE::PyCharm);
    assert_eq!(detector.ide_type(), SupportedIDE::PyCharm);
    assert_eq!(detector.display_name(), "PyCharm");
    assert!(detector.is_target_process(&process(1, "pycharm", "")));
    assert!(detector.is_target_process(&process(1, "PyCharm64.exe", "")));
    assert!(detector.is_target_process(&process(1, "pycharm-community", "")));
    assert!(!detector.is_target_process(&process(1, "goland", "")));
    assert!(!detector.is_target_process(&process(1, "my-pycharm", "")));
    let mut java = process(1, "java", "");
    java.executable_path = "/opt/PyCharm-2024.1/jbr/bin/java".to_string();
    assert!(detector.is_target_process(&java));
}

#[test]
fn detector_of_another_family_matches_nothing() {
    let detector = JetBrainsDetector::new(SupportedIDE::Vim);
    assert!(!detector.is_target_process(&process(1, "vim", "")));
    assert!(!detector.is_target_process(&process(1, "", "")));
}

#[test]
fn title_alone_gives_the_active_file() {
    let detector = JetBrainsDetector::new(SupportedIDE::GoLand);
    let processes =
        vec![process(7, "goland", "main.go - myapp [/home/u/myapp] - GoLand 2024.1")];
    let result = detector.extract_files(&processes, &Evidence::new()).unwrap();
    assert_eq!(result.ide_name, "GoLand");
    assert_eq!(result.ide_version, None);
    assert_eq!(result.active_file, Some("/home/u/myapp/main.go".to_string()));
    assert_eq!(result.project_path, Some("/home/u/myapp".to_string()));
    assert_eq!(result.open_files.len(), 1);
    assert_eq!(result.open_files[0].path, "/home/u/myapp/main.go");
    assert!(result.open_files[0].is_active);
    assert!(!result.open_files[0].is_modified);
    assert_eq!(result.open_files[0].project_name, Some("myapp".to_string()));
    assert!(result.timestamp.contains('T'));
    assert!(result.timestamp.len() >= 20);
}

#[test]
fn title_without_directory_is_placed_in_the_project_that_is_found() {
    let detector = JetBrainsDetector::new(SupportedIDE::GoLand);
    let mut evidence = Evidence::new();
    evidence.user = Some("u".to_string());
    evidence.paths.push(fact("/home/u/projects/myapp/.idea", PathKind::Dir));
    let (file, dir) =
        detector.parse_jetbrains_window_title("main.go* - myapp - GoLand 2024.1").unwrap();
    assert_eq!(file.path, "main.go");
    assert_eq!(dir, None);
    let (file, dir) = detector.place_title_file(file, dir, &evidence);
    assert_eq!(dir, Some("/home/u/projects/myapp".to_string()));
    assert_eq!(file.path, "/home/u/projects/myapp/main.go");
    assert_eq!(file.name, "main.go");
    assert!(file.is_modified);
    assert!(file.is_active);
    assert_eq!(file.project_name, Some("myapp".to_string()));
    let (file, dir) =
        detector.parse_jetbrains_window_title("main.go - other - GoLand 2024.1").unwrap();
    let (file, dir) = detector.place_title_file(file, dir, &evidence);
    assert_eq!(file.path, "main.go");
    assert_eq!(dir, None);
    let (file, dir) =
        detector.parse_jetbrains_window_title("a.go - myapp [/x] - GoLand 2024.1").unwrap();
    let (file, dir) = detector.place_title_file(file, dir, &evidence);
    assert_eq!(file.path, "/x/a.go");
    assert_eq!(dir, Some("/x".to_string()));
    let processes = vec![process(7, "goland", "myapp \u{2013} main.go")];
    let result = detector.extract_files(&processes, &evidence).unwrap();
    assert_eq!(result.project_path, Some("/home/u/projects/myapp".to_string()));
    assert_eq!(result.active_file, Some("/home/u/projects/myapp/main.go".to_string()));
}

#[test]
fn the_same_processes_twice_give_the_same_files() {
    let detector = JetBrainsDetector::new(SupportedIDE::GoLand);
    let evidence = project_with_tabs();
    let once = vec![process(7, "goland", "main.go - p [/p] - GoLand 2024.1")];
    let twice = vec![once[0].clone(), once[0].clone()];
    let first = detector.extract_files(&once, &evidence).unwrap();
    let second = detector.extract_files(&twice, &evidence).unwrap();
    let paths = |files: &[ide_files::types::FileInfo]| -> Vec<String> {
        files.iter().map(|f| f.path.clone()).collect()
    };
    assert_eq!(paths(&first.open_files), vec!["/p/main.go", "/p/src/a.go", "/p/b.go"]);
    assert_eq!(paths(&first.open_files), paths(&second.open_files));
    assert_eq!(first.active_file, second.active_file);
    assert_eq!(first.project_path, second.project_path);
}

#[test]
fn no_file_is_a_failure_to_parse() {
    let detector = JetBrainsDetector::new(SupportedIDE::GoLand);
    let processes = vec![process(7, "goland", "myapp - GoLand 2024.1")];
    match detector.extract_files(&processes, &Evidence::new()) {
        Err(DetectionError::WindowParseError { message }) => {
            assert_eq!(message, "No files detected for GoLand")
        }
        _ => panic!("a failure to parse was expected"),
    }
    let none: Vec<ProcessInfo> = Vec::new();
    assert!(matches!(
        detector.extract_files(&none, &Evidence::new()),
        Err(DetectionError::WindowParseError { .. })
    ));
}

#[test]
fn titles_of_several_windows_are_merged() {
    let detector = JetBrainsDetector::new(SupportedIDE::GoLand);
    let processes = vec![
        process(1, "goland", "a.go - one [/one] - GoLand 2024.1"),
        process(2, "goland", "b.go - two [/two] - GoLand 2024.1"),
        process(3, "goland", "a.go* - one [/one] - GoLand 2024.1"),
    ];
    let result = detector.extract_files(&processes, &Evidence::new()).unwrap();
    let paths: Vec<&str> = result.open_files.iter().map(|f| f.path.as_str()).collect();
    assert_eq!(paths, vec!["/one/a.go", "/two/b.go"]);
    assert!(!result.open_files[0].is_modified);
    assert_eq!(result.active_file, Some("/one/a.go".to_string()));
    assert_eq!(result.project_path, Some("/one".to_string()));
}

#[test]
fn command_line_gives_the_project_when_the_title_does_not() {
    let detector = JetBrainsDetector::new(SupportedIDE::GoLand);
    let mut evidence = Evidence::new();
    evidence.command_lines.push(CommandLine {
        pid: 7,
        args: vec![
            "/opt/goland/bin/goland".to_string(),
            "-Dfoo".to_string(),
            "/tmp/file.txt".to_string(),
            "/work/proj".to_string(),
        ],
    });
    evidence.paths.push(fact("/tmp/file.txt", PathKind::File));
    evidence.paths.push(fact("/work/proj", PathKind::Dir));
    evidence.paths.push(fact("/opt/goland/bin/goland", PathKind::Dir));
    let args = evidence.command_lines[0].args.clone();
    assert_eq!(
        detector.extract_project_from_cmdline(&args, &evidence),
        Some("/work/proj".to_string())
    );
    assert_eq!(detector.extract_project_from_cmdline(&args[..3], &evidence), None);
    assert_eq!(detector.extract_project_from_cmdline(&[], &evidence), None);
    let processes = vec![process(7, "goland", "main.go - myapp - GoLand 2024.1")];
    let result = detector.extract_files(&processes, &evidence).unwrap();
    assert_eq!(result.project_path, Some("/work/proj".to_string()));
    assert_eq!(result.open_files[0].path, "main.go");
    let (files, project) = detector.titles_and_project(&processes, &evidence);
    assert_eq!(files.len(), 1);
    assert_eq!(project, Some("/work/proj".to_string()));
}

#[test]
fn single_file_of_the_title_stays_before_the_editor_tabs() {
    let detector = JetBrainsDetector::new(SupportedIDE::GoLand);
    let evidence = project_with_tabs();
    let processes = vec![process(7, "goland", "b.go* - p [/p] - GoLand 2024.1")];
    let result = detector.extract_files(&processes, &evidence).unwrap();
    let paths: Vec<&str> = result.open_files.iter().map(|f| f.path.as_str()).collect();
    assert_eq!(paths, vec!["/p/b.go", "/p/src/a.go"]);
    assert!(result.open_files[0].is_active);
    assert!(result.open_files[0].is_modified);
    assert_eq!(result.open_files[0].project_name, Some("p".to_string()));
    assert_eq!(result.open_files[1].name, "a.go");
    assert!(!result.open_files[1].is_active);
    assert_eq!(result.active_file, Some("/p/b.go".to_string()));
    assert_eq!(result.project_path, Some("/p".to_string()));
    let processes = vec![process(7, "goland", "main.go - p [/p] - GoLand 2024.1")];
    let result = detector.extract_files(&processes, &evidence).unwrap();
    let paths: Vec<&str> = result.open_files.iter().map(|f| f.path.as_str()).collect();
    assert_eq!(paths, vec!["/p/main.go", "/p/src/a.go", "/p/b.go"]);
    assert_eq!(result.active_file, Some("/p/main.go".to_string()));
    assert!(result.open_files[2].is_active);
}

#[test]
fn editor_tabs_replace_the_files_of_several_titles() {
    let detector = JetBrainsDetector::new(SupportedIDE::GoLand);
    let evidence = project_with_tabs();
    let processes = vec![
        process(7, "goland", "main.go - p [/p] - GoLand 2024.1"),
        process(8, "goland", "util.go - p [/p] - GoLand 2024.1"),
    ];
    let result = detector.extract_files(&processes, &evidence).unwrap();
    let paths: Vec<&str> = result.open_files.iter().map(|f| f.path.as_str()).collect();
    assert_eq!(paths, vec!["/p/src/a.go", "/p/b.go"]);
    assert_eq!(result.open_files[0].name, "a.go");
    assert!(!result.open_files[0].is_active);
    assert!(result.open_files[1].is_active);
    assert_eq!(result.open_files[1].project_name, None);
    assert_eq!(result.active_file, Some("/p/b.go".to_string()));
    assert_eq!(result.project_path, Some("/p".to_string()));
}

#[test]
fn editor_tabs_are_the_files_when_the_titles_name_none() {
    let detector = JetBrainsDetector::new(SupportedIDE::GoLand);
    let mut evidence = project_with_tabs();
    evidence.paths.push(fact("/p", PathKind::Dir));
    evidence.command_lines.push(CommandLine {
        pid: 7,
        args: vec!["goland".to_string(), "/p".to_string()],
    });
    let processes = vec![process(7, "goland", "p - GoLand 2024.1")];
    let result = detector.extract_files(&processes, &evidence).unwrap();
    let paths: Vec<&str> = result.open_files.iter().map(|f| f.path.as_str()).collect();
    assert_eq!(paths, vec!["/p/src/a.go", "/p/b.go"]);
    assert_eq!(result.active_file, Some("/p/b.go".to_string()));
}

#[test]
fn unreadable_state_leaves_the_file_of_the_title() {
    let detector = JetBrainsDetector::new(SupportedIDE::GoLand);
    let mut evidence = Evidence::new();
    evidence.paths.push(fact("/p/.idea", PathKind::Dir));
    evidence.paths.push(fact("/p/.idea/workspace.xml", PathKind::File));
    let processes = vec![process(7, "goland", "main.go - p [/p] - GoLand 2024.1")];
    let result = detector.extract_files(&processes, &evidence).unwrap();
    assert_eq!(result.open_files.len(), 1);
    assert_eq!(result.open_files[0].path, "/p/main.go");
    assert_eq!(result.active_file, Some("/p/main.go".to_string()));
    let processes = vec![process(7, "goland", "p - GoLand 2024.1")];
    evidence.command_lines.push(CommandLine {
        pid: 7,
        args: vec!["goland".to_string(), "/p".to_string()],
    });
    evidence.paths.push(fact("/p", PathKind::Dir));
    assert!(matches!(
        detector.extract_files(&processes, &evidence),
        Err(DetectionError::WindowParseError { .. })
    ));
}

#[test]
fn state_is_read_for_tabs_that_exist() {
    let evidence = project_with_tabs();
    let files = read_recent_files("/p", &evidence);
    assert_eq!(files.len(), 2);
    assert_eq!(files[0].path, "/p/src/a.go");
    assert_eq!(files[1].path, "/p/b.go");
    assert!(files[1].is_active);
    assert!(!files[1].is_modified);
    let detector = JetBrainsDetector::new(SupportedIDE::GoLand);
    assert_eq!(detector.get_jetbrains_recent_files("/p", &evidence).len(), 2);
    assert_eq!(
        paths_to_examine("/p", &evidence),
        vec!["/p/src/a.go", "/p/b.go", "/p/gone.go", "/p/src/a.go", "/p/b.go", "/p/gone.go", "/p/other.go"]
    );
}

#[test]
fn state_without_metadata_directory_records_nothing() {
    let mut evidence = project_with_tabs();
    evidence.paths.remove(0);
    assert!(read_recent_files("/p", &evidence).is_empty());
    assert!(read_recent_files("/q", &project_with_tabs()).is_empty());
}

#[test]
fn state_without_tabs_is_scanned_for_paths() {
    let mut evidence = Evidence::new();
    evidence.paths.push(fact("/p/.idea", PathKind::Dir));
    evidence.paths.push(fact("/p/.idea/workspace.xml", PathKind::File));
    let mut content = String::from("<project>");
    for i in 0..14 {
        content.push_str(&format!("<option value=\"file://$PROJECT_DIR$/f{}.go\" />", i));
        if i != 3 {
            evidence.paths.push(fact(&format!("/p/f{}.go", i), PathKind::File));
        }
    }
    content.push_str("</project>");
    evidence.documents.push(Document { path: "/p/.idea/workspace.xml".to_string(), content });
    let files = read_recent_files("/p", &evidence);
    assert_eq!(SCAN_LIMIT, 10);
    assert_eq!(files.len(), 10);
    let names: Vec<&str> = files.iter().map(|f| f.name.as_str()).collect();
    assert_eq!(
        names,
        vec!["f0.go", "f1.go", "f2.go", "f4.go", "f5.go", "f6.go", "f7.go", "f8.go", "f9.go", "f10.go"]
    );
    assert!(files.iter().all(|f| !f.is_active));
}

#[test]
fn second_file_of_state_is_read_when_the_first_has_no_tabs() {
    let mut evidence = Evidence::new();
    evidence.paths.push(fact("/p/.idea", PathKind::Dir));
    evidence.paths.push(fact("/p/.idea/workspace.xml", PathKind::File));
    evidence.paths.push(fact("/p/.idea/workspace_with_tabs.xml", PathKind::File));
    evidence.paths.push(fact("/p/src/a.go", PathKind::File));
    evidence.paths.push(fact("/p/b.go", PathKind::File));
    evidence.documents.push(Document {
        path: "/p/.idea/workspace.xml".to_string(),
        content: "<project></project>".to_string(),
    });
    evidence.documents.push(Document {
        path: "/p/.idea/workspace_with_tabs.xml".to_string(),
        content: TABS.to_string(),
    });
    let files = read_recent_files("/p", &evidence);
    let paths: Vec<&str> = files.iter().map(|f| f.path.as_str()).collect();
    assert_eq!(paths, vec!["/p/src/a.go", "/p/b.go"]);
}

#[test]
fn section_of_the_tabs_ends_at_the_first_closing() {
    let section = editor_tabs_section(&chars(
        "<a><component name=\"FileEditorManager\">x</component>y</component>",
    ))
    .unwrap();
    assert_eq!(text(section), "<component name=\"FileEditorManager\">x");
    assert!(editor_tabs_section(&chars("<component name=\"FileEditorManager\">x")).is_none());
    assert!(editor_tabs_section(&chars("</component>")).is_none());
}

#[test]
fn project_is_found_right_under_a_root() {
    let mut evidence = Evidence::new();
    evidence.user = Some("u".to_string());
    evidence.paths.push(fact("/home/u/dev/myapp/.idea", PathKind::Dir));
    evidence.paths.push(fact("/home/u/projects/myapp/.idea", PathKind::File));
    assert_eq!(find_project_path(&evidence, "myapp"), Some("/home/u/dev/myapp".to_string()));
    assert_eq!(find_project_path(&evidence, "MyApp"), None);
    assert_eq!(find_project_path(&Evidence::new(), "myapp"), None);
    assert!(has_project_metadata(&evidence, &chars("/home/u/dev/myapp")));
    assert!(!has_project_metadata(&evidence, &chars("/home/u/projects/myapp")));
}

#[test]
fn search_roots_are_in_order() {
    let roots: Vec<String> = project_search_roots("u").into_iter().map(text).collect();
    assert_eq!(
        roots,
        vec![
            "/home/u/codes",
            "/home/u/projects",
            "/home/u/workspace",
            "/home/u/dev",
            "/home/u/Documents",
            "/home/u/Dropbox/dev",
            "/home/u"
        ]
    );
    let roots: Vec<String> = project_search_roots("").into_iter().map(text).collect();
    assert_eq!(roots[0], "/home//codes");
    assert_eq!(roots[6], "/home/");
}

fn tree() -> Evidence {
    let mut evidence = Evidence::new();
    evidence.user = Some("u".to_string());
    for dir in [
        "/home/u/codes",
        "/home/u/codes/group",
        "/home/u/codes/group/MyApp",
        "/home/u/codes/group/MyApp/.idea",
        "/home/u/codes/group/deep",
        "/home/u/codes/group/deep/Far",
        "/home/u/codes/group/deep/Far/.idea",
        "/home/u/codes/target",
        "/home/u/codes/target/Hidden",
        "/home/u/codes/target/Hidden/.idea",
    ] {
        evidence.paths.push(fact(dir, PathKind::Dir));
    }
    evidence.listings.push(Listing {
        path: "/home/u/codes".to_string(),
        entries: vec![
            entry("/home/u/codes/notes.txt", PathKind::File),
            None,
            entry("/home/u/codes/target", PathKind::Dir),
            entry("/home/u/codes/group", PathKind::Dir),
        ],
    });
    evidence.listings.push(Listing {
        path: "/home/u/codes/target".to_string(),
        entries: vec![entry("/home/u/codes/target/Hidden", PathKind::Dir)],
    });
    evidence.listings.push(Listing {
        path: "/home/u/codes/group".to_string(),
        entries: vec![
            entry("/home/u/codes/group/deep", PathKind::Dir),
            entry("/home/u/codes/group/MyApp", PathKind::Dir),
        ],
    });
    evidence.listings.push(Listing {
        path: "/home/u/codes/group/deep".to_string(),
        entries: vec![entry("/home/u/codes/group/deep/Far", PathKind::Dir)],
    });
    evidence.listings.push(Listing { path: "/home/u/codes/group/MyApp".to_string(), entries: vec![] });
    evidence
}

#[test]
fn project_is_found_below_a_root_whatever_the_case() {
    let evidence = tree();
    assert_eq!(
        find_project_path(&evidence, "myapp"),
        Some("/home/u/codes/group/MyApp".to_string())
    );
    assert_eq!(
        find_project_in_directory(&evidence, &chars("/home/u/codes"), &chars("MYAPP"), 3).map(text),
        Some("/home/u/codes/group/MyApp".to_string())
    );
}

#[test]
fn search_stops_at_its_depth_and_skips_build_output() {
    let evidence = tree();
    assert_eq!(find_project_path(&evidence, "far"), None);
    assert_eq!(
        find_project_in_directory(&evidence, &chars("/home/u/codes"), &chars("far"), 4).map(text),
        Some("/home/u/codes/group/deep/Far".to_string())
    );
    assert_eq!(find_project_path(&evidence, "hidden"), None);
    assert_eq!(find_project_in_directory(&evidence, &chars("/home/u/codes"), &chars("myapp"), 2), None);
    assert_eq!(find_project_in_directory(&evidence, &chars("/home/u/codes"), &chars("myapp"), 0), None);
    assert_eq!(find_project_in_directory(&evidence, &chars("/nowhere"), &chars("myapp"), 3), None);
}

#[test]
fn search_descends_into_ordinary_directories_only() {
    assert!(should_descend(&chars("src")));
    assert!(should_descend(&chars("")));
    assert!(!should_descend(&chars(".git")));
    assert!(!should_descend(&chars("node_modules")));
    assert!(!should_descend(&chars("Target")));
    assert!(!should_descend(&chars("BUILD")));
    assert!(!should_descend(&chars("dist")));
    assert!(should_descend(&chars("distribution")));
}

#[test]
fn places_to_examine_are_named() {
    assert_eq!(SEARCH_DEPTH, 3);
    assert_eq!(metadata_path("/p"), "/p/.idea");
    assert_eq!(metadata_path("/p/"), "/p/.idea");
    assert_eq!(
        files_to_read("/p"),
        vec!["/p/.idea/workspace.xml", "/p/.idea/workspace_with_tabs.xml"]
    );
    assert_eq!(roots_to_search("u").len(), 7);
    assert_eq!(roots_to_search("u")[5], "/home/u/Dropbox/dev");
    let dirs = directories_to_examine("u", "myapp");
    assert_eq!(dirs.len(), 7);
    assert_eq!(dirs[0], "/home/u/codes/myapp");
    assert_eq!(dirs[6], "/home/u/myapp");
}
