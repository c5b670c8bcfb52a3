use ide_files::detector::{DetectionError, IDEDetector};
use ide_files::detectors::vscode::{is_noise_path, VSCodeDetector};
use ide_files::evidence::{
    CommandLine, DirEntry, Document, Evidence, Listing, PathFact, PathKind, Record,
};
use ide_files::readers::directory_scan::{get_vscode_files_heuristic, looks_like_source};
use ide_files::readers::session::{
    databases_to_query, directories_of, extract_workspace_from_json, get_vscode_session_files,
    get_workspace_id, newest_of, parse_vscode_database, read_recent_files, scan_all_vscode_sessions,
    storage_path, two_newest_of, description_path,
};
use ide_files::types::{open_file, ProcessInfo, SupportedIDE};

const STORAGE: &str = "/home/u/.config/Code/User/workspaceStorage";

fn code(pid: u32) -> ProcessInfo {
    ProcessInfo {
        pid,
        name: "code".to_string(),
        window_title: String::new(),
        executable_path: "/usr/share/code/code".to_string(),
    }
}

fn args(items: &[&str]) -> Vec<String> {
    items.iter().map(|s| s.to_string()).collect()
}

fn fact(path: &str, kind: PathKind) -> PathFact {
    PathFact { path: path.to_string(), kind }
}

fn dir(path: &str, modified: u64) -> Option<DirEntry> {
    Some(DirEntry { path: path.to_string(), kind: PathKind::Dir, modified })
}

fn file(path: &str) -> Option<DirEntry> {
    Some(DirEntry { path: path.to_string(), kind: PathKind::File, modified: 0 })
}

fn layout(paths: &[&str], order: &str) -> String {
    let editors: Vec<String> = paths
        .iter()
        .map(|p| {
            format!(
                "{{\"id\":\"workbench.editors.files.fileEditorInput\",\"value\":\"{{\\\"resourceJSON\\\":{{\\\"$mid\\\":1,\\\"fsPath\\\":\\\"{}\\\",\\\"scheme\\\":\\\"file\\\"}}}}\"}}",
                p
            )
        })
        .collect();
    format!(
        "{{\"editorpart.state\":{{\"serializedGrid\":{{\"root\":{{\"type\":\"branch\",\"data\":[{{\"type\":\"leaf\",\"data\":{{\"id\":0,\"editors\":[{}],\"mru\":{}}},\"size\":900}}]}},\"orientation\":1}},\"activeGroup\":0}}}}",
        editors.join(","),
        order
    )
}

fn stored(evidence: &mut Evidence, name: &str, modified: u64, folder: &str, record: Option<String>) {
    let dir_path = format!("{}/{}", STORAGE, name);
    let at = evidence.listings.iter().position(|l| l.path == STORAGE);
    let at = match at {
        Some(at) => at,
        None => {
            evidence.listings.push(Listing { path: STORAGE.to_string(), entries: Vec::new() });
            evidence.listings.len() - 1
        }
    };
    evidence.listings[at].entries.push(dir(&dir_path, modified));
    evidence.paths.push(fact(&format!("{}/workspace.json", dir_path), PathKind::File));
    evidence.documents.push(Document {
        path: format!("{}/workspace.json", dir_path),
        content: format!("{{\"folder\":\"file://{}\"}}", folder),
    });
    if let Some(value) = record {
        evidence.paths.push(fact(&format!("{}/state.vscdb", dir_path), PathKind::File));
        evidence.records.push(Record { path: format!("{}/state.vscdb", dir_path), value });
    }
}

fn home() -> Evidence {
    let mut evidence = Evidence::new();
    evidence.home = Some("/home/u".to_string());
    evidence
}

#[test]
fn detector_is_for_visual_studio_code() {
    let detector = VSCodeDetector::new();
    assert_eq!(detector.ide_type(), SupportedIDE::VSCode);
    assert_eq!(detector.display_name(), "Visual Studio Code");
    assert!(detector.is_target_process(&code(1)));
    let mut process = code(1);
    process.name = "Code.exe".to_string();
    process.executable_path = String::new();
    assert!(detector.is_target_process(&process));
    process.name = "codium".to_string();
    assert!(detector.is_target_process(&process));
    process.name = "vim".to_string();
    assert!(!detector.is_target_process(&process));
    process.executable_path = "/snap/Code-OSS/bin/x".to_string();
    assert!(detector.is_target_process(&process));
}

#[test]
fn folder_address_gives_the_workspace_and_no_file() {
    let detector = VSCodeDetector::new();
    let (workspace, files) = detector
        .extract_vscode_info(&args(&["code", "--folder-uri=file:///home/u/proj"]), &Evidence::new())
        .unwrap();
    assert_eq!(workspace, "/home/u/proj");
    assert!(files.is_empty());
}

#[test]
fn address_in_the_next_argument_is_taken() {
    let detector = VSCodeDetector::new();
    let (workspace, files) = detector
        .extract_vscode_info(
            &args(&["code", "--folder-uri", "file:///w", "--file-uri", "/tmp/a.rs", "--file-uri"]),
            &Evidence::new(),
        )
        .unwrap();
    assert_eq!(workspace, "/w");
    assert_eq!(files.len(), 1);
    assert_eq!(files[0].path, "/tmp/a.rs");
    assert_eq!(files[0].name, "a.rs");
    assert!(!files[0].is_active);
    assert_eq!(files[0].tab_index, None);
}

#[test]
fn file_address_gives_a_file() {
    let detector = VSCodeDetector::new();
    let (workspace, files) = detector
        .extract_vscode_info(&args(&["code", "--file-uri=file:///tmp/a.rs=x"]), &Evidence::new())
        .unwrap();
    assert_eq!(workspace, "");
    assert_eq!(files.len(), 1);
    assert_eq!(files[0].path, "/tmp/a.rs=x");
    assert_eq!(files[0].name, "a.rs=x");
}

#[test]
fn address_is_all_that_follows_the_first_equals_sign() {
    let detector = VSCodeDetector::new();
    let (workspace, files) = detector
        .extract_vscode_info(
            &args(&["code", "--folder-uri=file:///home/u/a=b"]),
            &Evidence::new(),
        )
        .unwrap();
    assert_eq!(workspace, "/home/u/a=b");
    assert!(files.is_empty());
    let (workspace, _) = detector
        .extract_vscode_info(&args(&["code", "--folder-uri="]), &Evidence::new())
        .unwrap();
    assert_eq!(workspace, "");
}

#[test]
fn bare_arguments_are_classified_by_what_they_name() {
    let detector = VSCodeDetector::new();
    let mut evidence = Evidence::new();
    evidence.paths.push(fact("/w", PathKind::Dir));
    evidence.paths.push(fact("/w/a.rs", PathKind::File));
    evidence.paths.push(fact("/w/b.rs", PathKind::File));
    evidence.paths.push(fact("readme", PathKind::File));
    evidence.paths.push(fact("/w/node_modules/x.js", PathKind::File));
    evidence.paths.push(fact("/usr/share/code/resources/app/extensions/git/main.js", PathKind::File));
    let (workspace, files) = detector
        .extract_vscode_info(
            &args(&[
                "/w/a.rs",
                "--unity-launch",
                "-/w/b.rs",
                "readme",
                "/w/gone.rs",
                "/w/node_modules/x.js",
                "/usr/share/code/resources/app/extensions/git/main.js",
                "file:///w/b.rs",
                "/w",
                "/w/a.rs",
            ]),
            &evidence,
        )
        .unwrap();
    assert_eq!(workspace, "/w");
    let paths: Vec<&str> = files.iter().map(|f| f.path.as_str()).collect();
    assert_eq!(paths, vec!["/w/b.rs", "/w/a.rs"]);
}

#[test]
fn command_line_without_workspace_or_file_gives_none() {
    let detector = VSCodeDetector::new();
    assert!(detector.extract_vscode_info(&[], &Evidence::new()).is_none());
    assert!(detector.extract_vscode_info(&args(&["code"]), &Evidence::new()).is_none());
    assert!(detector
        .extract_vscode_info(&args(&["code", "--new-window", "/w/gone"]), &Evidence::new())
        .is_none());
    assert!(detector
        .extract_vscode_info(&args(&["code", "--folder-uri"]), &Evidence::new())
        .is_none());
}

#[test]
fn noise_is_recognised() {
    let noise = [
        "/home/u/.vscode/extensions/rust/server.js",
        "/opt/code/resources/app/extensions/x",
        "/home/u/.config/Code/CachedExtensionVSIXs/a",
        "/w/node_modules/a.ts",
        "/w/out/server.js",
        "/w/dist/bundle.min.js",
    ];
    for path in noise {
        assert!(is_noise_path(&path.chars().collect()));
    }
    let kept = ["/w/src/main.js", "/w/server.ts", "/w/bundle/readme.md", "/w/a.rs"];
    for path in kept {
        assert!(!is_noise_path(&path.chars().collect()));
    }
}

#[test]
fn addresses_are_decoded() {
    let detector = VSCodeDetector::new();
    assert_eq!(detector.decode_vscode_uri("file:///home/u"), Some("/home/u".to_string()));
    assert_eq!(detector.decode_vscode_uri("/home/u"), Some("/home/u".to_string()));
    assert_eq!(detector.decode_vscode_uri(""), Some(String::new()));
    let file = detector.create_file_info("/home/u/a.rs", true);
    assert_eq!(file.name, "a.rs");
    assert_eq!(file.path, "/home/u/a.rs");
    assert!(file.is_active);
    assert!(!file.is_modified);
    assert_eq!(open_file("a.rs", false).name, "a.rs");
}

#[test]
fn files_of_the_command_line_end_the_detection() {
    let detector = VSCodeDetector::new();
    let mut evidence = home();
    stored(&mut evidence, "abc", 1, "/w", Some(layout(&["/w/s.rs"], "[0]")));
    evidence.paths.push(fact("/w", PathKind::Dir));
    evidence.paths.push(fact("/w/a.rs", PathKind::File));
    evidence.command_lines.push(CommandLine { pid: 1, args: args(&["code", "/w"]) });
    evidence.command_lines.push(CommandLine { pid: 2, args: args(&["code", "/w/a.rs", "/x/"]) });
    evidence.paths.push(fact("/x/", PathKind::Dir));
    let result = detector.extract_files(&[code(1), code(3), code(2)], &evidence).unwrap();
    assert_eq!(result.ide_name, "Visual Studio Code");
    assert_eq!(result.project_path, Some("/w".to_string()));
    assert_eq!(result.open_files.len(), 1);
    assert_eq!(result.open_files[0].path, "/w/a.rs");
    assert_eq!(result.active_file, None);
}

#[test]
fn session_of_the_workspace_gives_the_files() {
    let detector = VSCodeDetector::new();
    let mut evidence = home();
    stored(&mut evidence, "other", 9, "/elsewhere", Some(layout(&["/elsewhere/x.rs"], "[0]")));
    stored(&mut evidence, "abc", 1, "/home/u/proj", Some(layout(&["/home/u/proj/a.rs", "/home/u/proj/b.rs"], "[1,0]")));
    evidence.paths.push(fact("/home/u/proj", PathKind::Dir));
    evidence.command_lines.push(CommandLine { pid: 1, args: args(&["code", "/home/u/proj"]) });
    let result = detector.extract_files(&[code(1)], &evidence).unwrap();
    let paths: Vec<&str> = result.open_files.iter().map(|f| f.path.as_str()).collect();
    assert_eq!(paths, vec!["/home/u/proj/a.rs", "/home/u/proj/b.rs"]);
    assert!(!result.open_files[0].is_active);
    assert!(result.open_files[1].is_active);
    assert_eq!(result.open_files[1].name, "b.rs");
    assert_eq!(result.active_file, Some("/home/u/proj/b.rs".to_string()));
    assert_eq!(result.project_path, Some("/home/u/proj".to_string()));
    assert_eq!(
        get_workspace_id(&evidence, "/home/u/proj", STORAGE),
        Some("abc".to_string())
    );
    assert_eq!(get_workspace_id(&evidence, "/nowhere", STORAGE), None);
    assert_eq!(
        databases_to_query(&evidence, "/home/u/proj"),
        vec![
            format!("{}/abc/state.vscdb", STORAGE),
            format!("{}/other/state.vscdb", STORAGE),
            format!("{}/abc/state.vscdb", STORAGE)
        ]
    );
}

#[test]
fn session_names_the_workspace_when_the_command_line_does_not() {
    let detector = VSCodeDetector::new();
    let mut evidence = home();
    stored(&mut evidence, "old", 1, "/old", Some(layout(&["/old/x.rs"], "[0]")));
    stored(&mut evidence, "new", 5, "/new", Some(layout(&["/new/a.rs"], "[0]")));
    let result = detector.extract_files(&[code(1)], &evidence).unwrap();
    assert_eq!(result.open_files.len(), 1);
    assert_eq!(result.open_files[0].path, "/old/x.rs");
    assert!(result.open_files[0].is_active);
    assert_eq!(result.project_path, Some("/old".to_string()));
}

#[test]
fn newest_session_with_files_stands_in_for_an_unknown_workspace() {
    let detector = VSCodeDetector::new();
    let mut evidence = home();
    stored(&mut evidence, "old", 1, "/old", Some(layout(&["/old/x.rs"], "[0]")));
    stored(&mut evidence, "empty", 8, "/empty", Some(layout(&[], "[]")));
    stored(&mut evidence, "new", 5, "/new", Some(layout(&["/new/a.rs"], "[0]")));
    evidence.paths.push(fact("/unknown", PathKind::Dir));
    evidence.command_lines.push(CommandLine { pid: 1, args: args(&["code", "/unknown"]) });
    let result = detector.extract_files(&[code(1)], &evidence).unwrap();
    assert_eq!(result.open_files.len(), 1);
    assert_eq!(result.open_files[0].path, "/new/a.rs");
    assert!(result.open_files[0].is_active);
    assert_eq!(result.project_path, Some("/unknown".to_string()));
    let (files, workspace) = scan_all_vscode_sessions(&evidence, STORAGE).unwrap();
    assert_eq!(files.len(), 1);
    assert_eq!(workspace, Some("/new".to_string()));
}

#[test]
fn scan_looks_at_the_two_newest_directories_only() {
    let mut evidence = home();
    stored(&mut evidence, "a", 7, "/a", None);
    stored(&mut evidence, "b", 9, "/b", Some("not json".to_string()));
    stored(&mut evidence, "c", 5, "/c", Some(layout(&["/c/x.rs"], "[0]")));
    assert!(scan_all_vscode_sessions(&evidence, STORAGE).is_none());
    assert!(get_vscode_session_files(&evidence, "/nowhere").is_none());
    assert!(scan_all_vscode_sessions(&evidence, "/nowhere").is_none());
}

#[test]
fn newest_directories_come_first() {
    let entries = vec![
        dir("/s/a", 3),
        file("/s/f"),
        None,
        dir("/s/b", 9),
        dir("/s/c", 9),
        dir("/s/d", 1),
    ];
    let dirs = directories_of(&entries);
    let names: Vec<&str> = dirs.iter().map(|d| d.path.as_str()).collect();
    assert_eq!(names, vec!["/s/a", "/s/b", "/s/c", "/s/d"]);
    assert_eq!(newest_of(&dirs), Some(1));
    let two = two_newest_of(&dirs);
    let names: Vec<&str> = two.iter().map(|d| d.path.as_str()).collect();
    assert_eq!(names, vec!["/s/b", "/s/c"]);
    assert_eq!(newest_of(&Vec::new()), None);
    assert!(two_newest_of(&Vec::new()).is_empty());
    assert_eq!(two_newest_of(&directories_of(&vec![dir("/s/a", 0)])).len(), 1);
}

#[test]
fn unreadable_database_of_the_workspace_gives_no_session() {
    let mut evidence = home();
    stored(&mut evidence, "abc", 1, "/w", None);
    stored(&mut evidence, "new", 5, "/new", Some(layout(&["/new/a.rs"], "[0]")));
    evidence.paths.push(fact(&format!("{}/abc/state.vscdb", STORAGE), PathKind::File));
    assert!(get_vscode_session_files(&evidence, "/w").is_none());
    assert!(parse_vscode_database(&evidence, &format!("{}/abc/state.vscdb", STORAGE)).is_none());
    let without_home = Evidence::new();
    assert!(get_vscode_session_files(&without_home, "/w").is_none());
}

#[test]
fn workspace_is_read_from_its_description() {
    let mut evidence = Evidence::new();
    evidence.documents.push(Document {
        path: "/s/workspace.json".to_string(),
        content: "{\"folder\": \"file:///home/u/proj\", \"x\": 1}".to_string(),
    });
    evidence.documents.push(Document {
        path: "/s/remote.json".to_string(),
        content: "{\"folder\": \"vscode-remote://host/w\"}".to_string(),
    });
    evidence.documents.push(Document { path: "/s/list.json".to_string(), content: "[1,2]".to_string() });
    evidence.documents.push(Document { path: "/s/number.json".to_string(), content: "{\"folder\": 5}".to_string() });
    evidence.documents.push(Document { path: "/s/bad.json".to_string(), content: "{".to_string() });
    assert_eq!(
        extract_workspace_from_json(&evidence, "/s/workspace.json"),
        Some("/home/u/proj".to_string())
    );
    assert_eq!(
        extract_workspace_from_json(&evidence, "/s/remote.json"),
        Some("vscode-remote://host/w".to_string())
    );
    assert_eq!(extract_workspace_from_json(&evidence, "/s/list.json"), None);
    assert_eq!(extract_workspace_from_json(&evidence, "/s/number.json"), None);
    assert_eq!(extract_workspace_from_json(&evidence, "/s/bad.json"), None);
    assert_eq!(extract_workspace_from_json(&evidence, "/s/none.json"), None);
}

#[test]
fn guess_takes_source_files_of_the_first_entries() {
    let mut evidence = Evidence::new();
    let mut entries = vec![
        file("/w/readme.txt"),
        dir("/w/src.rs", 0),
        None,
        file("/w/a.rs"),
        file("/w/b.py"),
        file("/w/c.go"),
        file("/w/d.md"),
        file("/w/e.json"),
        file("/w/f.c"),
        file("/w/g.ts"),
        file("/w/h.js"),
    ];
    evidence.listings.push(Listing { path: "/w".to_string(), entries: entries.clone() });
    let files = get_vscode_files_heuristic(&evidence, "/w");
    let paths: Vec<&str> = files.iter().map(|f| f.path.as_str()).collect();
    assert_eq!(paths, vec!["/w/a.rs", "/w/b.py", "/w/c.go", "/w/d.md", "/w/e.json"]);
    assert!(files[0].is_active);
    assert!(files.iter().skip(1).all(|f| !f.is_active));
    entries.truncate(4);
    entries.insert(0, file("/w/0.txt"));
    for i in 1..7 {
        entries.insert(0, file(&format!("/w/{}.txt", i)));
    }
    let mut evidence = Evidence::new();
    evidence.listings.push(Listing { path: "/w".to_string(), entries });
    assert_eq!(get_vscode_files_heuristic(&evidence, "/w").len(), 0);
    assert!(get_vscode_files_heuristic(&Evidence::new(), "/w").is_empty());
    assert!(looks_like_source(&"x.java".chars().collect()));
    assert!(looks_like_source(&"x.cpp".chars().collect()));
    assert!(!looks_like_source(&"x.h".chars().collect()));
}

#[test]
fn guess_stands_in_for_a_missing_session() {
    let detector = VSCodeDetector::new();
    let mut evidence = Evidence::new();
    evidence.paths.push(fact("/w", PathKind::Dir));
    evidence.command_lines.push(CommandLine { pid: 1, args: args(&["code", "/w"]) });
    evidence.listings.push(Listing { path: "/w".to_string(), entries: vec![file("/w/main.rs")] });
    let result = detector.extract_files(&[code(1)], &evidence).unwrap();
    assert_eq!(result.open_files.len(), 1);
    assert_eq!(result.active_file, Some("/w/main.rs".to_string()));
    assert_eq!(result.project_path, Some("/w".to_string()));
    let (files, workspace) = read_recent_files(&evidence, "/w");
    assert_eq!(files.len(), 1);
    assert_eq!(workspace, None);
    assert_eq!(detector.get_vscode_recent_files("/w", &evidence).0.len(), 1);
}

#[test]
fn nothing_found_is_a_failure_to_parse() {
    let detector = VSCodeDetector::new();
    match detector.extract_files(&[code(1)], &Evidence::new()) {
        Err(DetectionError::WindowParseError { message }) => {
            assert_eq!(message, "No workspace or files detected for VSCode")
        }
        _ => panic!("a failure to parse was expected"),
    }
    let mut evidence = Evidence::new();
    evidence.paths.push(fact("/w", PathKind::Dir));
    evidence.command_lines.push(CommandLine { pid: 1, args: args(&["code", "/w"]) });
    assert!(matches!(
        detector.extract_files(&[code(1)], &evidence),
        Err(DetectionError::WindowParseError { .. })
    ));
}

#[test]
fn places_of_the_storage_are_named() {
    assert_eq!(storage_path("/home/u"), STORAGE);
    assert_eq!(description_path("/s/abc"), "/s/abc/workspace.json");
}
