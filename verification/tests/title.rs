use ide_files::detectors::jetbrains::JetBrainsDetector;
use ide_files::readers::title::{
    file_of_title, parse_window_title, place_in_project, read_title_groups, title_form_text,
    TitleReading, TITLE_FORMS,
};
use ide_files::types::SupportedIDE;

fn goland() -> JetBrainsDetector {
    JetBrainsDetector::new(SupportedIDE::GoLand)
}

fn groups(items: &[Option<&str>]) -> Vec<Option<String>> {
    items.iter().map(|g| g.map(|s| s.to_string())).collect()
}

#[test]
fn full_title_names_file_project_and_directory() {
    let parsed = goland()
        .parse_jetbrains_window_title(
            "main.go - myapp [/home/u/myapp] - GoLand 2024.1")
        .unwrap();
    let (file, project_path) = parsed;
    assert_eq!(file.path, "/home/u/myapp/main.go");
    assert_eq!(file.name, "main.go");
    assert!(file.is_active);
    assert!(!file.is_modified);
    assert_eq!(file.tab_index, None);
    assert_eq!(file.project_name, Some("myapp".to_string()));
    assert_eq!(project_path, Some("/home/u/myapp".to_string()));
}

#[test]
fn full_title_with_an_asterisk_is_modified() {
    let (file, project_path) = goland()
        .parse_jetbrains_window_title(
            "main.go* - myapp [/home/u/myapp] - GoLand 2024.1")
        .unwrap();
    assert!(file.is_modified);
    assert_eq!(file.name, "main.go");
    assert_eq!(file.path, "/home/u/myapp/main.go");
    assert_eq!(project_path, Some("/home/u/myapp".to_string()));
}

#[test]
fn title_of_a_project_alone_names_no_file() {
    assert!(goland()
        .parse_jetbrains_window_title("myapp - GoLand 2024.1")
        .is_none());
}

#[test]
fn title_without_any_form_names_no_file() {
    assert!(goland().parse_jetbrains_window_title("").is_none());
    assert!(goland().parse_jetbrains_window_title("Welcome").is_none());
}

#[test]
fn path_is_directory_slash_name() {
    let titles = [
        ("a.rs - p [/x] - CLion 2023.3.2", "/x", "a.rs"),
        ("lib/mod.py - tool kit [/srv/tool kit] - PyCharm 2024.2", "/srv/tool kit", "lib/mod.py"),
        ("  b.kt   -  q  [ /y/z ]  -  IntelliJ IDEA 2024.1", "/y/z", "b.kt"),
    ];
    for (title, dir, name) in titles {
        let (file, project_path) =
            parse_window_title(title).unwrap();
        assert_eq!(project_path, Some(dir.to_string()));
        assert_eq!(file.name, name);
        assert_eq!(file.path, format!("{}/{}", dir, name));
    }
}

#[test]
fn directory_that_ends_in_a_slash_gets_no_second_one() {
    let (file, project_path) =
        parse_window_title("a.go - p [/x/] - GoLand 2024.1").unwrap();
    assert_eq!(project_path, Some("/x/".to_string()));
    assert_eq!(file.path, "/x/a.go");
}

#[test]
fn title_without_directory_gives_the_name_alone() {
    let (file, project_path) =
        parse_window_title("main.go - myapp - GoLand 2024.1").unwrap();
    assert_eq!(file.path, "main.go");
    assert_eq!(file.name, "main.go");
    assert_eq!(file.project_name, Some("myapp".to_string()));
    assert!(!file.is_modified);
    assert_eq!(project_path, None);
}

#[test]
fn equal_titles_are_read_alike() {
    let title = "main.go* - myapp - GoLand 2024.1";
    let (first, first_dir) = parse_window_title(title).unwrap();
    let (second, second_dir) = goland().parse_jetbrains_window_title(title).unwrap();
    assert_eq!(first.path, second.path);
    assert_eq!(first.path, "main.go");
    assert_eq!(first.is_modified, second.is_modified);
    assert_eq!(first.project_name, second.project_name);
    assert_eq!(first_dir, None);
    assert_eq!(second_dir, None);
}

#[test]
fn place_in_project_puts_one_slash() {
    assert_eq!(place_in_project("/d", "a.go"), "/d/a.go");
    assert_eq!(place_in_project("/d//", "a.go"), "/d/a.go");
    assert_eq!(place_in_project("", "a.go"), "/a.go");
}

#[test]
fn short_title_with_a_dash_names_project_then_file() {
    let (file, project_path) =
        parse_window_title("myproj \u{2013} main.py").unwrap();
    assert_eq!(file.name, "main.py");
    assert_eq!(file.path, "main.py");
    assert_eq!(file.project_name, Some("myproj".to_string()));
    assert!(!file.is_modified);
    assert!(file.is_active);
    assert_eq!(project_path, None);
}

#[test]
fn file_named_like_the_project_is_rejected_by_the_first_form() {
    let reading = read_title_groups(
        0,
        &groups(&[Some("x"), Some("MyApp"), None, Some("myapp "), Some("/p"), Some("GoLand"), Some("1")]));
    assert!(matches!(reading, TitleReading::Rejected));
    let reading = read_title_groups(
        1,
        &groups(&[Some("x"), Some(" "), None, Some("myapp")]));
    assert!(matches!(reading, TitleReading::Rejected));
}

#[test]
fn groups_are_read_by_each_form() {
    let reading = read_title_groups(
        0,
        &groups(&[Some("x"), Some(" a.go "), Some("*"), Some("p"), Some(" /d// ")]));
    match reading {
        TitleReading::Accepted(file, project_path) => {
            assert_eq!(file.name, "a.go");
            assert_eq!(file.path, "/d/a.go");
            assert!(file.is_modified);
            assert_eq!(file.project_name, Some("p".to_string()));
            assert_eq!(project_path, Some("/d//".to_string()));
        }
        _ => panic!("the candidate should have been accepted"),
    }
    let reading = read_title_groups(
        0,
        &groups(&[Some("x"), Some("a.go"), None, Some("p")]));
    match reading {
        TitleReading::Accepted(file, project_path) => {
            assert_eq!(file.path, "a.go");
            assert!(!file.is_modified);
            assert_eq!(project_path, None);
        }
        _ => panic!("the candidate should have been accepted"),
    }
    let reading =
        read_title_groups(2, &groups(&[Some("x"), Some("p"), Some("a.go")]));
    match reading {
        TitleReading::Accepted(file, _) => {
            assert_eq!(file.name, "a.go");
            assert_eq!(file.project_name, Some("p".to_string()));
        }
        _ => panic!("the candidate should have been accepted"),
    }
    let reading =
        read_title_groups(2, &groups(&[Some("x"), Some("p"), Some("  ")]));
    assert!(matches!(reading, TitleReading::Rejected));
    let reading =
        read_title_groups(2, &groups(&[Some("x"), Some("App"), Some(" app ")]));
    assert!(matches!(reading, TitleReading::Rejected));
}

#[test]
fn short_title_that_repeats_the_project_names_no_file() {
    assert!(parse_window_title("myapp \u{2013} MyApp").is_none());
}

#[test]
fn missing_groups_end_the_reading() {
    let none: Vec<Option<String>> = Vec::new();
    assert!(matches!(read_title_groups(0, &none), TitleReading::Nothing));
    assert!(matches!(
        read_title_groups(0, &groups(&[Some("x"), Some("a"), None, None])),
        TitleReading::Nothing
    ));
    assert!(matches!(
        read_title_groups(2, &groups(&[Some("x"), None, Some("a")])),
        TitleReading::Nothing
    ));
    assert!(matches!(
        read_title_groups(3, &groups(&[Some("x"), Some("a"), Some("b"), Some("1")])),
        TitleReading::Nothing
    ));
    assert!(matches!(
        read_title_groups(9, &groups(&[Some("x"), Some("a")])),
        TitleReading::Nothing
    ));
}

#[test]
fn there_are_four_forms() {
    assert_eq!(TITLE_FORMS, 4);
    assert!(title_form_text(0).contains("\\["));
    assert!(title_form_text(2).contains('\u{2013}'));
    assert_ne!(title_form_text(1), title_form_text(3));
}

#[test]
fn file_of_title_places_the_file_in_the_directory() {
    let name: Vec<char> = "a.go".chars().collect();
    let project: Vec<char> = "p".chars().collect();
    let file = file_of_title(&name, true, &project, &Some("/d/".to_string()));
    assert_eq!(file.path, "/d/a.go");
    assert_eq!(file.name, "a.go");
    assert!(file.is_active);
    assert!(file.is_modified);
    assert_eq!(file.project_name, Some("p".to_string()));
    let file = file_of_title(&name, false, &project, &None);
    assert_eq!(file.path, "a.go");
}
