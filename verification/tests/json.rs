use ide_files::json::{parse_json, Json};
use ide_files::readers::editor_layout::{
    grid_of, parse_editor, parse_editor_group, parse_editor_state, parse_grid_entry,
};

#[test]
fn json_is_read_one_level_deep() {
    assert!(matches!(parse_json("null"), Some(Json::Null)));
    assert!(matches!(parse_json(" true "), Some(Json::Bool(true))));
    assert!(matches!(parse_json("7"), Some(Json::Number(Some(7)))));
    assert!(matches!(parse_json("18446744073709551615"), Some(Json::Number(Some(u64::MAX)))));
    assert!(matches!(parse_json("-7"), Some(Json::Number(None))));
    assert!(matches!(parse_json("1.5"), Some(Json::Number(None))));
    match parse_json("\"a\\\"b\"") {
        Some(Json::Text(text)) => assert_eq!(text, "a\"b"),
        _ => panic!("a string was expected"),
    }
    match parse_json("[1, \"x\", {\"a\": [2]}]") {
        Some(Json::Array(items)) => assert_eq!(items, vec!["1", "\"x\"", "{\"a\":[2]}"]),
        _ => panic!("an array was expected"),
    }
    match parse_json("{\"b\": 1, \"a\": {\"c\": null}}") {
        Some(Json::Object(members)) => {
            assert_eq!(
                members,
                vec![
                    ("a".to_string(), "{\"c\":null}".to_string()),
                    ("b".to_string(), "1".to_string())
                ]
            );
        }
        _ => panic!("an object was expected"),
    }
}

#[test]
fn text_that_is_no_json_is_not_read() {
    assert!(parse_json("").is_none());
    assert!(parse_json("{").is_none());
    assert!(parse_json("[1,]").is_none());
    assert!(parse_json("nul").is_none());
    assert!(parse_json("1 2").is_none());
}

#[test]
fn members_and_items_are_reached() {
    let value = parse_json("{\"a\": {\"b\": [10, 20]}, \"s\": \"t\", \"n\": 3}").unwrap();
    let inner = value.get("a").unwrap();
    let list = inner.get("b").unwrap();
    assert_eq!(list.as_array().unwrap(), &vec!["10".to_string(), "20".to_string()]);
    assert!(value.get("missing").is_none());
    assert!(list.get("a").is_none());
    assert_eq!(value.get("s").unwrap().as_str().unwrap(), "t");
    assert_eq!(value.get("n").unwrap().as_u64(), Some(3));
    assert_eq!(value.get("s").unwrap().as_u64(), None);
    assert!(value.get("n").unwrap().as_str().is_none());
    assert!(value.as_array().is_none());
}

fn editor(path: &str) -> String {
    format!(
        "{{\"id\":\"x\",\"value\":\"{{\\\"resourceJSON\\\":{{\\\"fsPath\\\":\\\"{}\\\"}}}}\"}}",
        path
    )
}

#[test]
fn editor_names_its_file_in_its_descriptor() {
    let file = parse_editor(&parse_json(&editor("/w/a.rs")).unwrap(), true).unwrap();
    assert_eq!(file.path, "/w/a.rs");
    assert_eq!(file.name, "a.rs");
    assert!(file.is_active);
    assert!(parse_editor(&parse_json("{\"value\": 5}").unwrap(), true).is_none());
    assert!(parse_editor(&parse_json("{\"value\": \"not json\"}").unwrap(), true).is_none());
    assert!(parse_editor(&parse_json("{\"value\": \"{}\"}").unwrap(), true).is_none());
    assert!(parse_editor(
        &parse_json("{\"value\": \"{\\\"resourceJSON\\\":{\\\"fsPath\\\":1}}\"}").unwrap(),
        true
    )
    .is_none());
    assert!(parse_editor(&parse_json("[]").unwrap(), true).is_none());
}

#[test]
fn first_of_the_order_of_use_is_the_active_editor() {
    let editors =
        parse_json(&format!("[{},{},{}]", editor("/w/a.rs"), "{}", editor("/w/c.rs"))).unwrap();
    let files = parse_editor_group(&editors, &parse_json("[2, 0]").unwrap());
    let paths: Vec<&str> = files.iter().map(|f| f.path.as_str()).collect();
    assert_eq!(paths, vec!["/w/a.rs", "/w/c.rs"]);
    assert!(!files[0].is_active);
    assert!(files[1].is_active);
    let files = parse_editor_group(&editors, &parse_json("[]").unwrap());
    assert!(files[0].is_active);
    assert!(!files[1].is_active);
    let files = parse_editor_group(&editors, &parse_json("[\"x\"]").unwrap());
    assert!(files[0].is_active);
    let files = parse_editor_group(&editors, &parse_json("[7]").unwrap());
    assert!(files.iter().all(|f| !f.is_active));
    assert!(parse_editor_group(&editors, &parse_json("{}").unwrap()).is_empty());
    assert!(parse_editor_group(&parse_json("{}").unwrap(), &parse_json("[]").unwrap()).is_empty());
}

#[test]
fn groups_of_the_grid_are_read_in_order() {
    let group = |paths: &[&str]| {
        let editors: Vec<String> = paths.iter().map(|p| editor(p)).collect();
        format!("{{\"data\":{{\"editors\":[{}],\"mru\":[0]}}}}", editors.join(","))
    };
    let state = format!(
        "{{\"editorpart.state\":{{\"serializedGrid\":{{\"root\":{{\"data\":[{},{{\"data\":{{\"editors\":[]}}}},{{}},{}]}}}}}}}}",
        group(&["/w/a.rs", "/w/b.rs"]),
        group(&["/w/c.rs"])
    );
    let state = parse_json(&state).unwrap();
    assert_eq!(grid_of(&state).unwrap().len(), 4);
    let files = parse_editor_state(&state);
    let paths: Vec<&str> = files.iter().map(|f| f.path.as_str()).collect();
    assert_eq!(paths, vec!["/w/a.rs", "/w/b.rs", "/w/c.rs"]);
    let active: Vec<bool> = files.iter().map(|f| f.is_active).collect();
    assert_eq!(active, vec![true, false, true]);
    assert_eq!(parse_grid_entry(&parse_json(&group(&["/w/c.rs"])).unwrap()).len(), 1);
    assert!(parse_grid_entry(&parse_json("{\"data\": 1}").unwrap()).is_empty());
}

#[test]
fn state_without_a_grid_lists_nothing() {
    for text in [
        "{}",
        "[]",
        "{\"editorpart.state\": {}}",
        "{\"editorpart.state\": {\"serializedGrid\": {\"root\": {}}}}",
        "{\"editorpart.state\": {\"serializedGrid\": {\"root\": {\"data\": {}}}}}",
    ] {
        let state = parse_json(text).unwrap();
        assert!(grid_of(&state).is_none());
        assert!(parse_editor_state(&state).is_empty());
    }
}
