use ide_files::detector::DetectionError;
use ide_files::types::SupportedIDE;

#[test]
fn keys_of_all_editors() {
    let keys: Vec<&str> = SupportedIDE::all().iter().map(|ide| ide.as_str()).collect();
    assert_eq!(
        keys,
        vec![
            "goland", "pycharm", "idea", "vscode", "vs", "webstorm", "phpstorm", "rubymine",
            "clion", "vim", "nano"
        ]
    );
}

#[test]
fn display_names_of_all_editors() {
    let names: Vec<&str> = SupportedIDE::all().iter().map(|ide| ide.display_name()).collect();
    assert_eq!(
        names,
        vec![
            "GoLand",
            "PyCharm",
            "IntelliJ IDEA",
            "Visual Studio Code",
            "Visual Studio",
            "WebStorm",
            "PhpStorm",
            "RubyMine",
            "CLion",
            "Vim",
            "Nano"
        ]
    );
}

#[test]
fn from_str_finds_each_key() {
    for ide in SupportedIDE::all() {
        assert_eq!(SupportedIDE::from_str(ide.as_str()), Some(ide));
    }
}

#[test]
fn from_str_ignores_ascii_case() {
    assert_eq!(SupportedIDE::from_str("GoLand"), Some(SupportedIDE::GoLand));
    assert_eq!(SupportedIDE::from_str("VSCODE"), Some(SupportedIDE::VSCode));
    assert_eq!(SupportedIDE::from_str("Vs"), Some(SupportedIDE::VisualStudio));
}

#[test]
fn from_str_rejects_unknown_keys() {
    assert_eq!(SupportedIDE::from_str(""), None);
    assert_eq!(SupportedIDE::from_str("emacs"), None);
    assert_eq!(SupportedIDE::from_str("goland "), None);
    assert_eq!(SupportedIDE::from_str("IntelliJ IDEA"), None);
}

#[test]
fn from_str_does_not_fold_other_letters() {
    // U+212A, the Kelvin sign, is lower-cased to `k` by Unicode but is no ASCII letter.
    assert_eq!(SupportedIDE::from_str("vscode"), Some(SupportedIDE::VSCode));
    assert_eq!(SupportedIDE::from_str("\u{212a}"), None);
}

#[test]
fn errors_are_reported_in_sentences() {
    let e = DetectionError::NoProcessFound { ide: "GoLand".to_string() };
    assert_eq!(e.to_string(), "No GoLand processes found");
    let e = DetectionError::WindowParseError { message: "No files detected for Vim".to_string() };
    assert_eq!(
        e.to_string(),
        "Failed to parse window information: No files detected for Vim"
    );
    let e = DetectionError::SystemError { message: "denied".to_string() };
    assert_eq!(e.to_string(), "System API error: denied");
    let e = DetectionError::UnsupportedIDE { ide: "Visual Studio".to_string() };
    assert_eq!(e.to_string(), "Unsupported IDE: Visual Studio");
}
