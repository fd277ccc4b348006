use gamebooster::steam::{is_app_manifest, library_paths, likely_executable, quoted_field, ExeEntry};

#[test]
fn parses_manifest_field() {
    assert_eq!(quoted_field("\"name\"  \"Portal 2\"", "name"), Some("Portal 2".into()));
}

#[test]
fn quoted_field_takes_first_matching_line_case_insensitively() {
    let text = "\"AppState\"\n{\n\t\"appid\"\t\t\"620\"\r\n\t\"NAME\"\t\t\"Portal 2\"\r\n\t\"installdir\"\t\t\"Portal 2\"\r\n\t\"name\"\t\"Other\"\n}";
    assert_eq!(quoted_field(text, "name"), Some("Portal 2".into()));
    assert_eq!(quoted_field(text, "installdir"), Some("Portal 2".into()));
    assert_eq!(quoted_field(text, "missing"), None);
    assert_eq!(quoted_field("\"name\"", "name"), None);
    assert_eq!(quoted_field("", "name"), None);
}

#[test]
fn quoted_field_keeps_carriage_return_of_unterminated_last_line() {
    assert_eq!(quoted_field("\"name\" \"Half\r\n", "name"), Some("Half".into()));
    assert_eq!(quoted_field("\"name\" \"Half\r", "name"), Some("Half\r".into()));
}

#[test]
fn library_paths_collapse_doubled_backslashes() {
    let text = "\"libraryfolders\"\n{\n\t\"0\"\n\t{\n\t\t\"path\"\t\t\"C:\\\\Program Files (x86)\\\\Steam\"\n\t}\n\t\"1\"\n\t{\n\t\t\"PATH\"\t\t\"D:\\\\\\\\Games\"\n\t}\n}\n";
    assert_eq!(
        library_paths(text),
        vec!["C:\\Program Files (x86)\\Steam".to_string(), "D:\\\\Games".to_string()]
    );
    assert_eq!(library_paths("\"path\" \"a\\\\\\b\""), vec!["a\\\\b".to_string()]);
    assert!(library_paths("nothing here").is_empty());
}

#[test]
fn app_manifest_names() {
    assert!(is_app_manifest(Some("appmanifest_620.acf"), Some("acf")));
    assert!(!is_app_manifest(Some("appmanifest_620.ACF"), Some("ACF")));
    assert!(!is_app_manifest(Some("libraryfolders.acf"), Some("acf")));
    assert!(!is_app_manifest(None, Some("acf")));
    assert!(!is_app_manifest(Some("appmanifest_620"), None));
}

fn entry(path: &str, ext: Option<&str>, stem: Option<&str>) -> Option<ExeEntry> {
    Some(ExeEntry {
        path: path.to_string(),
        extension: ext.map(|e| e.to_string()),
        stem: stem.map(|s| s.to_string()),
    })
}

#[test]
fn likely_executable_prefers_matching_name() {
    let entries = vec![
        entry("C:\\G\\launcher.exe", Some("exe"), Some("launcher")),
        entry("C:\\G\\other.exe", Some("exe"), Some("other")),
        entry("C:\\G\\Portal 2.EXE", Some("EXE"), Some("Portal 2")),
    ];
    assert_eq!(likely_executable("portal2", &entries), Some("C:\\G\\Portal 2.EXE".to_string()));
}

#[test]
fn likely_executable_takes_single_candidate_only() {
    let one = vec![
        entry("C:\\G\\Uninstall Game.exe", Some("exe"), Some("Uninstall Game")),
        entry("C:\\G\\Setup.exe", Some("exe"), Some("Setup")),
        entry("C:\\G\\readme.txt", Some("txt"), Some("readme")),
        entry("C:\\G\\game.exe", Some("exe"), Some("game")),
    ];
    assert_eq!(likely_executable("Some Game", &one), Some("C:\\G\\game.exe".to_string()));
    let two = vec![entry("a.exe", Some("exe"), Some("a")), entry("b.exe", Some("exe"), Some("b"))];
    assert_eq!(likely_executable("Some Game", &two), None);
    assert_eq!(likely_executable("Some Game", &Vec::new()), None);
}

#[test]
fn likely_executable_stops_at_unreadable_entry() {
    let entries = vec![entry("game.exe", Some("exe"), Some("game")), None];
    assert_eq!(likely_executable("Some Game", &entries), None);
    let found_first = vec![entry("Game.exe", Some("exe"), Some("Game")), None];
    assert_eq!(likely_executable("game", &found_first), Some("Game.exe".to_string()));
}

#[test]
fn written_field_is_read_back_for_any_key_case() {
    assert_eq!(quoted_field("\"InstallDir\" \"Half-Life 2\"", "INSTALLDIR"), Some("Half-Life 2".into()));
    assert_eq!(quoted_field("\"name\" \"\"", "name"), Some(String::new()));
}

#[test]
fn shortened_uninstaller_names_are_still_candidates() {
    let entries = vec![
        entry("C:\\G\\unins000.exe", Some("exe"), Some("unins000")),
        entry("C:\\G\\game.exe", Some("exe"), Some("game")),
    ];
    assert_eq!(likely_executable("Some Game", &entries), None);
}

#[test]
fn executable_without_stem_ends_the_search() {
    let entries = vec![entry("C:\\G\\.exe", Some("exe"), None), entry("C:\\G\\game.exe", Some("exe"), Some("game"))];
    assert_eq!(likely_executable("game", &entries), None);
}
