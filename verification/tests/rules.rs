use gamebooster::model::Profile;
use gamebooster::rules::{check_executable, executable_updated, normalize_profile, prepare_new_game, trimmed};

fn profile(preset: &str, scheme: Option<&str>) -> Profile {
    Profile { game_id: 7, preset: preset.to_string(), power_scheme: scheme.map(|s| s.to_string()) }
}

fn error_of(p: Profile) -> String {
    match normalize_profile(p) {
        Ok(_) => "ok".to_string(),
        Err(e) => e,
    }
}

#[test]
fn profile_checks_in_order() {
    assert_eq!(error_of(profile("Turbo", Some("bad"))), "Invalid preset");
    assert_eq!(error_of(profile("Custom", Some("bad"))), "Invalid power scheme GUID");
    assert_eq!(
        error_of(profile("Balanced", Some("381b4222-f694-41f0-9685-ff5bb260df2e"))),
        "Balanced does not change the power plan"
    );
    assert_eq!(error_of(profile("Performance", None)), "Performance uses the Windows High performance scheme");
    assert_eq!(
        error_of(profile("Performance", Some("381b4222-f694-41f0-9685-ff5bb260df2e"))),
        "Performance uses the Windows High performance scheme"
    );
    assert_eq!(error_of(profile("balanced", None)), "Invalid preset");
}

#[test]
fn profile_scheme_is_lowercased() {
    let p = normalize_profile(profile("Performance", Some("8C5E7FDA-E8BF-4A96-9A85-A6E23A8C635C"))).unwrap();
    assert_eq!(p.game_id, 7);
    assert_eq!(p.preset, "Performance");
    assert_eq!(p.power_scheme.as_deref(), Some("8c5e7fda-e8bf-4a96-9a85-a6e23a8c635c"));
    let again = normalize_profile(p).unwrap();
    assert_eq!(again.power_scheme.as_deref(), Some("8c5e7fda-e8bf-4a96-9a85-a6e23a8c635c"));
    let b = normalize_profile(profile("Balanced", None)).unwrap();
    assert_eq!(b.power_scheme, None);
    let c = normalize_profile(profile("Custom", Some("381B4222-f694-41f0-9685-ff5bb260df2e"))).unwrap();
    assert_eq!(c.power_scheme.as_deref(), Some("381b4222-f694-41f0-9685-ff5bb260df2e"));
}

#[test]
fn trimming_uses_unicode_whitespace() {
    assert_eq!(trimmed("  Portal 2\t\n"), "Portal 2");
    assert_eq!(trimmed("\u{3000}Game\u{A0}"), "Game");
    assert_eq!(trimmed("   "), "");
    assert_eq!(trimmed("a b"), "a b");
}

#[test]
fn new_games_need_an_exe_and_a_name() {
    assert_eq!(prepare_new_game("Game", false, Some("exe")), Err("Choose an existing .exe file".to_string()));
    assert_eq!(prepare_new_game("Game", true, Some("bat")), Err("Choose an existing .exe file".to_string()));
    assert_eq!(prepare_new_game("Game", true, None), Err("Choose an existing .exe file".to_string()));
    assert_eq!(prepare_new_game("  ", true, Some("EXE")), Err("Game name is required".to_string()));
    assert_eq!(prepare_new_game("  Game ", true, Some("Exe")), Ok("Game".to_string()));
    assert_eq!(check_executable(true, Some("exe")), Ok(()));
    assert_eq!(executable_updated(0), Err("Game not found".to_string()));
    assert_eq!(executable_updated(1), Ok(()));
}
