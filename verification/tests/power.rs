use gamebooster::power::{
    active, guid_in, restore, restore_decision, valid_guid, CommandOutcome, RestoreAction, RestoreDecision,
    RestoreEvent, SetAction, SetEvent,
};
use gamebooster::power;

const BALANCED: &str = "381b4222-f694-41f0-9685-ff5bb260df2e";
const HIGH: &str = "8c5e7fda-e8bf-4a96-9a85-a6e23a8c635c";

#[test]
fn extracts_guid_without_localized_label() {
    assert_eq!(
        guid_in("Scheme: 381b4222-f694-41f0-9685-ff5bb260df2e (Balanced)").as_deref(),
        Some("381b4222-f694-41f0-9685-ff5bb260df2e")
    );
    assert!(!valid_guid("& calc.exe"));
}

#[test]
fn restoration_decisions_preserve_external_changes() {
    let old = Some("381b4222-f694-41f0-9685-ff5bb260df2e");
    let new = Some("8c5e7fda-e8bf-4a96-9a85-a6e23a8c635c");
    assert_eq!(restore_decision(old, new, new), RestoreDecision::ApplyPrevious);
    assert_eq!(restore_decision(old, new, old), RestoreDecision::AlreadyRestored);
    assert_eq!(restore_decision(old, new, Some("unexpected")), RestoreDecision::Conflict);
    assert_eq!(restore_decision(old, None, None), RestoreDecision::NoChange);
}

#[test]
fn guid_is_lowercased_and_first_one_wins() {
    let text = "GUID: 381B4222-F694-41F0-9685-FF5BB260DF2E  (x) 8c5e7fda-e8bf-4a96-9a85-a6e23a8c635c";
    assert_eq!(guid_in(text).as_deref(), Some(BALANCED));
}

#[test]
fn guid_inside_longer_hex_run_is_not_found() {
    assert_eq!(guid_in("a381b4222-f694-41f0-9685-ff5bb260df2e"), None);
    assert_eq!(guid_in("381b4222-f694-41f0-9685-ff5bb260df2e-"), None);
    assert_eq!(guid_in(""), None);
    assert_eq!(guid_in("381b4222-f694-41f0-9685-ff5bb260df2"), None);
}

#[test]
fn guid_after_non_ascii_separator_is_found() {
    assert_eq!(guid_in("Schéma\u{00A0}381b4222-f694-41f0-9685-ff5bb260df2e").as_deref(), Some(BALANCED));
}

#[test]
fn valid_guid_accepts_exact_guids_in_any_case() {
    assert!(valid_guid(BALANCED));
    assert!(valid_guid("381B4222-F694-41F0-9685-FF5BB260DF2E"));
    assert!(!valid_guid(" 381b4222-f694-41f0-9685-ff5bb260df2e"));
    assert!(!valid_guid("381b4222f694-41f0-9685-ff5bb260df2e0"));
    assert!(!valid_guid("381b4222-f694-41f0-9685-ff5bb260df2g"));
    assert!(!valid_guid(""));
}

#[test]
fn restore_decision_ignores_case_and_equal_schemes() {
    let upper = "8C5E7FDA-E8BF-4A96-9A85-A6E23A8C635C";
    assert_eq!(restore_decision(Some(BALANCED), Some(HIGH), Some(upper)), RestoreDecision::ApplyPrevious);
    assert_eq!(restore_decision(Some(HIGH), Some(upper), Some(BALANCED)), RestoreDecision::NoChange);
    assert_eq!(restore_decision(None, Some(HIGH), Some(HIGH)), RestoreDecision::NoChange);
    assert_eq!(restore_decision(Some(BALANCED), Some(HIGH), None), RestoreDecision::Conflict);
}

#[test]
fn active_reads_scheme_from_output() {
    let out = CommandOutcome::Finished {
        success: true,
        stdout: "Power Scheme GUID: 381B4222-F694-41F0-9685-FF5BB260DF2E  (Balanced)\r\n".to_string(),
    };
    assert_eq!(active(out), Ok(BALANCED.to_string()));
    let failed = CommandOutcome::Finished { success: false, stdout: BALANCED.to_string() };
    assert_eq!(active(failed), Err("Cannot read the active Windows power scheme".to_string()));
    let empty = CommandOutcome::Finished { success: true, stdout: "nothing".to_string() };
    assert_eq!(active(empty), Err("Windows did not return a power scheme GUID".to_string()));
    let missing = CommandOutcome::NotStarted("program not found".to_string());
    assert_eq!(active(missing), Err("program not found".to_string()));
}

fn set_action_text(a: SetAction) -> String {
    match a {
        SetAction::Fail(m) => format!("fail:{}", m),
        SetAction::RunSetActive(g) => format!("run:{}", g),
        SetAction::ReadActive => "read".to_string(),
        SetAction::Done => "done".to_string(),
    }
}

#[test]
fn set_checks_guid_runs_and_verifies() {
    assert_eq!(set_action_text(power::set("& calc.exe", SetEvent::Begin)), "fail:Invalid power scheme GUID");
    assert_eq!(set_action_text(power::set(HIGH, SetEvent::Begin)), format!("run:{}", HIGH));
    let ok = CommandOutcome::Finished { success: true, stdout: String::new() };
    assert_eq!(set_action_text(power::set(HIGH, SetEvent::Applied(ok))), "read");
    let rejected = CommandOutcome::Finished { success: false, stdout: String::new() };
    assert_eq!(
        set_action_text(power::set(HIGH, SetEvent::Applied(rejected))),
        "fail:Windows rejected the power scheme change"
    );
    let upper = "8C5E7FDA-E8BF-4A96-9A85-A6E23A8C635C";
    assert_eq!(set_action_text(power::set(upper, SetEvent::Verified(Ok(HIGH.to_string())))), "done");
    assert_eq!(
        set_action_text(power::set(HIGH, SetEvent::Verified(Ok(BALANCED.to_string())))),
        "fail:Power scheme change could not be verified"
    );
    assert_eq!(set_action_text(power::set(HIGH, SetEvent::Verified(Err("x".to_string())))), "fail:x");
}

fn restore_text(a: RestoreAction) -> String {
    match a {
        RestoreAction::ReadActive => "read".to_string(),
        RestoreAction::SetScheme(g) => format!("set:{}", g),
        RestoreAction::Finish(Ok(m)) => format!("ok:{}", m),
        RestoreAction::Finish(Err(m)) => format!("err:{}", m),
    }
}

#[test]
fn restore_walks_through_its_steps() {
    assert_eq!(restore_text(restore(Some(BALANCED), None, RestoreEvent::Begin)), "ok:No system setting changed");
    assert_eq!(restore_text(restore(Some(BALANCED), Some(HIGH), RestoreEvent::Begin)), "read");
    assert_eq!(
        restore_text(restore(Some(BALANCED), Some(HIGH), RestoreEvent::ActiveRead(Ok(HIGH.to_string())))),
        format!("set:{}", BALANCED)
    );
    assert_eq!(
        restore_text(restore(Some(BALANCED), Some(HIGH), RestoreEvent::ActiveRead(Ok(BALANCED.to_string())))),
        "ok:Already restored"
    );
    assert_eq!(
        restore_text(restore(Some(BALANCED), Some(HIGH), RestoreEvent::ActiveRead(Ok("other".to_string())))),
        "err:The power plan changed outside GameBooster; restore it manually or confirm the current plan before retrying"
    );
    assert_eq!(
        restore_text(restore(Some(BALANCED), Some(HIGH), RestoreEvent::ActiveRead(Err("no".to_string())))),
        "err:no"
    );
    assert_eq!(
        restore_text(restore(Some(BALANCED), Some(HIGH), RestoreEvent::SchemeSet(Ok(())))),
        "ok:Original power plan restored and verified"
    );
    assert_eq!(
        restore_text(restore(Some(BALANCED), Some(HIGH), RestoreEvent::SchemeSet(Err("denied".to_string())))),
        "err:denied"
    );
}
