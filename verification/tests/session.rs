use gamebooster::model::{Game, Profile, Recovery};
use gamebooster::session::{
    finish_record, launch_expects, launch_step, pending_statuses, recovery_target, LaunchAction, LaunchEvent,
    LaunchState, SpawnOutcome,
};

fn describe(a: &LaunchAction) -> String {
    match a {
        LaunchAction::Reject(m) => format!("reject:{}", m),
        LaunchAction::Fail(m) => format!("fail:{}", m),
        LaunchAction::CheckPending => "check-pending".to_string(),
        LaunchAction::LoadGame => "load-game".to_string(),
        LaunchAction::CheckExecutable(p) => format!("check:{}", p),
        LaunchAction::LoadProfile => "load-profile".to_string(),
        LaunchAction::ReadActive => "read-active".to_string(),
        LaunchAction::StartSession { preset, previous, applied } => {
            format!("start:{}:{:?}:{:?}", preset, previous, applied)
        },
        LaunchAction::ApplyScheme(g) => format!("apply:{}", g),
        LaunchAction::RecordOperation { id, status, detail } => format!("record:{}:{}:{}", id, status, detail),
        LaunchAction::Spawn(p) => format!("spawn:{}", p),
        LaunchAction::FinishSession { id, previous, applied, final_status } => {
            format!("finish:{}:{:?}:{:?}:{}", id, previous, applied, final_status)
        },
        LaunchAction::Launched { id, previous, applied, final_status } => {
            format!("launched:{}:{:?}:{:?}:{}", id, previous, applied, final_status)
        },
    }
}

fn run(events: Vec<LaunchEvent>) -> Vec<String> {
    let mut state = LaunchState::Ready;
    let mut out = Vec::new();
    for e in events {
        assert!(launch_expects(&state, &e));
        let (next, action) = launch_step(state, e);
        out.push(describe(&action));
        state = next;
    }
    out
}

fn game(exe: Option<&str>) -> Game {
    Game {
        id: 3,
        name: "Example".to_string(),
        executable: exe.map(|e| e.to_string()),
        install_path: None,
        source: "manual".to_string(),
    }
}

fn profile(preset: &str, scheme: Option<&str>) -> Profile {
    Profile { game_id: 3, preset: preset.to_string(), power_scheme: scheme.map(|s| s.to_string()) }
}

const OLD: &str = "381b4222-f694-41f0-9685-ff5bb260df2e";
const NEW: &str = "8c5e7fda-e8bf-4a96-9a85-a6e23a8c635c";

#[test]
fn balanced_launch_changes_nothing() {
    let steps = run(vec![
        LaunchEvent::Begin { already_active: false },
        LaunchEvent::PendingChecked(Ok(false)),
        LaunchEvent::GameLoaded(Ok(game(Some("C:\\Example\\game.exe")))),
        LaunchEvent::ExecutableChecked(true),
        LaunchEvent::ProfileLoaded(Ok(profile("Balanced", None))),
        LaunchEvent::SessionStarted(Ok(11)),
        LaunchEvent::Spawned(SpawnOutcome::Started),
    ]);
    assert_eq!(
        steps,
        vec![
            "check-pending",
            "load-game",
            "check:C:\\Example\\game.exe",
            "load-profile",
            "start:Balanced:None:None",
            "spawn:C:\\Example\\game.exe",
            "launched:11:None:None:completed",
        ]
    );
}

#[test]
fn custom_launch_records_then_applies() {
    let steps = run(vec![
        LaunchEvent::Begin { already_active: false },
        LaunchEvent::PendingChecked(Ok(false)),
        LaunchEvent::GameLoaded(Ok(game(Some("g.exe")))),
        LaunchEvent::ExecutableChecked(true),
        LaunchEvent::ProfileLoaded(Ok(profile("Custom", Some(NEW)))),
        LaunchEvent::ActiveRead(Ok(OLD.to_string())),
        LaunchEvent::SessionStarted(Ok(5)),
        LaunchEvent::SchemeApplied(Ok(())),
        LaunchEvent::Recorded,
        LaunchEvent::Spawned(SpawnOutcome::Started),
    ]);
    assert_eq!(steps[4], "read-active");
    assert_eq!(steps[5], format!("start:Custom:Some({:?}):Some({:?})", OLD, NEW));
    assert_eq!(steps[6], format!("apply:{}", NEW));
    assert_eq!(steps[7], "record:5:applied:Change verified");
    assert_eq!(steps[8], "spawn:g.exe");
    assert_eq!(steps[9], format!("launched:5:Some({:?}):Some({:?}):completed", OLD, NEW));
}

#[test]
fn scheme_already_in_force_is_not_applied() {
    let steps = run(vec![
        LaunchEvent::Begin { already_active: false },
        LaunchEvent::PendingChecked(Ok(false)),
        LaunchEvent::GameLoaded(Ok(game(Some("g.exe")))),
        LaunchEvent::ExecutableChecked(true),
        LaunchEvent::ProfileLoaded(Ok(profile("Performance", Some(NEW)))),
        LaunchEvent::ActiveRead(Ok(NEW.to_string())),
        LaunchEvent::SessionStarted(Ok(6)),
    ]);
    assert_eq!(steps[5], format!("start:Performance:Some({:?}):None", NEW));
    assert_eq!(steps[6], "spawn:g.exe");
}

#[test]
fn failed_apply_restores_then_fails() {
    let steps = run(vec![
        LaunchEvent::Begin { already_active: false },
        LaunchEvent::PendingChecked(Ok(false)),
        LaunchEvent::GameLoaded(Ok(game(Some("g.exe")))),
        LaunchEvent::ExecutableChecked(true),
        LaunchEvent::ProfileLoaded(Ok(profile("Custom", Some(NEW)))),
        LaunchEvent::ActiveRead(Ok(OLD.to_string())),
        LaunchEvent::SessionStarted(Ok(8)),
        LaunchEvent::SchemeApplied(Err("Windows rejected the power scheme change".to_string())),
        LaunchEvent::Recorded,
        LaunchEvent::Finished,
    ]);
    assert_eq!(steps[7], "record:8:apply_failed:Windows rejected the power scheme change");
    assert_eq!(steps[8], format!("finish:8:Some({:?}):Some({:?}):apply_failed", OLD, NEW));
    assert_eq!(steps[9], "fail:Windows rejected the power scheme change");
}

#[test]
fn failed_start_restores_then_fails() {
    let steps = run(vec![
        LaunchEvent::Begin { already_active: false },
        LaunchEvent::PendingChecked(Ok(false)),
        LaunchEvent::GameLoaded(Ok(game(Some("g.exe")))),
        LaunchEvent::ExecutableChecked(true),
        LaunchEvent::ProfileLoaded(Ok(profile("Balanced", None))),
        LaunchEvent::SessionStarted(Ok(9)),
        LaunchEvent::Spawned(SpawnOutcome::Failed),
        LaunchEvent::Finished,
    ]);
    assert_eq!(steps[6], "finish:9:None:None:launch_failed");
    assert_eq!(
        steps[7],
        "fail:Could not start the game. Any power-plan change was restored or left for recovery"
    );
}

#[test]
fn launch_refusals() {
    assert_eq!(run(vec![LaunchEvent::Begin { already_active: true }]), vec!["reject:A game session is already running"]);
    let pending = run(vec![LaunchEvent::Begin { already_active: false }, LaunchEvent::PendingChecked(Ok(true))]);
    assert_eq!(pending[1], "fail:Recover the unfinished session before starting another");
    let no_exe = run(vec![
        LaunchEvent::Begin { already_active: false },
        LaunchEvent::PendingChecked(Ok(false)),
        LaunchEvent::GameLoaded(Ok(game(None))),
    ]);
    assert_eq!(no_exe[2], "fail:Add an executable path for this game first");
    let missing = run(vec![
        LaunchEvent::Begin { already_active: false },
        LaunchEvent::PendingChecked(Ok(false)),
        LaunchEvent::GameLoaded(Ok(game(Some("g.exe")))),
        LaunchEvent::ExecutableChecked(false),
    ]);
    assert_eq!(missing[3], "fail:Game executable no longer exists");
    let no_parent = run(vec![
        LaunchEvent::Begin { already_active: false },
        LaunchEvent::PendingChecked(Ok(false)),
        LaunchEvent::GameLoaded(Ok(game(Some("g.exe")))),
        LaunchEvent::ExecutableChecked(true),
        LaunchEvent::ProfileLoaded(Ok(profile("Balanced", None))),
        LaunchEvent::SessionStarted(Ok(1)),
        LaunchEvent::Spawned(SpawnOutcome::NoParent),
    ]);
    assert_eq!(no_parent[6], "fail:Invalid executable path");
    let db = run(vec![LaunchEvent::Begin { already_active: false }, LaunchEvent::PendingChecked(Err("locked".to_string()))]);
    assert_eq!(db[1], "fail:locked");
}

#[test]
fn out_of_order_events_are_not_expected() {
    assert!(!launch_expects(&LaunchState::Ready, &LaunchEvent::Finished));
    assert!(!launch_expects(&LaunchState::Over, &LaunchEvent::Begin { already_active: false }));
}

#[test]
fn finish_records() {
    let done = finish_record("completed", Ok("No system setting changed".to_string()));
    assert_eq!(done.operation_status, "restored");
    assert_eq!(done.session_status, "completed");
    assert_eq!(done.detail, "No system setting changed");
    assert!(done.finished);
    let apply = finish_record("apply_failed", Ok("Already restored".to_string()));
    assert_eq!(apply.operation_status, "apply_failed");
    assert_eq!(apply.session_status, "apply_failed");
    let failed = finish_record("completed", Err("conflict".to_string()));
    assert_eq!(failed.operation_status, "restore_failed");
    assert_eq!(failed.session_status, "restore_failed");
    assert_eq!(failed.detail, "conflict");
    assert!(!failed.finished);
    let statuses = pending_statuses();
    assert!(statuses.contains(&failed.session_status));
    assert!(!statuses.contains(&done.session_status));
    assert_eq!(statuses, vec!["prepared", "running", "restore_failed"]);
}

fn recovery() -> Recovery {
    Recovery {
        session_id: 4,
        game_name: "Example".to_string(),
        previous_scheme: Some("old".to_string()),
        applied_scheme: Some("new".to_string()),
        status: "prepared".to_string(),
    }
}

#[test]
fn recovery_needs_an_idle_app_and_a_pending_session() {
    assert_eq!(recovery_target(true, Ok(Some(recovery()))).err().as_deref(), Some("The game is still running"));
    assert_eq!(recovery_target(false, Ok(None)).err().as_deref(), Some("No pending session"));
    assert_eq!(recovery_target(false, Err("db".to_string())).err().as_deref(), Some("db"));
    let target = recovery_target(false, Ok(Some(recovery()))).ok().unwrap();
    assert_eq!(target.session_id, 4);
    assert_eq!(target.previous_scheme.as_deref(), Some("old"));
    let recovered = finish_record("recovered", Ok("Already restored".to_string()));
    assert_eq!(recovered.operation_status, "restored");
    assert_eq!(recovered.session_status, "recovered");
}
