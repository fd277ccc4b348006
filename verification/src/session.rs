use vstd::prelude::*;
use crate::model::{Game, Profile, Recovery};
use crate::power::owned;
use crate::steam::opt_view;
use crate::text::same_text;

verus! {

broadcast use vstd::string::group_string_axioms;

/// Statuses of a session that is not over: it must be recovered before another
/// session starts.
pub open spec fn is_pending_status(s: Seq<char>) -> bool {
    s == "prepared"@ || s == "running"@ || s == "restore_failed"@
}

pub open spec fn pending_statuses_spec() -> Seq<Seq<char>> {
    seq!["prepared"@, "running"@, "restore_failed"@]
}

pub open spec fn strings_view(v: Seq<String>) -> Seq<Seq<char>> {
    v.map_values(|s: String| s@)
}

/// The statuses under which a session is pending.
pub fn pending_statuses() -> (r: Vec<String>)
    ensures
        strings_view(r@) == pending_statuses_spec(),
        forall|s: Seq<char>| is_pending_status(s) <==> strings_view(r@).contains(s),
{
    let mut v: Vec<String> = Vec::new();
    v.push(owned("prepared"));
    v.push(owned("running"));
    v.push(owned("restore_failed"));
    let ghost w = strings_view(v@);
    assert(w =~= pending_statuses_spec());
    assert forall|s: Seq<char>| is_pending_status(s) <==> w.contains(s) by {
        if is_pending_status(s) {
            if s == "prepared"@ { assert(w[0] == s); }
            else if s == "running"@ { assert(w[1] == s); }
            else { assert(w[2] == s); }
        }
    }
    v
}

/// What is written when a session ends: the status of its power-plan
/// operation, the session's status, the restoration result, and whether the
/// session is over (its end time is recorded).
pub struct SessionRecord {
    pub operation_status: String,
    pub session_status: String,
    pub detail: String,
    pub finished: bool,
}

/// The record of a session ending with `final_status` once restoration gave
/// `result`. A failed restoration leaves the session `restore_failed` and
/// unfinished, so that it stays pending for a retry.
pub open spec fn finish_record_ok(final_status: Seq<char>, result: Result<String, String>, r: SessionRecord) -> bool {
    match result {
        Ok(message) => {
            &&& r.operation_status@ == (if final_status == "apply_failed"@ { "apply_failed"@ } else { "restored"@ })
            &&& r.session_status@ == final_status
            &&& r.detail@ == message@
            &&& r.finished
        },
        Err(message) => {
            &&& r.operation_status@ == "restore_failed"@
            &&& r.session_status@ == "restore_failed"@
            &&& r.detail@ == message@
            &&& !r.finished
        },
    }
}

/// How a session that ends with `final_status` is recorded, given the result
/// of restoring the power plan.
pub fn finish_record(final_status: &str, result: Result<String, String>) -> (r: SessionRecord)
    ensures
        finish_record_ok(final_status@, result, r),
{
    match result {
        Ok(message) => {
            let operation_status = if same_text(final_status, "apply_failed") {
                owned("apply_failed")
            } else {
                owned("restored")
            };
            SessionRecord { operation_status, session_status: owned(final_status), detail: message, finished: true }
        },
        Err(message) => SessionRecord {
            operation_status: owned("restore_failed"),
            session_status: owned("restore_failed"),
            detail: message,
            finished: false,
        },
    }
}

pub open spec fn still_running_msg() -> Seq<char> { "The game is still running"@ }
pub open spec fn no_pending_msg() -> Seq<char> { "No pending session"@ }

/// Choosing the session to recover, while `active` tells whether a game runs
/// and `pending` is what reading the pending session gave, gives `r`.
pub open spec fn recovery_target_ok(active: bool, pending: Result<Option<Recovery>, String>, r: Result<Recovery, String>) -> bool {
    &&& active ==> (r matches Err(m) && m@ == still_running_msg())
    &&& !active ==> match pending {
        Err(e) => r == Err::<Recovery, String>(e),
        Ok(None) => r matches Err(m) && m@ == no_pending_msg(),
        Ok(Some(p)) => r == Ok::<Recovery, String>(p),
    }
}

/// The session to recover: none while a game runs; the error of reading the
/// pending session; and none when nothing is pending.
pub fn recovery_target(active: bool, pending: Result<Option<Recovery>, String>) -> (r: Result<Recovery, String>)
    ensures
        recovery_target_ok(active, pending, r),
{
    if active {
        return Err(owned("The game is still running"));
    }
    match pending {
        Err(e) => Err(e),
        Ok(None) => Err(owned("No pending session")),
        Ok(Some(p)) => Ok(p),
    }
}


pub open spec fn busy_msg() -> Seq<char> { "A game session is already running"@ }
pub open spec fn unfinished_msg() -> Seq<char> { "Recover the unfinished session before starting another"@ }
pub open spec fn no_executable_msg() -> Seq<char> { "Add an executable path for this game first"@ }
pub open spec fn missing_executable_msg() -> Seq<char> { "Game executable no longer exists"@ }
pub open spec fn invalid_path_msg() -> Seq<char> { "Invalid executable path"@ }
pub open spec fn not_started_msg() -> Seq<char> {
    "Could not start the game. Any power-plan change was restored or left for recovery"@
}

/// Where launching a game stands.
pub enum LaunchState {
    Ready,
    CheckingPending,
    LoadingGame,
    CheckingExecutable { executable: String },
    LoadingProfile { executable: String },
    ReadingActive { executable: String, preset: String, scheme: String },
    StartingSession { executable: String, previous: Option<String>, applied: Option<String> },
    Applying { executable: String, id: i64, previous: Option<String>, target: String },
    RecordingApplied { executable: String, id: i64, previous: Option<String>, target: String },
    RecordingApplyFailure { id: i64, previous: Option<String>, target: String, message: String },
    Spawning { id: i64, previous: Option<String>, applied: Option<String> },
    Finishing { message: String },
    Over,
}

/// How starting the game process went.
pub enum SpawnOutcome {
    /// The executable path has no parent folder to start in.
    NoParent,
    /// The process could not be started.
    Failed,
    /// The process runs.
    Started,
}

/// What happened since the last step of launching.
pub enum LaunchEvent {
    /// Launching is asked for; `already_active` tells whether a session runs.
    Begin { already_active: bool },
    /// Whether a pending session exists, or the error of finding out.
    PendingChecked(Result<bool, String>),
    GameLoaded(Result<Game, String>),
    /// Whether the executable is an existing file.
    ExecutableChecked(bool),
    ProfileLoaded(Result<Profile, String>),
    ActiveRead(Result<String, String>),
    /// The new session's id, or the error of recording it.
    SessionStarted(Result<i64, String>),
    SchemeApplied(Result<(), String>),
    /// An operation record was written (or its failure ignored).
    Recorded,
    Spawned(SpawnOutcome),
    /// The session was finished (power plan restored, record written).
    Finished,
}

/// What launching does next.
pub enum LaunchAction {
    /// Refuse: a session already runs; the running session keeps the flag.
    Reject(String),
    /// Stop with this error; no session runs any more.
    Fail(String),
    CheckPending,
    LoadGame,
    CheckExecutable(String),
    LoadProfile,
    ReadActive,
    /// Record a prepared session with the scheme found in force and the
    /// scheme about to be applied.
    StartSession { preset: String, previous: Option<String>, applied: Option<String> },
    ApplyScheme(String),
    RecordOperation { id: i64, status: String, detail: String },
    Spawn(String),
    /// Restore the power plan and record the session's end with `final_status`.
    FinishSession { id: i64, previous: Option<String>, applied: Option<String>, final_status: String },
    /// The game runs: mark the session running, and when the game exits finish
    /// it with `final_status`; launching succeeds with `id`.
    Launched { id: i64, previous: Option<String>, applied: Option<String>, final_status: String },
}

/// The state expects this event.
pub open spec fn launch_accepts(state: LaunchState, event: LaunchEvent) -> bool {
    match (state, event) {
        (LaunchState::Ready, LaunchEvent::Begin { .. }) => true,
        (LaunchState::CheckingPending, LaunchEvent::PendingChecked(_)) => true,
        (LaunchState::LoadingGame, LaunchEvent::GameLoaded(_)) => true,
        (LaunchState::CheckingExecutable { .. }, LaunchEvent::ExecutableChecked(_)) => true,
        (LaunchState::LoadingProfile { .. }, LaunchEvent::ProfileLoaded(_)) => true,
        (LaunchState::ReadingActive { .. }, LaunchEvent::ActiveRead(_)) => true,
        (LaunchState::StartingSession { .. }, LaunchEvent::SessionStarted(_)) => true,
        (LaunchState::Applying { .. }, LaunchEvent::SchemeApplied(_)) => true,
        (LaunchState::RecordingApplied { .. }, LaunchEvent::Recorded) => true,
        (LaunchState::RecordingApplyFailure { .. }, LaunchEvent::Recorded) => true,
        (LaunchState::Spawning { .. }, LaunchEvent::Spawned(_)) => true,
        (LaunchState::Finishing { .. }, LaunchEvent::Finished) => true,
        _ => false,
    }
}

pub open spec fn fails_with(next: LaunchState, action: LaunchAction, m: Seq<char>) -> bool {
    next is Over && (action matches LaunchAction::Fail(x) && x@ == m)
}

/// The scheme a session applies: the profile's scheme unless that scheme is
/// already in force.
pub open spec fn planned_change(scheme: Seq<char>, current: Seq<char>) -> Option<Seq<char>> {
    if current == scheme { None } else { Some(scheme) }
}

/// One step of launching a game: `next` and `action` follow `state` on `event`.
pub open spec fn launch_step_ok(state: LaunchState, event: LaunchEvent, next: LaunchState, action: LaunchAction) -> bool {
    match (state, event) {
        (LaunchState::Ready, LaunchEvent::Begin { already_active }) => if already_active {
            next is Over && (action matches LaunchAction::Reject(x) && x@ == busy_msg())
        } else {
            next is CheckingPending && action is CheckPending
        },
        (LaunchState::CheckingPending, LaunchEvent::PendingChecked(checked)) => match checked {
            Err(e) => fails_with(next, action, e@),
            Ok(true) => fails_with(next, action, unfinished_msg()),
            Ok(false) => next is LoadingGame && action is LoadGame,
        },
        (LaunchState::LoadingGame, LaunchEvent::GameLoaded(loaded)) => match loaded {
            Err(e) => fails_with(next, action, e@),
            Ok(game) => match game.executable {
                None => fails_with(next, action, no_executable_msg()),
                Some(x) => (next matches LaunchState::CheckingExecutable { executable } && executable@ == x@)
                    && (action matches LaunchAction::CheckExecutable(y) && y@ == x@),
            },
        },
        (LaunchState::CheckingExecutable { executable }, LaunchEvent::ExecutableChecked(exists)) => if !exists {
            fails_with(next, action, missing_executable_msg())
        } else {
            (next matches LaunchState::LoadingProfile { executable: x } && x@ == executable@) && action is LoadProfile
        },
        (LaunchState::LoadingProfile { executable }, LaunchEvent::ProfileLoaded(loaded)) => match loaded {
            Err(e) => fails_with(next, action, e@),
            Ok(profile) => match profile.power_scheme {
                None => (next matches LaunchState::StartingSession { executable: x, previous, applied }
                    && x@ == executable@ && previous is None && applied is None)
                    && (action matches LaunchAction::StartSession { preset, previous, applied }
                    && preset@ == profile.preset@ && previous is None && applied is None),
                Some(g) => (next matches LaunchState::ReadingActive { executable: x, preset, scheme }
                    && x@ == executable@ && preset@ == profile.preset@ && scheme@ == g@)
                    && action is ReadActive,
            },
        },
        (LaunchState::ReadingActive { executable, preset, scheme }, LaunchEvent::ActiveRead(read)) => match read {
            Err(e) => fails_with(next, action, e@),
            Ok(current) => (next matches LaunchState::StartingSession { executable: x, previous, applied }
                && x@ == executable@ && opt_view(previous) == Some(current@)
                && opt_view(applied) == planned_change(scheme@, current@))
                && (action matches LaunchAction::StartSession { preset: p, previous, applied }
                && p@ == preset@ && opt_view(previous) == Some(current@)
                && opt_view(applied) == planned_change(scheme@, current@)),
        },
        (LaunchState::StartingSession { executable, previous, applied }, LaunchEvent::SessionStarted(started)) => match started {
            Err(e) => fails_with(next, action, e@),
            Ok(id) => match applied {
                Some(t) => (next matches LaunchState::Applying { executable: x, id: i, previous: p, target: a }
                    && x@ == executable@ && i == id && opt_view(p) == opt_view(previous) && a@ == t@)
                    && (action matches LaunchAction::ApplyScheme(y) && y@ == t@),
                None => (next matches LaunchState::Spawning { id: i, previous: p, applied: a }
                    && i == id && opt_view(p) == opt_view(previous) && a is None)
                    && (action matches LaunchAction::Spawn(y) && y@ == executable@),
            },
        },
        (LaunchState::Applying { executable, id, previous, target }, LaunchEvent::SchemeApplied(done)) => match done {
            Ok(()) => (next matches LaunchState::RecordingApplied { executable: x, id: i, previous: p, target: a }
                && x@ == executable@ && i == id && opt_view(p) == opt_view(previous) && a@ == target@)
                && (action matches LaunchAction::RecordOperation { id: i, status, detail }
                && i == id && status@ == "applied"@ && detail@ == "Change verified"@),
            Err(e) => (next matches LaunchState::RecordingApplyFailure { id: i, previous: p, target: a, message }
                && i == id && opt_view(p) == opt_view(previous) && a@ == target@ && message@ == e@)
                && (action matches LaunchAction::RecordOperation { id: i, status, detail }
                && i == id && status@ == "apply_failed"@ && detail@ == e@),
        },
        (LaunchState::RecordingApplied { executable, id, previous, target }, LaunchEvent::Recorded) =>
            (next matches LaunchState::Spawning { id: i, previous: p, applied: a }
            && i == id && opt_view(p) == opt_view(previous) && opt_view(a) == Some(target@))
            && (action matches LaunchAction::Spawn(y) && y@ == executable@),
        (LaunchState::RecordingApplyFailure { id, previous, target, message }, LaunchEvent::Recorded) =>
            (next matches LaunchState::Finishing { message: m } && m@ == message@)
            && (action matches LaunchAction::FinishSession { id: i, previous: p, applied: a, final_status }
            && i == id && opt_view(p) == opt_view(previous) && opt_view(a) == Some(target@)
            && final_status@ == "apply_failed"@),
        (LaunchState::Spawning { id, previous, applied }, LaunchEvent::Spawned(outcome)) => match outcome {
            SpawnOutcome::NoParent => fails_with(next, action, invalid_path_msg()),
            SpawnOutcome::Failed => (next matches LaunchState::Finishing { message: m } && m@ == not_started_msg())
                && (action matches LaunchAction::FinishSession { id: i, previous: p, applied: a, final_status }
                && i == id && opt_view(p) == opt_view(previous) && opt_view(a) == opt_view(applied)
                && final_status@ == "launch_failed"@),
            SpawnOutcome::Started => next is Over
                && (action matches LaunchAction::Launched { id: i, previous: p, applied: a, final_status }
                && i == id && opt_view(p) == opt_view(previous) && opt_view(a) == opt_view(applied)
                && final_status@ == "completed"@),
        },
        (LaunchState::Finishing { message }, LaunchEvent::Finished) => fails_with(next, action, message@),
        _ => false,
    }
}

/// A copy of an optional text.
pub fn copy_opt(o: &Option<String>) -> (r: Option<String>)
    ensures
        opt_view(r) == opt_view(*o),
{
    match o {
        Some(s) => Some(owned(s.as_str())),
        None => None,
    }
}

/// Whether `state` expects `event`.
pub fn launch_expects(state: &LaunchState, event: &LaunchEvent) -> (r: bool)
    ensures
        r == launch_accepts(*state, *event),
{
    match (state, event) {
        (LaunchState::Ready, LaunchEvent::Begin { .. }) => true,
        (LaunchState::CheckingPending, LaunchEvent::PendingChecked(_)) => true,
        (LaunchState::LoadingGame, LaunchEvent::GameLoaded(_)) => true,
        (LaunchState::CheckingExecutable { .. }, LaunchEvent::ExecutableChecked(_)) => true,
        (LaunchState::LoadingProfile { .. }, LaunchEvent::ProfileLoaded(_)) => true,
        (LaunchState::ReadingActive { .. }, LaunchEvent::ActiveRead(_)) => true,
        (LaunchState::StartingSession { .. }, LaunchEvent::SessionStarted(_)) => true,
        (LaunchState::Applying { .. }, LaunchEvent::SchemeApplied(_)) => true,
        (LaunchState::RecordingApplied { .. }, LaunchEvent::Recorded) => true,
        (LaunchState::RecordingApplyFailure { .. }, LaunchEvent::Recorded) => true,
        (LaunchState::Spawning { .. }, LaunchEvent::Spawned(_)) => true,
        (LaunchState::Finishing { .. }, LaunchEvent::Finished) => true,
        _ => false,
    }
}

fn fail(m: &str) -> (r: (LaunchState, LaunchAction))
    ensures
        fails_with(r.0, r.1, m@),
{
    (LaunchState::Over, LaunchAction::Fail(owned(m)))
}

/// One step of launching a game: checks that no session runs and none is
/// pending, that the game has an existing executable, reads the active scheme
/// only when the profile selects one, records the session before changing the
/// power plan, and restores the plan when applying it or starting the game fails.
pub fn launch_step(state: LaunchState, event: LaunchEvent) -> (r: (LaunchState, LaunchAction))
    requires
        launch_accepts(state, event),
    ensures
        launch_step_ok(state, event, r.0, r.1),
{
    match (state, event) {
        (LaunchState::Ready, LaunchEvent::Begin { already_active }) => {
            if already_active {
                (LaunchState::Over, LaunchAction::Reject(owned("A game session is already running")))
            } else {
                (LaunchState::CheckingPending, LaunchAction::CheckPending)
            }
        },
        (LaunchState::CheckingPending, LaunchEvent::PendingChecked(checked)) => match checked {
            Err(e) => (LaunchState::Over, LaunchAction::Fail(e)),
            Ok(true) => fail("Recover the unfinished session before starting another"),
            Ok(false) => (LaunchState::LoadingGame, LaunchAction::LoadGame),
        },
        (LaunchState::LoadingGame, LaunchEvent::GameLoaded(loaded)) => match loaded {
            Err(e) => (LaunchState::Over, LaunchAction::Fail(e)),
            Ok(game) => match game.executable {
                None => fail("Add an executable path for this game first"),
                Some(x) => {
                    let y = owned(x.as_str());
                    (LaunchState::CheckingExecutable { executable: x }, LaunchAction::CheckExecutable(y))
                },
            },
        },
        (LaunchState::CheckingExecutable { executable }, LaunchEvent::ExecutableChecked(exists)) => {
            if !exists {
                fail("Game executable no longer exists")
            } else {
                (LaunchState::LoadingProfile { executable }, LaunchAction::LoadProfile)
            }
        },
        (LaunchState::LoadingProfile { executable }, LaunchEvent::ProfileLoaded(loaded)) => match loaded {
            Err(e) => (LaunchState::Over, LaunchAction::Fail(e)),
            Ok(profile) => match profile.power_scheme {
                None => (
                    LaunchState::StartingSession { executable, previous: None, applied: None },
                    LaunchAction::StartSession { preset: profile.preset, previous: None, applied: None },
                ),
                Some(g) => (
                    LaunchState::ReadingActive { executable, preset: profile.preset, scheme: g },
                    LaunchAction::ReadActive,
                ),
            },
        },
        (LaunchState::ReadingActive { executable, preset, scheme }, LaunchEvent::ActiveRead(read)) => match read {
            Err(e) => (LaunchState::Over, LaunchAction::Fail(e)),
            Ok(current) => {
                let applied = if same_text(current.as_str(), scheme.as_str()) { None } else { Some(scheme) };
                let applied_copy = copy_opt(&applied);
                let previous_copy = owned(current.as_str());
                (
                    LaunchState::StartingSession { executable, previous: Some(current), applied },
                    LaunchAction::StartSession { preset, previous: Some(previous_copy), applied: applied_copy },
                )
            },
        },
        (LaunchState::StartingSession { executable, previous, applied }, LaunchEvent::SessionStarted(started)) => match started {
            Err(e) => (LaunchState::Over, LaunchAction::Fail(e)),
            Ok(id) => match applied {
                Some(t) => {
                    let y = owned(t.as_str());
                    (LaunchState::Applying { executable, id, previous, target: t }, LaunchAction::ApplyScheme(y))
                },
                None => (LaunchState::Spawning { id, previous, applied: None }, LaunchAction::Spawn(executable)),
            },
        },
        (LaunchState::Applying { executable, id, previous, target }, LaunchEvent::SchemeApplied(done)) => match done {
            Ok(()) => (
                LaunchState::RecordingApplied { executable, id, previous, target },
                LaunchAction::RecordOperation { id, status: owned("applied"), detail: owned("Change verified") },
            ),
            Err(e) => {
                let detail = owned(e.as_str());
                (
                    LaunchState::RecordingApplyFailure { id, previous, target, message: e },
                    LaunchAction::RecordOperation { id, status: owned("apply_failed"), detail },
                )
            },
        },
        (LaunchState::RecordingApplied { executable, id, previous, target }, LaunchEvent::Recorded) => (
            LaunchState::Spawning { id, previous, applied: Some(target) },
            LaunchAction::Spawn(executable),
        ),
        (LaunchState::RecordingApplyFailure { id, previous, target, message }, LaunchEvent::Recorded) => (
            LaunchState::Finishing { message },
            LaunchAction::FinishSession { id, previous, applied: Some(target), final_status: owned("apply_failed") },
        ),
        (LaunchState::Spawning { id, previous, applied }, LaunchEvent::Spawned(outcome)) => match outcome {
            SpawnOutcome::NoParent => fail("Invalid executable path"),
            SpawnOutcome::Failed => (
                LaunchState::Finishing {
                    message: owned("Could not start the game. Any power-plan change was restored or left for recovery"),
                },
                LaunchAction::FinishSession { id, previous, applied, final_status: owned("launch_failed") },
            ),
            SpawnOutcome::Started => (
                LaunchState::Over,
                LaunchAction::Launched { id, previous, applied, final_status: owned("completed") },
            ),
        },
        (LaunchState::Finishing { message }, LaunchEvent::Finished) => (LaunchState::Over, LaunchAction::Fail(message)),
        (state, event) => {
            proof {
                assert(!launch_accepts(state, event));
            }
            (LaunchState::Over, LaunchAction::Fail(owned("")))
        },
    }
}

} // verus!
