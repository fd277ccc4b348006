use vstd::prelude::*;
use crate::power::{
    conflict_msg, first_guid_at, guid_in_spec, guid_starts_at, is_guid, is_guid_char, is_dash_position,
    lemma_lower_idempotent, restore_decision_spec, restore_step_ok, same_ignoring_case, set_step_ok,
    active_ok, no_change_msg, unverified_msg, CommandOutcome, RestoreAction, RestoreDecision, RestoreEvent, SetAction,
    SetEvent,
};
use crate::model::Recovery;
use crate::rules::{
    high_performance_guid, is_executable_path, is_preset, is_whitespace, lower_opt, normalized_profile_ok,
    profile_error, trim, trim_end, trim_start,
};
use crate::session::{
    finish_record_ok, is_pending_status, launch_step_ok, LaunchAction, LaunchEvent, LaunchState,
    recovery_target_ok, SessionRecord, SpawnOutcome, unfinished_msg,
};
use crate::steam::opt_view;
use crate::steam::{
    contains, field_value, first_field, library_paths_of, normalized, pick_executable, unescape, ExeEntry,
};
use crate::text::{is_hex_char, lemma_split_on_nonempty, lines_of, lower, lower_char, split_on};

verus! {

/// Lower-casing keeps a GUID a GUID.
pub proof fn lemma_lower_keeps_guid(g: Seq<char>)
    requires
        is_guid(g),
    ensures
        is_guid(lower(g)),
{
    assert forall|i: int| 0 <= i < 36 implies if is_dash_position(i) {
        #[trigger] lower(g)[i] == '-'
    } else {
        is_hex_char(lower(g)[i])
    } by {
        assert(lower(g)[i] == lower_char(g[i]));
    }
}

/// The GUID found in a text is a GUID in lower case.
pub proof fn law_found_guid_is_lowercase_guid(t: Seq<char>)
    ensures
        guid_in_spec(t) matches Some(g) ==> is_guid(g) && lower(g) == g,
{
    if exists|i: int| first_guid_at(t, i) {
        let i = choose|i: int| first_guid_at(t, i);
        let w = t.subrange(i, i + 36);
        lemma_lower_keeps_guid(w);
        lemma_lower_idempotent(w);
    }
}

/// A text that is a GUID yields itself, in lower case.
pub proof fn law_guid_is_found_in_itself(g: Seq<char>)
    requires
        is_guid(g),
    ensures
        guid_in_spec(g) == Some(lower(g)),
{
    assert(g.subrange(0, 36) =~= g);
    assert(first_guid_at(g, 0));
    let i = choose|i: int| first_guid_at(g, i);
    assert(i == 0) by {
        if i > 0 {
            assert(!guid_starts_at(g, 0));
        }
    }
}

/// Restoring switches schemes only to put back the scheme found before the
/// session, and only when the scheme in force is the one the session applied
/// and differs from the previous one.
pub proof fn law_restore_only_undoes_own_change(
    previous: Option<Seq<char>>,
    applied: Option<Seq<char>>,
    event: RestoreEvent,
    r: RestoreAction,
)
    requires
        restore_step_ok(previous, applied, event, r),
        r is SetScheme,
    ensures
        previous matches Some(p) && r->SetScheme_0@ == p,
        applied matches Some(a) && previous matches Some(p) && !same_ignoring_case(p, a),
        event matches RestoreEvent::ActiveRead(Ok(current)) && applied matches Some(a)
            && same_ignoring_case(current@, a) && !same_ignoring_case(current@, previous->0),
{
}

/// A scheme changed outside GameBooster is left in force and reported.
pub proof fn law_restore_keeps_outside_change(
    previous: Seq<char>,
    applied: Seq<char>,
    current: String,
    r: RestoreAction,
)
    requires
        !same_ignoring_case(previous, applied),
        !same_ignoring_case(current@, previous),
        !same_ignoring_case(current@, applied),
        restore_step_ok(Some(previous), Some(applied), RestoreEvent::ActiveRead(Ok(current)), r),
    ensures
        r matches RestoreAction::Finish(Err(m)) && m@ == conflict_msg(),
{
}

/// A session that applied the scheme it found, or none, is restored without
/// reading or touching the power plan.
pub proof fn law_restore_without_change_does_nothing(previous: Option<Seq<char>>, applied: Option<Seq<char>>, r: RestoreAction)
    requires
        applied is None || previous is None || (previous matches Some(p) && applied matches Some(a) && same_ignoring_case(p, a)),
        restore_step_ok(previous, applied, RestoreEvent::Begin, r),
    ensures
        r matches RestoreAction::Finish(Ok(m)) && m@ == no_change_msg(),
{
}

/// What a session applied is undone: while the applied scheme is still in
/// force, restoring switches back to the previous scheme.
pub proof fn law_restore_puts_previous_back(previous: Seq<char>, applied: Seq<char>, current: String, r: RestoreAction)
    requires
        !same_ignoring_case(previous, applied),
        same_ignoring_case(current@, applied),
        restore_step_ok(Some(previous), Some(applied), RestoreEvent::ActiveRead(Ok(current)), r),
    ensures
        r matches RestoreAction::SetScheme(g) && g@ == previous,
{
}

/// A scheme switch counts as done only when the scheme read back is the
/// requested GUID in lower case.
pub proof fn law_set_done_only_when_verified(guid: Seq<char>, event: SetEvent, r: SetAction)
    requires
        set_step_ok(guid, event, r),
        r is Done,
    ensures
        event matches SetEvent::Verified(Ok(current)) && current@ == lower(guid),
{
}

/// The power plan is changed only after the session, with the scheme found in
/// force, has been recorded: applying a scheme answers only the recording of
/// the session, and applies the scheme that session records.
pub proof fn law_power_change_after_commit(state: LaunchState, event: LaunchEvent, next: LaunchState, action: LaunchAction)
    requires
        launch_step_ok(state, event, next, action),
        action is ApplyScheme,
    ensures
        event matches LaunchEvent::SessionStarted(Ok(id)) && next matches LaunchState::Applying { id: i, .. } && i == id,
        state matches LaunchState::StartingSession { applied, .. } && opt_view(applied) == Some(action->ApplyScheme_0@),
{
}

/// A session records a change only when the profile's scheme is not already
/// in force, and the scheme in force is then recorded as the previous one.
pub proof fn law_recorded_change_differs(state: LaunchState, event: LaunchEvent, next: LaunchState, action: LaunchAction)
    requires
        launch_step_ok(state, event, next, action),
        action matches LaunchAction::StartSession { applied, .. } && applied is Some,
    ensures
        action matches LaunchAction::StartSession { previous, applied, .. }
            && opt_view(previous) matches Some(p) && opt_view(applied) matches Some(a) && p != a,
{
}

/// A profile without a power scheme never reads or changes the power plan:
/// its session records no previous and no applied scheme, and once recorded
/// the game starts without applying anything.
pub proof fn law_no_scheme_no_change(
    executable: String,
    profile: crate::model::Profile,
    next: LaunchState,
    action: LaunchAction,
    id: i64,
    next2: LaunchState,
    action2: LaunchAction,
)
    requires
        profile.power_scheme is None,
        launch_step_ok(LaunchState::LoadingProfile { executable }, LaunchEvent::ProfileLoaded(Ok(profile)), next, action),
        launch_step_ok(next, LaunchEvent::SessionStarted(Ok(id)), next2, action2),
    ensures
        action matches LaunchAction::StartSession { previous, applied, .. } && previous is None && applied is None,
        action2 is Spawn,
{
}

/// Once the power plan was to change, a failure to apply it or to start the
/// game restores the plan (the session is finished) before launching fails.
pub proof fn law_failure_after_change_restores(
    state: LaunchState,
    event: LaunchEvent,
    next: LaunchState,
    action: LaunchAction,
    next2: LaunchState,
    action2: LaunchAction,
)
    requires
        state is Applying,
        event matches LaunchEvent::SchemeApplied(Err(_)),
        launch_step_ok(state, event, next, action),
        launch_step_ok(next, LaunchEvent::Recorded, next2, action2),
    ensures
        action2 matches LaunchAction::FinishSession { final_status, applied, .. }
            && final_status@ == "apply_failed"@ && applied is Some,
        next2 is Finishing,
{
}

/// A game that cannot be started finishes its session (restoring the plan).
pub proof fn law_failed_start_restores(state: LaunchState, next: LaunchState, action: LaunchAction)
    requires
        state is Spawning,
        launch_step_ok(state, LaunchEvent::Spawned(SpawnOutcome::Failed), next, action),
    ensures
        action matches LaunchAction::FinishSession { final_status, .. } && final_status@ == "launch_failed"@,
{
}

/// Only one session runs at a time: while one runs, launching is refused
/// without any other step.
pub proof fn law_one_session_at_a_time(next: LaunchState, action: LaunchAction)
    requires
        launch_step_ok(LaunchState::Ready, LaunchEvent::Begin { already_active: true }, next, action),
    ensures
        action is Reject,
        next is Over,
{
}

/// A failed restoration stays visible for a retry: the session keeps a
/// pending status and is not finished.
pub proof fn law_failed_restoration_stays_pending(final_status: Seq<char>, message: String, r: SessionRecord)
    requires
        finish_record_ok(final_status, Err(message), r),
    ensures
        is_pending_status(r.session_status@),
        !r.finished,
{
    reveal_strlit("restore_failed");
}

/// A session whose restoration succeeded is over and no longer pending.
pub proof fn law_restored_session_is_over(final_status: Seq<char>, message: String, r: SessionRecord)
    requires
        final_status == "completed"@ || final_status == "launch_failed"@ || final_status == "apply_failed"@
            || final_status == "recovered"@,
        finish_record_ok(final_status, Ok(message), r),
    ensures
        !is_pending_status(r.session_status@),
        r.finished,
{
    reveal_strlit("completed");
    reveal_strlit("launch_failed");
    reveal_strlit("apply_failed");
    reveal_strlit("recovered");
    reveal_strlit("prepared");
    reveal_strlit("running");
    reveal_strlit("restore_failed");
    assert("completed"@.len() == 9);
    assert("launch_failed"@.len() == 13);
    assert("apply_failed"@.len() == 12);
    assert("recovered"@.len() == 9);
    assert("prepared"@.len() == 8);
    assert("running"@.len() == 7);
    assert("restore_failed"@.len() == 14);
}

/// A saved profile passes the checks again unchanged: its scheme is already
/// in lower case and still acceptable.
pub proof fn law_saved_profile_is_stable(preset: Seq<char>, scheme: Option<Seq<char>>)
    requires
        profile_error(preset, scheme) is None,
    ensures
        profile_error(preset, lower_opt(scheme)) is None,
        lower_opt(lower_opt(scheme)) == lower_opt(scheme),
{
    match scheme {
        Some(g) => {
            lemma_lower_keeps_guid(g);
            lemma_lower_idempotent(g);
            lemma_lower_idempotent(crate::rules::high_performance_guid());
        },
        None => {},
    }
}

/// The Balanced preset never selects a power scheme.
pub proof fn law_balanced_changes_nothing(scheme: Option<Seq<char>>)
    requires
        profile_error("Balanced"@, scheme) is None,
    ensures
        scheme is None,
{
}


/// Splitting text that holds no separator after a prefix extends the last piece.
pub proof fn lemma_split_on_append_plain(s: Seq<char>, t: Seq<char>, sep: char)
    requires
        !t.contains(sep),
    ensures
        split_on(s + t, sep) == split_on(s, sep).update(
            split_on(s, sep).len() - 1,
            split_on(s, sep).last() + t,
        ),
    decreases t.len(),
{
    lemma_split_on_nonempty(s, sep);
    if t.len() == 0 {
        assert(s + t =~= s);
        assert(split_on(s, sep).last() + t =~= split_on(s, sep).last());
        assert(split_on(s, sep).update(split_on(s, sep).len() - 1, split_on(s, sep).last()) =~= split_on(s, sep));
    } else {
        let init = t.drop_last();
        assert(!init.contains(sep)) by {
            if init.contains(sep) {
                let k = choose|k: int| 0 <= k < init.len() && init[k] == sep;
                assert(t[k] == sep);
            }
        }
        assert(t[t.len() - 1] != sep);
        lemma_split_on_append_plain(s, init, sep);
        assert((s + t).drop_last() =~= s + init);
        assert((s + t).last() == t.last());
        lemma_split_on_nonempty(s + init, sep);
        let a = split_on(s, sep);
        let b = split_on(s + init, sep);
        assert(b == a.update(a.len() - 1, a.last() + init));
        assert(b.len() == a.len());
        assert(b.last() == a.last() + init);
        assert((s + t).len() > 0);
        assert(split_on(s + t, sep) == b.update(b.len() - 1, b.last().push(t.last())));
        assert((a.last() + init).push(t.last()) =~= a.last() + t);
        assert(split_on(s + t, sep) =~= a.update(a.len() - 1, a.last() + t));
    }
}

/// Splitting after a separator starts a new, empty piece.
pub proof fn lemma_split_on_push_sep(s: Seq<char>, sep: char)
    ensures
        split_on(s.push(sep), sep) == split_on(s, sep).push(Seq::<char>::empty()),
{
    assert(s.push(sep).drop_last() =~= s);
}

/// The manifest line `"key" "value"` is one line, split at quotes into
/// an empty piece, the key, a space, the value and an empty piece.
pub proof fn lemma_field_line(key: Seq<char>, value: Seq<char>)
    requires
        !key.contains('"'),
        !value.contains('"'),
        !key.contains('\n'),
        !value.contains('\n'),
    ensures
        split_on(seq!['"'] + key + seq!['"', ' ', '"'] + value + seq!['"'], '"')
            == seq![Seq::<char>::empty(), key, seq![' '], value, Seq::<char>::empty()],
        lines_of(seq!['"'] + key + seq!['"', ' ', '"'] + value + seq!['"'])
            == seq![seq!['"'] + key + seq!['"', ' ', '"'] + value + seq!['"']],
{
    let q = '"';
    let e = Seq::<char>::empty();
    let l1 = seq![q];
    let l2 = l1 + key;
    let l3 = l2.push(q);
    let l4 = l3 + seq![' '];
    let l5 = l4.push(q);
    let l6 = l5 + value;
    let line = l6.push(q);
    assert(line =~= seq!['"'] + key + seq!['"', ' ', '"'] + value + seq!['"']);
    // split at quotes
    lemma_split_on_push_sep(e, q);
    assert(e.push(q) =~= l1);
    assert(split_on(e, q) =~= seq![e]);
    assert(split_on(l1, q) =~= seq![e, e]);
    lemma_split_on_append_plain(l1, key, q);
    assert(split_on(l2, q) =~= seq![e, key]);
    lemma_split_on_push_sep(l2, q);
    assert(split_on(l3, q) =~= seq![e, key, e]);
    assert(!seq![' '].contains(q)) by {
        if seq![' '].contains(q) {
            let k = choose|k: int| 0 <= k < 1 && seq![' '][k] == q;
        }
    }
    lemma_split_on_append_plain(l3, seq![' '], q);
    assert(split_on(l4, q) =~= seq![e, key, seq![' ']]);
    lemma_split_on_push_sep(l4, q);
    assert(split_on(l5, q) =~= seq![e, key, seq![' '], e]);
    lemma_split_on_append_plain(l5, value, q);
    assert(split_on(l6, q) =~= seq![e, key, seq![' '], value]);
    lemma_split_on_push_sep(l6, q);
    assert(split_on(line, q) =~= seq![e, key, seq![' '], value, e]);
    // the whole text is one line
    assert(!line.contains('\n')) by {
        if line.contains('\n') {
            let k = choose|k: int| 0 <= k < line.len() && line[k] == '\n';
            if 1 <= k < 1 + key.len() {
                assert(key[k - 1] == '\n');
            } else if 4 + key.len() <= k < 4 + key.len() + value.len() {
                assert(value[k - 4 - key.len()] == '\n');
            }
        }
    }
    lemma_split_on_append_plain(e, line, '\n');
    assert(e + line =~= line);
    assert(split_on(line, '\n') =~= seq![line]);
    assert(lines_of(line) =~= seq![line]);
}


/// The line `"key" "value"` of a manifest is read back as `value` for `key`,
/// whatever its case, when neither holds a quote or a line break.
pub proof fn law_written_field_is_read(key: Seq<char>, value: Seq<char>)
    requires
        !key.contains('"'),
        !value.contains('"'),
        !key.contains('\n'),
        !value.contains('\n'),
    ensures
        first_field(lines_of(seq!['"'] + key + seq!['"', ' ', '"'] + value + seq!['"']), lower(key))
            == Some(value),
{
    let line = seq!['"'] + key + seq!['"', ' ', '"'] + value + seq!['"'];
    lemma_field_line(key, value);
    lemma_lower_idempotent(key);
    assert(field_value(line, lower(key)) == Some(value));
    assert(seq![line].drop_first() =~= Seq::<Seq<char>>::empty());
}

/// A library list line `"path" "value"` (key in any case) gives one library
/// folder: `value` with doubled backslashes collapsed.
pub proof fn law_library_line_gives_its_path(key: Seq<char>, value: Seq<char>)
    requires
        lower(key) == lower("path"@),
        !key.contains('"'),
        !value.contains('"'),
        !key.contains('\n'),
        !value.contains('\n'),
    ensures
        library_paths_of(lines_of(seq!['"'] + key + seq!['"', ' ', '"'] + value + seq!['"'])) == seq![unescape(value)],
{
    let line = seq!['"'] + key + seq!['"', ' ', '"'] + value + seq!['"'];
    lemma_field_line(key, value);
    assert(field_value(line, "path"@) == Some(value));
    assert(seq![line].drop_first() =~= Seq::<Seq<char>>::empty());
    assert(library_paths_of(Seq::<Seq<char>>::empty()) == Seq::<Seq<char>>::empty());
    assert(seq![line][0] == line);
    assert(library_paths_of(seq![line]) == seq![unescape(value)] + library_paths_of(seq![line].drop_first()));
    assert(seq![unescape(value)] + Seq::<Seq<char>>::empty() =~= seq![unescape(value)]);
}

/// Of several lines, the first one that has the field gives its value.
pub proof fn law_first_line_with_field_wins(line: Seq<char>, rest: Seq<Seq<char>>, field: Seq<char>)
    requires
        field_value(line, field) is Some,
    ensures
        first_field(seq![line] + rest, field) == field_value(line, field),
{
    assert((seq![line] + rest)[0] == line);
}

/// Text without backslashes is kept as it is.
pub proof fn law_unescape_keeps_plain_text(s: Seq<char>)
    requires
        !s.contains('\\'),
    ensures
        unescape(s) == s,
    decreases s.len(),
{
    if s.len() > 0 {
        assert(s[0] != '\\');
        assert(!s.skip(1).contains('\\')) by {
            if s.skip(1).contains('\\') {
                let k = choose|k: int| 0 <= k < s.skip(1).len() && s.skip(1)[k] == '\\';
                assert(s[k + 1] == '\\');
            }
        }
        law_unescape_keeps_plain_text(s.skip(1));
        assert(seq![s[0]] + s.skip(1) =~= s);
    }
}

/// A doubled backslash becomes one, and the rest is read on from after it.
pub proof fn law_unescape_collapses_pairs(s: Seq<char>)
    ensures
        unescape(seq!['\\', '\\'] + s) == seq!['\\'] + unescape(s),
{
    let t = seq!['\\', '\\'] + s;
    assert(t[0] == '\\' && t[1] == '\\');
    assert(t.skip(2) =~= s);
}

/// What a launch applies is undone by restoring: for a session recorded with
/// a previous and an applied scheme (both in lower case, as read schemes and
/// saved profiles are), restoring reads the plan in force and, while the
/// applied scheme is still in force, puts the previous one back.
pub proof fn law_launch_change_is_undone(
    state: LaunchState,
    event: LaunchEvent,
    next: LaunchState,
    action: LaunchAction,
    first: RestoreAction,
    current: String,
    second: RestoreAction,
)
    requires
        launch_step_ok(state, event, next, action),
        action matches LaunchAction::StartSession { previous, applied, .. }
            && opt_view(previous) matches Some(p) && opt_view(applied) matches Some(a)
            && lower(p) == p && lower(a) == a
            && restore_step_ok(Some(p), Some(a), RestoreEvent::Begin, first)
            && current@ == a
            && restore_step_ok(Some(p), Some(a), RestoreEvent::ActiveRead(Ok(current)), second),
    ensures
        first is ReadActive,
        action matches LaunchAction::StartSession { previous, .. }
            && second matches RestoreAction::SetScheme(g) && opt_view(previous) == Some(g@),
{
    lemma_lower_idempotent(current@);
}


/// Performance always selects the standard High performance plan, saved in
/// lower case.
pub proof fn law_performance_selects_high_performance(scheme: Option<Seq<char>>)
    requires
        profile_error("Performance"@, scheme) is None,
    ensures
        lower_opt(scheme) == Some(high_performance_guid()),
{
    reveal_strlit("8c5e7fda-e8bf-4a96-9a85-a6e23a8c635c");
    let h = high_performance_guid();
    assert(lower(h) =~= h);
}

/// Custom accepts exactly the schemes written as GUIDs.
pub proof fn law_custom_accepts_guids(g: Seq<char>)
    ensures
        profile_error("Custom"@, Some(g)) is None <==> is_guid(g),
{
    reveal_strlit("Custom");
    reveal_strlit("Balanced");
    reveal_strlit("Performance");
    assert("Custom"@.len() == 6);
    assert("Balanced"@.len() == 8);
    assert("Performance"@.len() == 11);
}

/// An unfinished session blocks the next launch until it is recovered.
pub proof fn law_pending_session_blocks_launch(next: LaunchState, action: LaunchAction)
    requires
        launch_step_ok(LaunchState::CheckingPending, LaunchEvent::PendingChecked(Ok(true)), next, action),
    ensures
        next is Over,
        action matches LaunchAction::Fail(m) && m@ == unfinished_msg(),
{
}


/// The session a launch is working on: its id, the scheme found in force and
/// the scheme it applies, once the session is recorded.
pub open spec fn launched_session(s: LaunchState) -> Option<(i64, Option<Seq<char>>, Option<Seq<char>>)> {
    match s {
        LaunchState::Applying { id, previous, target, .. } => Some((id, opt_view(previous), Some(target@))),
        LaunchState::RecordingApplied { id, previous, target, .. } => Some((id, opt_view(previous), Some(target@))),
        LaunchState::RecordingApplyFailure { id, previous, target, .. } => Some((id, opt_view(previous), Some(target@))),
        LaunchState::Spawning { id, previous, applied } => Some((id, opt_view(previous), opt_view(applied))),
        _ => None,
    }
}

/// Recording a session fixes its id, previous and applied schemes as the
/// ones the launch then works on.
pub proof fn law_recorded_session_is_the_launched_one(
    executable: String,
    previous: Option<String>,
    applied: Option<String>,
    id: i64,
    next: LaunchState,
    action: LaunchAction,
)
    requires
        launch_step_ok(
            LaunchState::StartingSession { executable, previous, applied },
            LaunchEvent::SessionStarted(Ok(id)),
            next,
            action,
        ),
    ensures
        launched_session(next) == Some((id, opt_view(previous), opt_view(applied))),
{
}

/// Once recorded, the session's id and schemes never change while launching.
pub proof fn law_launched_session_is_kept(state: LaunchState, event: LaunchEvent, next: LaunchState, action: LaunchAction)
    requires
        launch_step_ok(state, event, next, action),
        launched_session(state) is Some,
        launched_session(next) is Some,
    ensures
        launched_session(next) == launched_session(state),
{
}

/// Finishing or handing over a session always uses the session's own id,
/// previous and applied schemes, so what was applied is what gets restored.
pub proof fn law_session_end_uses_recorded_schemes(state: LaunchState, event: LaunchEvent, next: LaunchState, action: LaunchAction)
    requires
        launch_step_ok(state, event, next, action),
    ensures
        action matches LaunchAction::FinishSession { id, previous, applied, .. }
            ==> launched_session(state) == Some((id, opt_view(previous), opt_view(applied))),
        action matches LaunchAction::Launched { id, previous, applied, .. }
            ==> launched_session(state) == Some((id, opt_view(previous), opt_view(applied))),
{
}

/// When the game cannot be started, the session is finished as
/// `launch_failed` with exactly the schemes it recorded.
pub proof fn law_failed_start_restores_session_schemes(
    id: i64,
    previous: Option<String>,
    applied: Option<String>,
    next: LaunchState,
    action: LaunchAction,
)
    requires
        launch_step_ok(LaunchState::Spawning { id, previous, applied }, LaunchEvent::Spawned(SpawnOutcome::Failed), next, action),
    ensures
        action matches LaunchAction::FinishSession { id: i, previous: p, applied: a, final_status }
            && i == id && opt_view(p) == opt_view(previous) && opt_view(a) == opt_view(applied)
            && final_status@ == "launch_failed"@,
{
}

/// A launch that applied a scheme and then could not start the game restores
/// that scheme: the finished session's applied scheme is the one applied.
pub proof fn law_applied_scheme_is_restored_after_failed_start(
    executable: String,
    id: i64,
    previous: Option<String>,
    target: String,
    n1: LaunchState,
    a1: LaunchAction,
    n2: LaunchState,
    a2: LaunchAction,
    n3: LaunchState,
    a3: LaunchAction,
)
    requires
        launch_step_ok(LaunchState::Applying { executable, id, previous, target }, LaunchEvent::SchemeApplied(Ok(())), n1, a1),
        launch_step_ok(n1, LaunchEvent::Recorded, n2, a2),
        launch_step_ok(n2, LaunchEvent::Spawned(SpawnOutcome::Failed), n3, a3),
    ensures
        a3 matches LaunchAction::FinishSession { id: i, previous: p, applied: a, final_status }
            && i == id && opt_view(p) == opt_view(previous) && opt_view(a) == Some(target@)
            && final_status@ == "launch_failed"@,
{
}

/// The recorded previous scheme is the one read as active, and the applied
/// one is the profile's scheme exactly when that differs from it.
pub proof fn law_session_records_read_scheme(
    executable: String,
    preset: String,
    scheme: String,
    current: String,
    next: LaunchState,
    action: LaunchAction,
)
    requires
        launch_step_ok(
            LaunchState::ReadingActive { executable, preset, scheme },
            LaunchEvent::ActiveRead(Ok(current)),
            next,
            action,
        ),
    ensures
        action matches LaunchAction::StartSession { preset: pr, previous, applied }
            && pr@ == preset@ && opt_view(previous) == Some(current@)
            && (current@ == scheme@ ==> applied is None)
            && (current@ != scheme@ ==> opt_view(applied) == Some(scheme@)),
{
}

/// A read-back scheme equal to the requested GUID in lower case completes the
/// switch; any other one fails it as unverified.
pub proof fn law_set_verified_exactly_when_read_back_matches(guid: Seq<char>, current: String, r: SetAction)
    requires
        set_step_ok(guid, SetEvent::Verified(Ok(current)), r),
    ensures
        r is Done <==> current@ == lower(guid),
        current@ != lower(guid) ==> (r matches SetAction::Fail(m) && m@ == unverified_msg()),
{
}

/// A switch runs `powercfg /setactive` with the requested text exactly when it
/// is a GUID; otherwise it fails without running anything.
pub proof fn law_set_runs_only_for_guids(guid: Seq<char>, r: SetAction)
    requires
        set_step_ok(guid, SetEvent::Begin, r),
    ensures
        is_guid(guid) ==> (r matches SetAction::RunSetActive(g) && g@ == guid),
        !is_guid(guid) ==> (r matches SetAction::Fail(m) && m@ == crate::power::invalid_guid_msg()),
{
}

/// A successful `powercfg /setactive` is followed by reading the scheme back;
/// a failed one ends the switch with an error.
pub proof fn law_set_reads_back_after_success(guid: Seq<char>, success: bool, stdout: String, r: SetAction)
    requires
        set_step_ok(guid, SetEvent::Applied(CommandOutcome::Finished { success, stdout }), r),
    ensures
        success <==> r is ReadActive,
        !success ==> r is Fail,
{
}

/// Errors of reading or switching are passed on, and a finished switch back
/// reports the restored plan.
pub proof fn law_restore_passes_errors_on(previous: Option<Seq<char>>, applied: Option<Seq<char>>, e: String, r1: RestoreAction, r2: RestoreAction, r3: RestoreAction)
    requires
        restore_step_ok(previous, applied, RestoreEvent::ActiveRead(Err(e)), r1),
        restore_step_ok(previous, applied, RestoreEvent::SchemeSet(Err(e)), r2),
        restore_step_ok(previous, applied, RestoreEvent::SchemeSet(Ok(())), r3),
    ensures
        r1 matches RestoreAction::Finish(Err(m)) && m@ == e@,
        r2 matches RestoreAction::Finish(Err(m)) && m@ == e@,
        r3 matches RestoreAction::Finish(Ok(m)) && m@ == crate::power::restored_msg(),
{
}

/// A session that changed the plan is restored by first reading the plan in
/// force; if that is already the previous plan, nothing is switched.
pub proof fn law_restore_reads_first_and_spares_restored_plan(
    previous: Seq<char>,
    applied: Seq<char>,
    current: String,
    r1: RestoreAction,
    r2: RestoreAction,
)
    requires
        !same_ignoring_case(previous, applied),
        restore_step_ok(Some(previous), Some(applied), RestoreEvent::Begin, r1),
        same_ignoring_case(current@, previous),
        restore_step_ok(Some(previous), Some(applied), RestoreEvent::ActiveRead(Ok(current)), r2),
    ensures
        r1 is ReadActive,
        r2 matches RestoreAction::Finish(Ok(m)) && m@ == crate::power::already_restored_msg(),
{
}

/// The restore decision in words: nothing changed unless both schemes are
/// known and differ (ignoring case); otherwise the plan in force decides:
/// the previous plan means already restored, the applied plan means put the
/// previous one back, anything else is a conflict.
pub proof fn law_restore_decision_cases(previous: Option<Seq<char>>, applied: Option<Seq<char>>, current: Option<Seq<char>>)
    ensures
        restore_decision_spec(previous, applied, current) == RestoreDecision::NoChange
            <==> !(previous is Some && applied is Some && lower(previous->0) != lower(applied->0)),
        restore_decision_spec(previous, applied, current) == RestoreDecision::AlreadyRestored
            <==> (previous is Some && applied is Some && lower(previous->0) != lower(applied->0)
                && current is Some && lower(current->0) == lower(previous->0)),
        restore_decision_spec(previous, applied, current) == RestoreDecision::ApplyPrevious
            <==> (previous is Some && applied is Some && lower(previous->0) != lower(applied->0)
                && current is Some && lower(current->0) == lower(applied->0)
                && lower(current->0) != lower(previous->0)),
{
}

/// A session whose plan was restored is recorded with the status it ended
/// with, the restoration message, and as over; its operation counts as
/// restored unless applying the plan failed.
pub proof fn law_restored_session_keeps_final_status(final_status: Seq<char>, message: String, r: SessionRecord)
    requires
        finish_record_ok(final_status, Ok(message), r),
    ensures
        r.session_status@ == final_status,
        r.detail@ == message@,
        r.finished,
        final_status == "apply_failed"@ ==> r.operation_status@ == "apply_failed"@,
        final_status != "apply_failed"@ ==> r.operation_status@ == "restored"@,
{
}

/// A failed restoration is recorded with its message, as `restore_failed`
/// for both the operation and the session.
pub proof fn law_failed_restoration_is_recorded(final_status: Seq<char>, message: String, r: SessionRecord)
    requires
        finish_record_ok(final_status, Err(message), r),
    ensures
        r.session_status@ == "restore_failed"@,
        r.operation_status@ == "restore_failed"@,
        r.detail@ == message@,
        !r.finished,
{
}

/// Balanced and Custom profiles can be saved without a scheme.
pub proof fn law_no_scheme_is_fine_for_balanced_and_custom()
    ensures
        profile_error("Balanced"@, None) is None,
        profile_error("Custom"@, None) is None,
{
    reveal_strlit("Custom");
    reveal_strlit("Balanced");
    reveal_strlit("Performance");
    assert("Custom"@.len() == 6);
    assert("Balanced"@.len() == 8);
    assert("Performance"@.len() == 11);
}

/// Which profiles can be saved: a known preset; a scheme, if any, that is a
/// GUID; none for Balanced; the High performance GUID (any case) for
/// Performance. Custom takes any GUID or none.
pub proof fn law_profile_acceptance(preset: Seq<char>, scheme: Option<Seq<char>>)
    ensures
        profile_error(preset, scheme) is None <==> {
            &&& (preset == "Balanced"@ || preset == "Performance"@ || preset == "Custom"@)
            &&& (scheme matches Some(g) ==> is_guid(g))
            &&& (preset == "Balanced"@ ==> scheme is None)
            &&& (preset == "Performance"@ ==> (scheme matches Some(g) && lower(g) == high_performance_guid()))
        },
{
    reveal_strlit("8c5e7fda-e8bf-4a96-9a85-a6e23a8c635c");
    let h = high_performance_guid();
    assert(lower(h) =~= h);
}

/// An `.exe` whose normalized stem holds "uninstall", "setup" or "launcher"
/// anywhere, and is not the game's name, is never taken as a candidate:
/// the choice is the same as without it.
pub proof fn law_helper_programs_are_skipped(
    name: Seq<char>,
    e: ExeEntry,
    rest: Seq<Option<ExeEntry>>,
    cands: Seq<Seq<char>>,
    word: Seq<char>,
    at: int,
)
    requires
        e.extension matches Some(x) && lower(x@) == lower("exe"@),
        e.stem matches Some(st) && normalized(st@) != normalized(name)
            && 0 <= at && at + word.len() <= normalized(st@).len()
            && normalized(st@).subrange(at, at + word.len()) == word,
        word == "uninstall"@ || word == "setup"@ || word == "launcher"@,
    ensures
        pick_executable(name, seq![Some(e)] + rest, cands) == pick_executable(name, rest, cands),
{
    let st = normalized(e.stem->0@);
    assert(st.subrange(at, at + word.len()) == word);
    assert(contains(st, word));
    assert((seq![Some(e)] + rest).drop_first() =~= rest);
    assert((seq![Some(e)] + rest)[0] == Some(e));
}

/// An `.exe` that is not a helper program and not the game's name becomes a
/// candidate; a single such file is chosen.
pub proof fn law_single_other_exe_is_chosen(name: Seq<char>, e: ExeEntry)
    requires
        e.extension matches Some(x) && lower(x@) == lower("exe"@),
        e.stem matches Some(st) && normalized(st@) != normalized(name)
            && !(exists|i: int, w: Seq<char>| (w == "uninstall"@ || w == "setup"@ || w == "launcher"@)
                && 0 <= i && i + w.len() <= normalized(st@).len() && #[trigger] normalized(st@).subrange(i, i + w.len()) == w),
    ensures
        pick_executable(name, seq![Some(e)], Seq::<Seq<char>>::empty()) == Some(e.path@),
{
    let st = normalized(e.stem->0@);
    assert(!contains(st, "uninstall"@));
    assert(!contains(st, "setup"@));
    assert(!contains(st, "launcher"@));
    assert(seq![Some(e)].drop_first() =~= Seq::<Option<ExeEntry>>::empty());
    let one = Seq::<Seq<char>>::empty().push(e.path@);
    assert(one.len() == 1 && one[0] == e.path@);
    assert(pick_executable(name, Seq::<Option<ExeEntry>>::empty(), one) == Some(e.path@));
    assert(seq![Some(e)][0] == Some(e));
}

/// An `.exe` named like the game (ignoring case and spaces) is chosen at once.
pub proof fn law_exe_named_like_game_is_chosen(name: Seq<char>, e: ExeEntry, rest: Seq<Option<ExeEntry>>, cands: Seq<Seq<char>>)
    requires
        e.extension matches Some(x) && lower(x@) == lower("exe"@),
        e.stem matches Some(st) && normalized(st@) == normalized(name),
    ensures
        pick_executable(name, seq![Some(e)] + rest, cands) == Some(e.path@),
{
    assert((seq![Some(e)] + rest)[0] == Some(e));
}

/// Files that are not `.exe` files do not matter to the choice.
pub proof fn law_other_files_are_ignored(name: Seq<char>, e: ExeEntry, rest: Seq<Option<ExeEntry>>, cands: Seq<Seq<char>>)
    requires
        !(e.extension matches Some(x) && lower(x@) == lower("exe"@)),
    ensures
        pick_executable(name, seq![Some(e)] + rest, cands) == pick_executable(name, rest, cands),
{
    assert((seq![Some(e)] + rest).drop_first() =~= rest);
    assert((seq![Some(e)] + rest)[0] == Some(e));
}


/// A GUID of text, standing alone: the 36 characters from `i` form a GUID and
/// are neither preceded nor followed by a hexadecimal digit or `-`.
pub open spec fn standalone_guid_at(t: Seq<char>, i: int) -> bool {
    &&& 0 <= i && i + 36 <= t.len()
    &&& is_guid(t.subrange(i, i + 36))
    &&& (i == 0 || !(is_hex_char(t[i - 1]) || t[i - 1] == '-'))
    &&& (i + 36 == t.len() || !(is_hex_char(t[i + 36]) || t[i + 36] == '-'))
}

/// The GUID found in a text is its first standalone GUID, in lower case.
pub proof fn law_found_guid_is_first_standalone_one(t: Seq<char>)
    ensures
        guid_in_spec(t) matches Some(g) ==> exists|i: int| {
            &&& #[trigger] standalone_guid_at(t, i)
            &&& lower(t.subrange(i, i + 36)) == g
            &&& forall|j: int| 0 <= j < i ==> !standalone_guid_at(t, j)
        },
{
    if exists|i: int| first_guid_at(t, i) {
        let i = choose|i: int| first_guid_at(t, i);
        assert(standalone_guid_at(t, i));
        assert forall|j: int| 0 <= j < i implies !standalone_guid_at(t, j) by {
            assert(!guid_starts_at(t, j));
        }
    }
}

/// Among GUID starts, a first one exists.
pub proof fn lemma_first_guid_exists(t: Seq<char>, i: int)
    requires
        guid_starts_at(t, i),
    ensures
        exists|k: int| first_guid_at(t, k),
    decreases i,
{
    if forall|j: int| 0 <= j < i ==> !#[trigger] guid_starts_at(t, j) {
        assert(first_guid_at(t, i));
    } else {
        let j = choose|j: int| 0 <= j < i && guid_starts_at(t, j);
        lemma_first_guid_exists(t, j);
    }
}

/// A text holding a standalone GUID yields a GUID.
pub proof fn law_standalone_guid_is_found(t: Seq<char>, i: int)
    requires
        standalone_guid_at(t, i),
    ensures
        guid_in_spec(t) is Some,
{
    assert(guid_starts_at(t, i));
    lemma_first_guid_exists(t, i);
}


/// The active scheme read from `powercfg` is a lower-case GUID that stands
/// alone in its output; a run that failed or could not start gives an error.
pub proof fn law_active_scheme_is_a_guid_from_the_output(outcome: CommandOutcome, r: Result<String, String>)
    requires
        active_ok(outcome, r),
    ensures
        r matches Ok(v) ==> (outcome matches CommandOutcome::Finished { success, stdout } && success
            && is_guid(v@) && lower(v@) == v@
            && exists|i: int| #[trigger] standalone_guid_at(stdout@, i) && lower(stdout@.subrange(i, i + 36)) == v@),
        outcome matches CommandOutcome::Finished { success, .. } && !success
            ==> (r matches Err(m) && m@ == crate::power::cannot_read_msg()),
        outcome matches CommandOutcome::NotStarted(e) ==> (r matches Err(m) && m@ == e@),
{
    match outcome {
        CommandOutcome::Finished { success, stdout } => {
            law_found_guid_is_lowercase_guid(stdout@);
            law_found_guid_is_first_standalone_one(stdout@);
        },
        _ => {},
    }
}

/// A successful run whose output holds a standalone GUID gives a scheme; one
/// whose output holds none reports that no GUID was returned.
pub proof fn law_active_succeeds_exactly_with_a_guid(stdout: String, r: Result<String, String>)
    requires
        active_ok(CommandOutcome::Finished { success: true, stdout }, r),
    ensures
        r is Ok <==> exists|i: int| #[trigger] standalone_guid_at(stdout@, i),
        r is Err ==> (r matches Err(m) && m@ == crate::power::no_guid_msg()),
{
    if exists|i: int| standalone_guid_at(stdout@, i) {
        let i = choose|i: int| standalone_guid_at(stdout@, i);
        law_standalone_guid_is_found(stdout@, i);
    }
    law_found_guid_is_first_standalone_one(stdout@);
}

/// A saved profile keeps its game and preset, and keeps its scheme as the
/// same GUID in lower case (or keeps having none).
pub proof fn law_saved_profile_keeps_its_choice(profile: crate::model::Profile, q: crate::model::Profile)
    requires
        normalized_profile_ok(profile, Ok(q)),
    ensures
        q.game_id == profile.game_id,
        q.preset@ == profile.preset@,
        profile.power_scheme is None <==> q.power_scheme is None,
        q.power_scheme matches Some(g) ==> (profile.power_scheme matches Some(old)
            && is_guid(g@) && lower(g@) == g@ && lower(old@) == g@),
{
    if let Some(old) = profile.power_scheme {
        lemma_lower_keeps_guid(old@);
        lemma_lower_idempotent(old@);
    }
}

/// A profile is saved exactly when it is acceptable, and a refused one is
/// reported with one of the checks' messages.
pub proof fn law_profile_saved_exactly_when_acceptable(profile: crate::model::Profile, r: Result<crate::model::Profile, String>)
    requires
        normalized_profile_ok(profile, r),
    ensures
        r is Ok <==> {
            let preset = profile.preset@;
            &&& (preset == "Balanced"@ || preset == "Performance"@ || preset == "Custom"@)
            &&& (profile.power_scheme matches Some(g) ==> is_guid(g@))
            &&& (preset == "Balanced"@ ==> profile.power_scheme is None)
            &&& (preset == "Performance"@ ==> (profile.power_scheme matches Some(g) && lower(g@) == high_performance_guid()))
        },
        r matches Err(m) ==> (m@ == crate::rules::invalid_preset_msg() || m@ == crate::rules::invalid_guid_msg()
            || m@ == crate::rules::balanced_msg() || m@ == crate::rules::performance_msg()),
        !(profile.preset@ == "Balanced"@ || profile.preset@ == "Performance"@ || profile.preset@ == "Custom"@)
            ==> (r matches Err(m) && m@ == crate::rules::invalid_preset_msg()),
{
    law_profile_acceptance(profile.preset@, opt_view(profile.power_scheme));
}

/// Errors of running or reading back are passed on as the switch's error.
pub proof fn law_set_passes_errors_on(guid: Seq<char>, e: String, r1: SetAction, r2: SetAction)
    requires
        set_step_ok(guid, SetEvent::Applied(CommandOutcome::NotStarted(e)), r1),
        set_step_ok(guid, SetEvent::Verified(Err(e)), r2),
    ensures
        r1 matches SetAction::Fail(m) && m@ == e@,
        r2 matches SetAction::Fail(m) && m@ == e@,
{
}

/// The executable a launch works on, while it has one.
pub open spec fn launch_executable(s: LaunchState) -> Option<Seq<char>> {
    match s {
        LaunchState::CheckingExecutable { executable } => Some(executable@),
        LaunchState::LoadingProfile { executable } => Some(executable@),
        LaunchState::ReadingActive { executable, .. } => Some(executable@),
        LaunchState::StartingSession { executable, .. } => Some(executable@),
        LaunchState::Applying { executable, .. } => Some(executable@),
        LaunchState::RecordingApplied { executable, .. } => Some(executable@),
        _ => None,
    }
}

/// The launch works on the game's executable: it checks that one, keeps it,
/// and starts exactly it.
pub proof fn law_launch_starts_the_games_executable(state: LaunchState, event: LaunchEvent, next: LaunchState, action: LaunchAction)
    requires
        launch_step_ok(state, event, next, action),
    ensures
        event matches LaunchEvent::GameLoaded(Ok(game)) ==> (game.executable matches Some(x)
            ==> (action matches LaunchAction::CheckExecutable(p) && p@ == x@
                && launch_executable(next) == Some(p@))),
        launch_executable(state) is Some && launch_executable(next) is Some
            ==> launch_executable(next) == launch_executable(state),
        action matches LaunchAction::Spawn(p) ==> launch_executable(state) == Some(p@),
{
}

/// Every error reported by a launch step is passed on as the launch's error.
pub proof fn law_launch_passes_errors_on(state: LaunchState, event: LaunchEvent, next: LaunchState, action: LaunchAction, e: String)
    requires
        launch_step_ok(state, event, next, action),
        event == LaunchEvent::PendingChecked(Err(e)) || event == LaunchEvent::GameLoaded(Err(e))
            || event == LaunchEvent::ProfileLoaded(Err(e)) || event == LaunchEvent::ActiveRead(Err(e))
            || event == LaunchEvent::SessionStarted(Err(e)),
    ensures
        next is Over,
        action matches LaunchAction::Fail(m) && m@ == e@,
{
}

/// A launch refused or failed before recording anything never changes the
/// plan: each refusal ends the launch with its reason.
pub proof fn law_launch_refusals(state: LaunchState, event: LaunchEvent, next: LaunchState, action: LaunchAction)
    requires
        launch_step_ok(state, event, next, action),
    ensures
        event matches LaunchEvent::Begin { already_active }
            ==> (!already_active ==> (action is CheckPending && next is CheckingPending)),
        event matches LaunchEvent::PendingChecked(Ok(pending)) ==> (!pending ==> action is LoadGame),
        event matches LaunchEvent::GameLoaded(Ok(game)) ==> (game.executable is None
            ==> (action matches LaunchAction::Fail(m) && m@ == crate::session::no_executable_msg())),
        event matches LaunchEvent::ExecutableChecked(exists)
            ==> (exists <==> action is LoadProfile)
                && (!exists ==> (action matches LaunchAction::Fail(m) && m@ == crate::session::missing_executable_msg())),
        event matches LaunchEvent::Spawned(SpawnOutcome::NoParent)
            ==> (action matches LaunchAction::Fail(m) && m@ == crate::session::invalid_path_msg()),
{
}

/// The session is recorded under the profile's preset, and the scheme is
/// read only for a profile that selects one.
pub proof fn law_session_uses_profile_preset(executable: String, profile: crate::model::Profile, next: LaunchState, action: LaunchAction)
    requires
        launch_step_ok(LaunchState::LoadingProfile { executable }, LaunchEvent::ProfileLoaded(Ok(profile)), next, action),
    ensures
        profile.power_scheme is Some <==> action is ReadActive,
        profile.power_scheme matches Some(g)
            ==> (next matches LaunchState::ReadingActive { preset, scheme, .. } && preset@ == profile.preset@ && scheme@ == g@),
        profile.power_scheme is None
            ==> (action matches LaunchAction::StartSession { preset, .. } && preset@ == profile.preset@),
{
}

/// After the plan is applied, the change is recorded as applied and verified
/// and the game is started; when applying fails, that failure is recorded, the
/// session is finished with `apply_failed`, and the launch fails with the
/// same message.
pub proof fn law_apply_outcome_is_recorded(
    executable: String,
    id: i64,
    previous: Option<String>,
    target: String,
    outcome: Result<(), String>,
    n1: LaunchState,
    a1: LaunchAction,
    n2: LaunchState,
    a2: LaunchAction,
    n3: LaunchState,
    a3: LaunchAction,
)
    requires
        launch_step_ok(LaunchState::Applying { executable, id, previous, target }, LaunchEvent::SchemeApplied(outcome), n1, a1),
        launch_step_ok(n1, LaunchEvent::Recorded, n2, a2),
        outcome is Err ==> launch_step_ok(n2, LaunchEvent::Finished, n3, a3),
    ensures
        outcome is Ok ==> (a1 matches LaunchAction::RecordOperation { id: i, status, detail }
            && i == id && status@ == "applied"@ && detail@ == "Change verified"@),
        outcome is Ok ==> (a2 matches LaunchAction::Spawn(p) && p@ == executable@),
        outcome matches Err(e) ==> (a1 matches LaunchAction::RecordOperation { id: i, status, detail }
            && i == id && status@ == "apply_failed"@ && detail@ == e@),
        outcome is Err ==> (a2 matches LaunchAction::FinishSession { final_status, .. } && final_status@ == "apply_failed"@),
        outcome matches Err(e) ==> (a3 matches LaunchAction::Fail(m) && m@ == e@),
{
}

/// A started game hands the session over to be finished as `completed` when
/// the game exits.
pub proof fn law_started_game_finishes_as_completed(id: i64, previous: Option<String>, applied: Option<String>, next: LaunchState, action: LaunchAction)
    requires
        launch_step_ok(LaunchState::Spawning { id, previous, applied }, LaunchEvent::Spawned(SpawnOutcome::Started), next, action),
    ensures
        next is Over,
        action matches LaunchAction::Launched { id: i, final_status, .. } && i == id && final_status@ == "completed"@,
{
}


/// Whitespace dropped from the start, as an index.
pub proof fn lemma_trim_start(s: Seq<char>) -> (a: int)
    ensures
        0 <= a <= s.len(),
        trim_start(s) == s.skip(a),
        forall|k: int| 0 <= k < a ==> is_whitespace(#[trigger] s[k]),
        a < s.len() ==> !is_whitespace(s[a]),
    decreases s.len(),
{
    if s.len() > 0 && is_whitespace(s[0]) {
        let a1 = lemma_trim_start(s.drop_first());
        assert(s.drop_first().skip(a1) =~= s.skip(a1 + 1));
        assert forall|k: int| 0 <= k < a1 + 1 implies is_whitespace(#[trigger] s[k]) by {
            if k > 0 {
                assert(s[k] == s.drop_first()[k - 1]);
            }
        }
        assert(a1 + 1 < s.len() ==> s[a1 + 1] == s.drop_first()[a1]);
        a1 + 1
    } else {
        assert(s.skip(0) =~= s);
        0
    }
}

/// Whitespace dropped from the end, as the length kept.
pub proof fn lemma_trim_end(t: Seq<char>) -> (b: int)
    ensures
        0 <= b <= t.len(),
        trim_end(t) == t.take(b),
        forall|k: int| b <= k < t.len() ==> is_whitespace(#[trigger] t[k]),
        b > 0 ==> !is_whitespace(t[b - 1]),
    decreases t.len(),
{
    if t.len() > 0 && is_whitespace(t.last()) {
        let b1 = lemma_trim_end(t.drop_last());
        assert(t.drop_last().take(b1) =~= t.take(b1));
        assert forall|k: int| b1 <= k < t.len() implies is_whitespace(#[trigger] t[k]) by {
            if k < t.len() - 1 {
                assert(t[k] == t.drop_last()[k]);
            }
        }
        assert(b1 > 0 ==> t[b1 - 1] == t.drop_last()[b1 - 1]);
        b1
    } else {
        assert(t.take(t.len() as int) =~= t);
        t.len() as int
    }
}

/// Trimming drops exactly the leading and trailing whitespace: what is left
/// is a contiguous piece of the text that neither starts nor ends with
/// whitespace, and everything dropped is whitespace.
pub proof fn law_trim_drops_only_outer_whitespace(s: Seq<char>)
    ensures
        exists|a: int, b: int| {
            &&& 0 <= a <= b <= s.len()
            &&& #[trigger] s.subrange(a, b) == trim(s)
            &&& forall|k: int| 0 <= k < a ==> is_whitespace(#[trigger] s[k])
            &&& forall|k: int| b <= k < s.len() ==> is_whitespace(#[trigger] s[k])
            &&& a < b ==> !is_whitespace(s[a]) && !is_whitespace(s[b - 1])
        },
{
    let a = lemma_trim_start(s);
    let t = s.skip(a);
    let b1 = lemma_trim_end(t);
    let b = a + b1;
    assert(t.take(b1) =~= s.subrange(a, b));
    assert forall|k: int| b <= k < s.len() implies is_whitespace(#[trigger] s[k]) by {
        assert(s[k] == t[k - a]);
    }
    if a < b {
        assert(s[a] == t[0]);
        assert(s[b - 1] == t[b1 - 1]);
        if b1 == 1 {
            assert(!is_whitespace(t[0]));
        }
    }
    assert(0 <= a <= b <= s.len() && s.subrange(a, b) == trim(s));
}

/// An executable path is accepted exactly when the file exists and its
/// extension is `exe` in any mix of case.
pub proof fn law_exe_extension_any_case(is_file: bool, x: Seq<char>)
    ensures
        is_executable_path(is_file, Some(x)) <==> is_file && x.len() == 3 && lower_char(x[0]) == 'e'
            && lower_char(x[1]) == 'x' && lower_char(x[2]) == 'e',
{
    reveal_strlit("exe");
    let e = "exe"@;
    assert(e.len() == 3 && e[0] == 'e' && e[1] == 'x' && e[2] == 'e');
    assert(lower(e)[0] == 'e' && lower(e)[1] == 'x' && lower(e)[2] == 'e');
    if is_file && x.len() == 3 && lower_char(x[0]) == 'e' && lower_char(x[1]) == 'x' && lower_char(x[2]) == 'e' {
        assert(lower(x) =~= lower("exe"@));
    }
    if is_executable_path(is_file, Some(x)) {
        assert(lower(x)[0] == lower("exe"@)[0]);
        assert(lower(x)[1] == lower("exe"@)[1]);
        assert(lower(x)[2] == lower("exe"@)[2]);
    }
}

/// A session is recovered only while no game runs, and then exactly the
/// pending one; otherwise the reason is given.
pub proof fn law_recovery_needs_idle_app_and_pending_session(
    active: bool,
    pending: Result<Option<Recovery>, String>,
    r: Result<Recovery, String>,
)
    requires
        recovery_target_ok(active, pending, r),
    ensures
        r matches Ok(p) ==> !active && pending == Ok::<Option<Recovery>, String>(Some(p)),
        !active ==> (pending matches Ok(Some(p)) ==> r == Ok::<Recovery, String>(p)),
        active ==> (r matches Err(m) && m@ == crate::session::still_running_msg()),
        !active && pending is Ok && pending->Ok_0 is None ==> (r matches Err(m) && m@ == crate::session::no_pending_msg()),
        !active ==> (pending matches Err(e) ==> r == Err::<Recovery, String>(e)),
{
}


/// An unreadable folder entry ends the guess with nothing, and so does an
/// `.exe` without a stem.
pub proof fn law_unreadable_entry_gives_nothing(name: Seq<char>, e: ExeEntry, rest: Seq<Option<ExeEntry>>, cands: Seq<Seq<char>>)
    ensures
        pick_executable(name, seq![None] + rest, cands) is None,
        (e.extension matches Some(x) && lower(x@) == lower("exe"@)) && e.stem is None
            ==> pick_executable(name, seq![Some(e)] + rest, cands) is None,
{
    assert((seq![None] + rest)[0] == None::<ExeEntry>);
    assert((seq![Some(e)] + rest)[0] == Some(e));
}

/// At the end of the folder, a guess is made only from a single candidate.
pub proof fn law_guess_needs_a_single_candidate(name: Seq<char>, cands: Seq<Seq<char>>)
    ensures
        cands.len() == 1 <==> pick_executable(name, Seq::<Option<ExeEntry>>::empty(), cands) is Some,
        cands.len() == 1 ==> pick_executable(name, Seq::<Option<ExeEntry>>::empty(), cands) == Some(cands[0]),
{
}

/// A game that cannot be started ends the launch, after its session is
/// finished, with the message that any power-plan change was restored or
/// left for recovery; a finished session's launch fails with the message
/// kept for it.
pub proof fn law_failed_start_reports_restoration(
    id: i64,
    previous: Option<String>,
    applied: Option<String>,
    n1: LaunchState,
    a1: LaunchAction,
    n2: LaunchState,
    a2: LaunchAction,
)
    requires
        launch_step_ok(LaunchState::Spawning { id, previous, applied }, LaunchEvent::Spawned(SpawnOutcome::Failed), n1, a1),
        launch_step_ok(n1, LaunchEvent::Finished, n2, a2),
    ensures
        n2 is Over,
        a2 matches LaunchAction::Fail(m) && m@ == crate::session::not_started_msg(),
{
}

/// While a session runs, launching is refused with that reason.
pub proof fn law_busy_launch_is_refused_with_reason(next: LaunchState, action: LaunchAction)
    requires
        launch_step_ok(LaunchState::Ready, LaunchEvent::Begin { already_active: true }, next, action),
    ensures
        action matches LaunchAction::Reject(m) && m@ == crate::session::busy_msg(),
{
}

} // verus!
