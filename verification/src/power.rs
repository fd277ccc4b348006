use vstd::prelude::*;
use crate::text::{
    chars_of, eq_ignore_ascii_case, hex_char, is_hex_char, lower, lower_char, lower_char_exec, same_text,
    string_of, to_lowercase,
};

verus! {

broadcast use vstd::string::group_string_axioms;

/// Characters that can be part of a GUID: hexadecimal digits and `-`.
pub open spec fn is_guid_char(c: char) -> bool {
    is_hex_char(c) || c == '-'
}

pub open spec fn is_dash_position(i: int) -> bool {
    i == 8 || i == 13 || i == 18 || i == 23
}

/// A GUID in its textual form: 36 characters, `-` at positions 8, 13, 18 and
/// 23, hexadecimal digits (either case) everywhere else.
pub open spec fn is_guid(s: Seq<char>) -> bool {
    &&& s.len() == 36
    &&& forall|i: int| 0 <= i < 36 ==> if is_dash_position(i) {
        #[trigger] s[i] == '-'
    } else {
        is_hex_char(s[i])
    }
}

/// A GUID of `t` starts at `i`: the 36 characters from `i` form a GUID and are
/// not preceded or followed by another GUID character, so that they are a
/// whole piece of `t` split at the characters that cannot be part of a GUID.
pub open spec fn guid_starts_at(t: Seq<char>, i: int) -> bool {
    &&& 0 <= i
    &&& i + 36 <= t.len()
    &&& is_guid(t.subrange(i, i + 36))
    &&& (i == 0 || !is_guid_char(t[i - 1]))
    &&& (i + 36 == t.len() || !is_guid_char(t[i + 36]))
}

/// The first GUID of `t` starts at `i`.
pub open spec fn first_guid_at(t: Seq<char>, i: int) -> bool {
    guid_starts_at(t, i) && forall|j: int| 0 <= j < i ==> !#[trigger] guid_starts_at(t, j)
}

/// The first GUID found in `t`, in lower case.
pub open spec fn guid_in_spec(t: Seq<char>) -> Option<Seq<char>> {
    if exists|i: int| first_guid_at(t, i) {
        let i = choose|i: int| first_guid_at(t, i);
        Some(lower(t.subrange(i, i + 36)))
    } else {
        None
    }
}

fn guid_starts_at_exec(t: &Vec<char>, i: usize) -> (r: bool)
    requires
        i + 36 <= t.len(),
    ensures
        r == guid_starts_at(t@, i as int),
{
    if i > 0 && (hex_char(t[i - 1]) || t[i - 1] == '-') {
        return false;
    }
    if i + 36 < t.len() && (hex_char(t[i + 36]) || t[i + 36] == '-') {
        return false;
    }
    let ghost w = t@.subrange(i as int, i + 36);
    let mut k: usize = 0;
    while k < 36
        invariant
            k <= 36,
            i + 36 <= t.len(),
            w == t@.subrange(i as int, i + 36),
            forall|j: int| 0 <= j < k ==> if is_dash_position(j) {
                #[trigger] w[j] == '-'
            } else {
                is_hex_char(w[j])
            },
        decreases 36 - k,
    {
        let c = t[i + k];
        assert(w[k as int] == c);
        let ok = if k == 8 || k == 13 || k == 18 || k == 23 { c == '-' } else { hex_char(c) };
        if !ok {
            assert(!is_guid(w));
            return false;
        }
        k = k + 1;
    }
    true
}

/// The first GUID in `text`, in lower case; `text` is split at every character
/// that is neither a hexadecimal digit nor `-`, and the first piece in GUID form
/// is taken.
pub fn guid_in(text: &str) -> (r: Option<String>)
    ensures
        match r {
            Some(g) => guid_in_spec(text@) == Some(g@),
            None => guid_in_spec(text@) is None,
        },
{
    let t = chars_of(text);
    if t.len() < 36 {
        assert(forall|i: int| !guid_starts_at(t@, i));
        assert(!exists|i: int| first_guid_at(text@, i));
        return None;
    }
    let last = t.len() - 36;
    let mut i: usize = 0;
    loop
        invariant_except_break
            i <= last,
        invariant
            last + 36 == t.len(),
            t@ == text@,
            forall|j: int| 0 <= j < i ==> !#[trigger] guid_starts_at(t@, j),
        ensures
            forall|j: int| 0 <= j <= last ==> !#[trigger] guid_starts_at(t@, j),
        decreases last - i,
    {
        if guid_starts_at_exec(&t, i) {
            assert(first_guid_at(t@, i as int));
            proof {
                let k = choose|k: int| first_guid_at(t@, k);
                assert(k == i) by {
                    if k < i {
                        assert(!guid_starts_at(t@, k));
                    } else if k > i {
                        assert(!guid_starts_at(t@, i as int));
                    }
                }
            }
            let mut out: Vec<char> = Vec::new();
            let mut m: usize = 0;
            while m < 36
                invariant
                    m <= 36,
                    i + 36 <= t.len(),
                    out@ == lower(t@.subrange(i as int, i + m)),
                decreases 36 - m,
            {
                out.push(lower_char_exec(t[i + m]));
                assert(lower(t@.subrange(i as int, i + m + 1)) =~= lower(t@.subrange(i as int, i + m)).push(lower_char(t@[i + m])));
                m = m + 1;
            }
            return Some(string_of(&out));
        }
        if i == last {
            break;
        }
        i = i + 1;
    }
    assert(!exists|j: int| first_guid_at(text@, j));
    None
}


pub proof fn lemma_lower_idempotent(s: Seq<char>)
    ensures
        lower(lower(s)) == lower(s),
{
    assert(lower(lower(s)) =~= lower(s));
}

/// Whether `value` is a GUID: `value` is exactly the GUID that `guid_in`
/// finds in it, compared ASCII case-insensitively.
pub fn valid_guid(value: &str) -> (r: bool)
    ensures
        r == is_guid(value@),
{
    let found = guid_in(value);
    let ghost t = value@;
    match found {
        Some(g) => {
            let same = eq_ignore_ascii_case(g.as_str(), value);
            proof {
                let i = choose|i: int| first_guid_at(t, i);
                let w = t.subrange(i, i + 36);
                lemma_lower_idempotent(w);
                if same {
                    assert(lower(t).len() == 36);
                    assert(t.len() == 36);
                    assert(i == 0);
                    assert(w =~= t);
                } else {
                    if is_guid(t) {
                        assert(guid_starts_at(t, 0));
                        assert(first_guid_at(t, 0));
                        assert(i == 0) by {
                            if i > 0 {
                                assert(!guid_starts_at(t, 0));
                            }
                        }
                        assert(w =~= t);
                    }
                }
            }
            same
        },
        None => {
            proof {
                if is_guid(t) {
                    assert(t.subrange(0, 36) =~= t);
                    assert(first_guid_at(t, 0));
                }
            }
            false
        },
    }
}

/// What restoring the power plan after a session calls for.
#[derive(PartialEq, Eq, Structural, Debug)]
pub enum RestoreDecision {
    /// The session changed nothing.
    NoChange,
    /// The plan in force is already the one from before the session.
    AlreadyRestored,
    /// The plan the session applied is in force: put the previous one back.
    ApplyPrevious,
    /// Another plan is in force: it was changed outside, so leave it.
    Conflict,
}

/// ASCII case-insensitive equality of two texts.
pub open spec fn same_ignoring_case(a: Seq<char>, b: Seq<char>) -> bool {
    lower(a) == lower(b)
}

/// The decision for a session that found `previous` in force and applied
/// `applied`, when `current` is in force now.
pub open spec fn restore_decision_spec(previous: Option<Seq<char>>, applied: Option<Seq<char>>, current: Option<Seq<char>>) -> RestoreDecision {
    match (previous, applied) {
        (Some(old), Some(new)) if !same_ignoring_case(old, new) => match current {
            Some(value) if same_ignoring_case(value, old) => RestoreDecision::AlreadyRestored,
            Some(value) if same_ignoring_case(value, new) => RestoreDecision::ApplyPrevious,
            _ => RestoreDecision::Conflict,
        },
        _ => RestoreDecision::NoChange,
    }
}

pub open spec fn str_opt_view(o: Option<&str>) -> Option<Seq<char>> {
    match o {
        Some(s) => Some(s@),
        None => None,
    }
}

/// Decides how to restore the power plan: nothing to do unless the session
/// applied a plan other than the previous one; then the previous plan is put
/// back only when the plan in force is the applied one, and a plan changed
/// outside GameBooster is reported as a conflict.
pub fn restore_decision(previous: Option<&str>, applied: Option<&str>, current: Option<&str>) -> (r: RestoreDecision)
    ensures
        r == restore_decision_spec(str_opt_view(previous), str_opt_view(applied), str_opt_view(current)),
{
    match (previous, applied) {
        (Some(old), Some(new)) => {
            if eq_ignore_ascii_case(old, new) {
                return RestoreDecision::NoChange;
            }
            match current {
                Some(value) => {
                    if eq_ignore_ascii_case(value, old) {
                        RestoreDecision::AlreadyRestored
                    } else if eq_ignore_ascii_case(value, new) {
                        RestoreDecision::ApplyPrevious
                    } else {
                        RestoreDecision::Conflict
                    }
                },
                None => RestoreDecision::Conflict,
            }
        },
        _ => RestoreDecision::NoChange,
    }
}


pub open spec fn cannot_read_msg() -> Seq<char> { "Cannot read the active Windows power scheme"@ }
pub open spec fn no_guid_msg() -> Seq<char> { "Windows did not return a power scheme GUID"@ }
pub open spec fn invalid_guid_msg() -> Seq<char> { "Invalid power scheme GUID"@ }
pub open spec fn rejected_msg() -> Seq<char> { "Windows rejected the power scheme change"@ }
pub open spec fn unverified_msg() -> Seq<char> { "Power scheme change could not be verified"@ }
pub open spec fn no_change_msg() -> Seq<char> { "No system setting changed"@ }
pub open spec fn already_restored_msg() -> Seq<char> { "Already restored"@ }
pub open spec fn restored_msg() -> Seq<char> { "Original power plan restored and verified"@ }
pub open spec fn conflict_msg() -> Seq<char> {
    "The power plan changed outside GameBooster; restore it manually or confirm the current plan before retrying"@
}

/// An owned copy of `s`.
pub fn owned(s: &str) -> (r: String)
    ensures
        r@ == s@,
{
    s.to_owned()
}

/// How a `powercfg` run ended: it could not be started (with the error's
/// text), or it finished with a success flag and its output as text.
pub enum CommandOutcome {
    NotStarted(String),
    Finished { success: bool, stdout: String },
}

/// Reading the active scheme from `outcome` gives `r`.
pub open spec fn active_ok(outcome: CommandOutcome, r: Result<String, String>) -> bool {
    match outcome {
        CommandOutcome::NotStarted(e) => r == Err::<String, String>(e),
        CommandOutcome::Finished { success, stdout } => {
            if !success {
                r matches Err(m) && m@ == cannot_read_msg()
            } else {
                match guid_in_spec(stdout@) {
                    Some(g) => r matches Ok(v) && v@ == g,
                    None => r matches Err(m) && m@ == no_guid_msg(),
                }
            }
        },
    }
}

/// The active power scheme, read from the outcome of `powercfg /getactivescheme`:
/// the first GUID of its output, in lower case.
pub fn active(outcome: CommandOutcome) -> (r: Result<String, String>)
    ensures
        active_ok(outcome, r),
{
    match outcome {
        CommandOutcome::NotStarted(e) => Err(e),
        CommandOutcome::Finished { success, stdout } => {
            if !success {
                return Err(owned("Cannot read the active Windows power scheme"));
            }
            match guid_in(stdout.as_str()) {
                Some(g) => Ok(g),
                None => Err(owned("Windows did not return a power scheme GUID")),
            }
        },
    }
}

/// What happened since the last step of switching the power scheme.
pub enum SetEvent {
    /// The switch is asked for.
    Begin,
    /// `powercfg /setactive` ran with this outcome.
    Applied(CommandOutcome),
    /// The active scheme was read back with this result.
    Verified(Result<String, String>),
}

/// What switching the power scheme does next.
pub enum SetAction {
    /// Stop with this error.
    Fail(String),
    /// Run `powercfg /setactive` with this GUID.
    RunSetActive(String),
    /// Read the active scheme back.
    ReadActive,
    /// The switch is done and verified.
    Done,
}

/// One step of switching to `guid`: on `event`, `r` is what follows.
pub open spec fn set_step_ok(guid: Seq<char>, event: SetEvent, r: SetAction) -> bool {
    match event {
        SetEvent::Begin => if is_guid(guid) {
            r matches SetAction::RunSetActive(g) && g@ == guid
        } else {
            r matches SetAction::Fail(m) && m@ == invalid_guid_msg()
        },
        SetEvent::Applied(CommandOutcome::NotStarted(e)) => r == SetAction::Fail(e),
        SetEvent::Applied(CommandOutcome::Finished { success, stdout }) => if success {
            r is ReadActive
        } else {
            r matches SetAction::Fail(m) && m@ == rejected_msg()
        },
        SetEvent::Verified(Err(e)) => r == SetAction::Fail(e),
        SetEvent::Verified(Ok(current)) => if current@ == lower(guid) {
            r is Done
        } else {
            r matches SetAction::Fail(m) && m@ == unverified_msg()
        },
    }
}

/// One step of switching the active power scheme to `guid`: the GUID is
/// checked, `powercfg /setactive` runs, and the switch counts only when the
/// scheme read back is `guid` in lower case.
pub fn set(guid: &str, event: SetEvent) -> (r: SetAction)
    ensures
        set_step_ok(guid@, event, r),
{
    match event {
        SetEvent::Begin => {
            if !valid_guid(guid) {
                return SetAction::Fail(owned("Invalid power scheme GUID"));
            }
            SetAction::RunSetActive(owned(guid))
        },
        SetEvent::Applied(CommandOutcome::NotStarted(e)) => SetAction::Fail(e),
        SetEvent::Applied(CommandOutcome::Finished { success, stdout }) => {
            if !success {
                return SetAction::Fail(owned("Windows rejected the power scheme change"));
            }
            SetAction::ReadActive
        },
        SetEvent::Verified(Err(e)) => SetAction::Fail(e),
        SetEvent::Verified(Ok(current)) => {
            let wanted = to_lowercase(guid);
            if same_text(current.as_str(), wanted.as_str()) {
                SetAction::Done
            } else {
                SetAction::Fail(owned("Power scheme change could not be verified"))
            }
        },
    }
}

/// What happened since the last step of restoring the power plan.
pub enum RestoreEvent {
    /// Restoring is asked for.
    Begin,
    /// The active scheme was read with this result.
    ActiveRead(Result<String, String>),
    /// Switching back to the previous scheme ended with this result.
    SchemeSet(Result<(), String>),
}

/// What restoring the power plan does next.
pub enum RestoreAction {
    /// Read the active scheme.
    ReadActive,
    /// Switch the active scheme to this GUID.
    SetScheme(String),
    /// Restoring ends with this result.
    Finish(Result<String, String>),
}

/// One step of restoring after a session that found `previous` in force and
/// applied `applied`: on `event`, `r` is what follows.
pub open spec fn restore_step_ok(previous: Option<Seq<char>>, applied: Option<Seq<char>>, event: RestoreEvent, r: RestoreAction) -> bool {
    match event {
        RestoreEvent::Begin => if restore_decision_spec(previous, applied, None) == RestoreDecision::NoChange {
            r matches RestoreAction::Finish(Ok(m)) && m@ == no_change_msg()
        } else {
            r is ReadActive
        },
        RestoreEvent::ActiveRead(Err(e)) => r == RestoreAction::Finish(Err(e)),
        RestoreEvent::ActiveRead(Ok(current)) => match restore_decision_spec(previous, applied, Some(current@)) {
            RestoreDecision::NoChange => r matches RestoreAction::Finish(Ok(m)) && m@ == no_change_msg(),
            RestoreDecision::AlreadyRestored => r matches RestoreAction::Finish(Ok(m)) && m@ == already_restored_msg(),
            RestoreDecision::ApplyPrevious => r matches RestoreAction::SetScheme(g) && previous == Some(g@),
            RestoreDecision::Conflict => r matches RestoreAction::Finish(Err(m)) && m@ == conflict_msg(),
        },
        RestoreEvent::SchemeSet(Err(e)) => r == RestoreAction::Finish(Err(e)),
        RestoreEvent::SchemeSet(Ok(())) => r matches RestoreAction::Finish(Ok(m)) && m@ == restored_msg(),
    }
}

/// One step of restoring the power plan after a session that found `previous`
/// in force and applied `applied`.
pub fn restore(previous: Option<&str>, applied: Option<&str>, event: RestoreEvent) -> (r: RestoreAction)
    ensures
        restore_step_ok(str_opt_view(previous), str_opt_view(applied), event, r),
{
    match event {
        RestoreEvent::Begin => {
            if restore_decision(previous, applied, None) == RestoreDecision::NoChange {
                RestoreAction::Finish(Ok(owned("No system setting changed")))
            } else {
                RestoreAction::ReadActive
            }
        },
        RestoreEvent::ActiveRead(Err(e)) => RestoreAction::Finish(Err(e)),
        RestoreEvent::ActiveRead(Ok(current)) => {
            match restore_decision(previous, applied, Some(current.as_str())) {
                RestoreDecision::AlreadyRestored => RestoreAction::Finish(Ok(owned("Already restored"))),
                RestoreDecision::ApplyPrevious => {
                    match previous {
                        Some(p) => RestoreAction::SetScheme(owned(p)),
                        None => RestoreAction::Finish(Ok(owned("No system setting changed"))),
                    }
                },
                RestoreDecision::Conflict => RestoreAction::Finish(Err(owned(
                    "The power plan changed outside GameBooster; restore it manually or confirm the current plan before retrying",
                ))),
                RestoreDecision::NoChange => RestoreAction::Finish(Ok(owned("No system setting changed"))),
            }
        },
        RestoreEvent::SchemeSet(Err(e)) => RestoreAction::Finish(Err(e)),
        RestoreEvent::SchemeSet(Ok(())) => RestoreAction::Finish(Ok(owned("Original power plan restored and verified"))),
    }
}

} // verus!
