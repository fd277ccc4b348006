use vstd::prelude::*;
use crate::model::Profile;
use crate::power::{is_guid, lemma_lower_idempotent, owned, same_ignoring_case, valid_guid};
use crate::steam::opt_view;
use crate::text::{chars_of, eq_ignore_ascii_case, lower, same_text, string_of, to_lowercase};

verus! {

broadcast use vstd::string::group_string_axioms;

/// The GUID of the standard Windows "High performance" power plan.
pub open spec fn high_performance_guid() -> Seq<char> {
    "8c5e7fda-e8bf-4a96-9a85-a6e23a8c635c"@
}

pub open spec fn is_preset(p: Seq<char>) -> bool {
    p == "Balanced"@ || p == "Performance"@ || p == "Custom"@
}

pub open spec fn invalid_preset_msg() -> Seq<char> { "Invalid preset"@ }
pub open spec fn invalid_guid_msg() -> Seq<char> { "Invalid power scheme GUID"@ }
pub open spec fn balanced_msg() -> Seq<char> { "Balanced does not change the power plan"@ }
pub open spec fn performance_msg() -> Seq<char> { "Performance uses the Windows High performance scheme"@ }

/// Why a profile cannot be saved, if it cannot: checked in this order, the
/// preset must be Balanced, Performance or Custom; a scheme must be a GUID;
/// Balanced selects no scheme; Performance selects the High performance scheme.
pub open spec fn profile_error(preset: Seq<char>, scheme: Option<Seq<char>>) -> Option<Seq<char>> {
    if !is_preset(preset) {
        Some(invalid_preset_msg())
    } else if scheme matches Some(g) && !is_guid(g) {
        Some(invalid_guid_msg())
    } else if preset == "Balanced"@ && scheme is Some {
        Some(balanced_msg())
    } else if preset == "Performance"@ && (scheme matches Some(g) ==> !same_ignoring_case(g, high_performance_guid())) {
        Some(performance_msg())
    } else {
        None
    }
}

pub open spec fn lower_opt(o: Option<Seq<char>>) -> Option<Seq<char>> {
    match o {
        Some(g) => Some(lower(g)),
        None => None,
    }
}

/// Checking `profile` before saving gives `r`: the first failed check's
/// message, or the profile with its scheme in lower case.
pub open spec fn normalized_profile_ok(profile: Profile, r: Result<Profile, String>) -> bool {
    match profile_error(profile.preset@, opt_view(profile.power_scheme)) {
        Some(m) => r matches Err(e) && e@ == m,
        None => r matches Ok(q) && q.game_id == profile.game_id && q.preset@ == profile.preset@
            && opt_view(q.power_scheme) == lower_opt(opt_view(profile.power_scheme)),
    }
}

/// Checks a profile before it is saved, and gives it back with its scheme in
/// lower case.
pub fn normalize_profile(profile: Profile) -> (r: Result<Profile, String>)
    ensures
        normalized_profile_ok(profile, r),
{
    let preset = profile.preset.as_str();
    let balanced = same_text(preset, "Balanced");
    let performance = same_text(preset, "Performance");
    if !balanced && !performance && !same_text(preset, "Custom") {
        return Err(owned("Invalid preset"));
    }
    match &profile.power_scheme {
        Some(g) => {
            if !valid_guid(g.as_str()) {
                return Err(owned("Invalid power scheme GUID"));
            }
        },
        None => {},
    }
    if balanced && profile.power_scheme.is_some() {
        return Err(owned("Balanced does not change the power plan"));
    }
    if performance {
        let high = match &profile.power_scheme {
            Some(g) => eq_ignore_ascii_case(g.as_str(), "8c5e7fda-e8bf-4a96-9a85-a6e23a8c635c"),
            None => false,
        };
        if !high {
            return Err(owned("Performance uses the Windows High performance scheme"));
        }
    }
    let scheme = match &profile.power_scheme {
        Some(g) => Some(to_lowercase(g.as_str())),
        None => None,
    };
    Ok(Profile { game_id: profile.game_id, preset: profile.preset, power_scheme: scheme })
}


/// `char::is_whitespace`: the characters with the Unicode White_Space property.
pub open spec fn is_whitespace(c: char) -> bool {
    ('\u{9}' <= c && c <= '\u{D}') || c == ' ' || c == '\u{85}' || c == '\u{A0}' || c == '\u{1680}'
        || ('\u{2000}' <= c && c <= '\u{200A}') || c == '\u{2028}' || c == '\u{2029}'
        || c == '\u{202F}' || c == '\u{205F}' || c == '\u{3000}'
}

fn is_whitespace_exec(c: char) -> (r: bool)
    ensures
        r == is_whitespace(c),
{
    ('\u{9}' <= c && c <= '\u{D}') || c == ' ' || c == '\u{85}' || c == '\u{A0}' || c == '\u{1680}'
        || ('\u{2000}' <= c && c <= '\u{200A}') || c == '\u{2028}' || c == '\u{2029}'
        || c == '\u{202F}' || c == '\u{205F}' || c == '\u{3000}'
}

pub open spec fn trim_start(s: Seq<char>) -> Seq<char>
    decreases s.len(),
{
    if s.len() > 0 && is_whitespace(s[0]) { trim_start(s.drop_first()) } else { s }
}

pub open spec fn trim_end(s: Seq<char>) -> Seq<char>
    decreases s.len(),
{
    if s.len() > 0 && is_whitespace(s.last()) { trim_end(s.drop_last()) } else { s }
}

/// `str::trim`: without its leading and trailing whitespace.
pub open spec fn trim(s: Seq<char>) -> Seq<char> {
    trim_end(trim_start(s))
}

/// The text of `s` without leading and trailing whitespace.
pub fn trimmed(s: &str) -> (r: String)
    ensures
        r@ == trim(s@),
{
    let v = chars_of(s);
    let mut a: usize = 0;
    assert(v@.skip(0) == v@);
    while a < v.len() && is_whitespace_exec(v[a])
        invariant
            a <= v.len(),
            trim_start(v@) == trim_start(v@.skip(a as int)),
        decreases v.len() - a,
    {
        assert(v@.skip(a as int).drop_first() == v@.skip(a + 1));
        a = a + 1;
    }
    let ghost mid = v@.skip(a as int);
    assert(trim_start(v@) == mid);
    let mut b: usize = v.len();
    assert(mid.take(mid.len() as int) == mid);
    while b > a && is_whitespace_exec(v[b - 1])
        invariant
            a <= b <= v.len(),
            mid == v@.skip(a as int),
            trim_end(mid) == trim_end(mid.take(b - a)),
        decreases b - a,
    {
        assert(mid.take(b - a).drop_last() == mid.take(b - 1 - a));
        b = b - 1;
    }
    assert(trim_end(mid) == mid.take(b - a));
    let mut out: Vec<char> = Vec::new();
    let mut k: usize = a;
    while k < b
        invariant
            a <= k <= b <= v.len(),
            out@ == v@.subrange(a as int, k as int),
        decreases b - k,
    {
        out.push(v[k]);
        assert(v@.subrange(a as int, k + 1) == v@.subrange(a as int, k as int).push(v@[k as int]));
        k = k + 1;
    }
    assert(out@ =~= mid.take(b - a));
    string_of(&out)
}

pub open spec fn choose_exe_msg() -> Seq<char> { "Choose an existing .exe file"@ }
pub open spec fn name_required_msg() -> Seq<char> { "Game name is required"@ }
pub open spec fn game_not_found_msg() -> Seq<char> { "Game not found"@ }

/// An executable path is accepted when it names an existing file whose
/// extension is `exe` in any case.
pub open spec fn is_executable_path(is_file: bool, extension: Option<Seq<char>>) -> bool {
    is_file && (extension matches Some(x) && same_ignoring_case(x, "exe"@))
}

pub open spec fn str_opt(o: Option<&str>) -> Option<Seq<char>> {
    match o {
        Some(s) => Some(s@),
        None => None,
    }
}

/// Checks an executable chosen for a game: `is_file` tells whether the path
/// is an existing file, `extension` is its extension where that is text.
pub fn check_executable(is_file: bool, extension: Option<&str>) -> (r: Result<(), String>)
    ensures
        is_executable_path(is_file, str_opt(extension)) ==> r is Ok,
        !is_executable_path(is_file, str_opt(extension)) ==> (r matches Err(m) && m@ == choose_exe_msg()),
{
    let exe = match extension {
        Some(x) => eq_ignore_ascii_case(x, "exe"),
        None => false,
    };
    if !is_file || !exe {
        return Err(owned("Choose an existing .exe file"));
    }
    Ok(())
}

/// Checks a game added by hand and gives back its name without surrounding
/// whitespace: the executable is checked first, then the name must not be blank.
pub fn prepare_new_game(name: &str, is_file: bool, extension: Option<&str>) -> (r: Result<String, String>)
    ensures
        !is_executable_path(is_file, str_opt(extension)) ==> (r matches Err(m) && m@ == choose_exe_msg()),
        is_executable_path(is_file, str_opt(extension)) && trim(name@).len() == 0
            ==> (r matches Err(m) && m@ == name_required_msg()),
        is_executable_path(is_file, str_opt(extension)) && trim(name@).len() > 0
            ==> (r matches Ok(n) && n@ == trim(name@)),
{
    check_executable(is_file, extension)?;
    let n = trimmed(name);
    if n.as_str().is_empty() {
        return Err(owned("Game name is required"));
    }
    Ok(n)
}

/// The outcome of changing a game's executable, from the number of rows the
/// update changed: none means the game does not exist.
pub fn executable_updated(changed: usize) -> (r: Result<(), String>)
    ensures
        changed == 0 ==> (r matches Err(m) && m@ == game_not_found_msg()),
        changed > 0 ==> r is Ok,
{
    if changed == 0 {
        return Err(owned("Game not found"));
    }
    Ok(())
}

} // verus!
