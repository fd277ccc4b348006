use vstd::prelude::*;
use crate::text::{
    chars_of, lines, lines_of, lower, same_chars, same_chars_ignore_case, same_text, to_lowercase, split_chars, split_on, string_of, views,
};

verus! {

broadcast use vstd::string::group_string_axioms;

/// A game found in a Steam library.
#[derive(Debug)]
pub struct DiscoveredGame {
    pub name: String,
    pub install_path: String,
    pub executable: Option<String>,
}

/// The value of `field` on one manifest line: the line split at `"` has at least
/// four pieces, the second names the field (ASCII case-insensitively) and the
/// fourth is the value.
pub open spec fn field_value(line: Seq<char>, field: Seq<char>) -> Option<Seq<char>> {
    let parts = split_on(line, '"');
    if parts.len() >= 4 && lower(parts[1]) == lower(field) {
        Some(parts[3])
    } else {
        None
    }
}

/// The value of `field` on the first line that has one.
pub open spec fn first_field(lines: Seq<Seq<char>>, field: Seq<char>) -> Option<Seq<char>>
    decreases lines.len(),
{
    if lines.len() == 0 {
        None
    } else {
        match field_value(lines[0], field) {
            Some(v) => Some(v),
            None => first_field(lines.drop_first(), field),
        }
    }
}

pub open spec fn opt_view(o: Option<String>) -> Option<Seq<char>> {
    match o {
        Some(s) => Some(s@),
        None => None,
    }
}

fn field_of_line(line: &Vec<char>, field: &Vec<char>) -> (r: Option<Vec<char>>)
    ensures
        match r {
            Some(v) => field_value(line@, field@) == Some(v@),
            None => field_value(line@, field@) is None,
        },
{
    let mut parts = split_chars(line, '"');
    if parts.len() >= 4 && same_chars_ignore_case(&parts[1], field) {
        let v = parts.swap_remove(3);
        Some(v)
    } else {
        None
    }
}

/// The value of the quoted `field` in a Steam manifest text: the first line
/// `"field" "value"` (field name compared ASCII case-insensitively).
pub fn quoted_field(text: &str, field: &str) -> (r: Option<String>)
    ensures
        opt_view(r) == first_field(lines_of(text@), field@),
{
    let ls = lines(text);
    let f = chars_of(field);
    let ghost all = lines_of(text@);
    let mut i: usize = 0;
    assert(all.skip(0) == all);
    while i < ls.len()
        invariant
            i <= ls.len(),
            views(ls@) == all,
            all == lines_of(text@),
            f@ == field@,
            first_field(all, field@) == first_field(all.skip(i as int), field@),
        decreases ls.len() - i,
    {
        assert(all.skip(i as int).len() > 0);
        assert(all.skip(i as int)[0] == ls@[i as int]@);
        assert(all.skip(i as int).drop_first() == all.skip(i + 1));
        match field_of_line(&ls[i], &f) {
            Some(v) => {
                assert(first_field(all.skip(i as int), field@) == Some(v@));
                return Some(string_of(&v));
            },
            None => {},
        }
        i = i + 1;
    }
    None
}


/// `str::replace("\\\\", "\\")`: each pair of backslashes, taken left to right
/// without overlap, becomes one backslash.
pub open spec fn unescape(s: Seq<char>) -> Seq<char>
    decreases s.len(),
{
    if s.len() == 0 {
        Seq::<char>::empty()
    } else if s.len() >= 2 && s[0] == '\\' && s[1] == '\\' {
        seq!['\\'] + unescape(s.skip(2))
    } else {
        seq![s[0]] + unescape(s.skip(1))
    }
}

fn unescape_exec(s: &Vec<char>) -> (r: Vec<char>)
    ensures
        r@ == unescape(s@),
{
    let mut out: Vec<char> = Vec::new();
    let mut i: usize = 0;
    assert(s@.skip(0) == s@);
    while i < s.len()
        invariant
            i <= s.len(),
            out@ + unescape(s@.skip(i as int)) == unescape(s@),
        decreases s.len() - i,
    {
        let ghost rest = s@.skip(i as int);
        if i + 1 < s.len() && s[i] == '\\' && s[i + 1] == '\\' {
            assert(rest.skip(2) == s@.skip(i + 2));
            out.push('\\');
            assert(out@ + unescape(s@.skip(i + 2)) =~= unescape(s@));
            i = i + 2;
        } else {
            assert(rest.skip(1) == s@.skip(i + 1));
            out.push(s[i]);
            assert(out@ + unescape(s@.skip(i + 1)) =~= unescape(s@));
            i = i + 1;
        }
    }
    assert(s@.skip(i as int).len() == 0);
    assert(out@ =~= unescape(s@));
    out
}

/// The library folders that `libraryfolders.vdf` lists: the `"path"` value of
/// every line that has one, in order, with doubled backslashes collapsed.
pub open spec fn library_paths_of(lines: Seq<Seq<char>>) -> Seq<Seq<char>>
    decreases lines.len(),
{
    if lines.len() == 0 {
        Seq::<Seq<char>>::empty()
    } else {
        let rest = library_paths_of(lines.drop_first());
        match field_value(lines[0], "path"@) {
            Some(v) => seq![unescape(v)] + rest,
            None => rest,
        }
    }
}

pub open spec fn strings_view(v: Seq<String>) -> Seq<Seq<char>> {
    v.map_values(|s: String| s@)
}

/// The library folder paths listed in the text of `libraryfolders.vdf`.
pub fn library_paths(text: &str) -> (r: Vec<String>)
    ensures
        strings_view(r@) == library_paths_of(lines_of(text@)),
{
    let ls = lines(text);
    let key = chars_of("path");
    let ghost all = lines_of(text@);
    let mut out: Vec<String> = Vec::new();
    let mut i: usize = 0;
    assert(all.skip(0) == all);
    while i < ls.len()
        invariant
            i <= ls.len(),
            views(ls@) == all,
            all == lines_of(text@),
            key@ == "path"@,
            strings_view(out@) + library_paths_of(all.skip(i as int)) == library_paths_of(all),
        decreases ls.len() - i,
    {
        assert(all.skip(i as int).len() > 0);
        assert(all.skip(i as int)[0] == ls@[i as int]@);
        assert(all.skip(i as int).drop_first() == all.skip(i + 1));
        match field_of_line(&ls[i], &key) {
            Some(v) => {
                let u = unescape_exec(&v);
                let p = string_of(&u);
                let ghost old_out = out@;
                out.push(p);
                assert(strings_view(out@) =~= strings_view(old_out).push(p@));
                assert(strings_view(out@) + library_paths_of(all.skip(i + 1)) =~= strings_view(old_out) + library_paths_of(all.skip(i as int)));
            },
            None => {},
        }
        i = i + 1;
    }
    assert(all.skip(i as int) =~= Seq::<Seq<char>>::empty());
    assert(strings_view(out@) =~= library_paths_of(all));
    out
}

/// True when `prefix` begins `s`.
pub open spec fn starts_with(s: Seq<char>, prefix: Seq<char>) -> bool {
    prefix.len() <= s.len() && s.take(prefix.len() as int) == prefix
}

fn starts_with_exec(s: &Vec<char>, prefix: &Vec<char>) -> (r: bool)
    ensures
        r == starts_with(s@, prefix@),
{
    if prefix.len() > s.len() {
        return false;
    }
    let mut i: usize = 0;
    while i < prefix.len()
        invariant
            i <= prefix.len() <= s.len(),
            forall|j: int| 0 <= j < i ==> s@[j] == prefix@[j],
        decreases prefix.len() - i,
    {
        if s[i] != prefix[i] {
            assert(s@.take(prefix.len() as int)[i as int] != prefix@[i as int]);
            return false;
        }
        i = i + 1;
    }
    assert(s@.take(prefix.len() as int) =~= prefix@);
    true
}

/// Whether a file in `steamapps` is an app manifest: its name starts with
/// `appmanifest_` and its extension is exactly `acf`. The name is taken as
/// lossily decoded text and the extension only where it is valid text.
pub fn is_app_manifest(file_name: Option<&str>, extension: Option<&str>) -> (r: bool)
    ensures
        r == ((file_name matches Some(n) && starts_with(n@, "appmanifest_"@))
            && (extension matches Some(e) && e@ == "acf"@)),
{
    let named = match file_name {
        Some(n) => starts_with_exec(&chars_of(n), &chars_of("appmanifest_")),
        None => false,
    };
    let acf = match extension {
        Some(e) => same_text(e, "acf"),
        None => false,
    };
    named && acf
}


/// A directory entry looked at when guessing a game's executable: its path,
/// its extension when that is valid text, and its file stem.
pub struct ExeEntry {
    pub path: String,
    pub extension: Option<String>,
    pub stem: Option<String>,
}

/// `str::replace(' ', "")`: the characters of `s` other than spaces.
pub open spec fn drop_spaces(s: Seq<char>) -> Seq<char>
    decreases s.len(),
{
    if s.len() == 0 {
        Seq::<char>::empty()
    } else {
        let init = drop_spaces(s.drop_last());
        if s.last() == ' ' { init } else { init.push(s.last()) }
    }
}

/// A name as compared with executable stems: ASCII lower case, spaces removed.
pub open spec fn normalized(s: Seq<char>) -> Seq<char> {
    drop_spaces(lower(s))
}

/// True when `sub` occurs in `s`.
pub open spec fn contains(s: Seq<char>, sub: Seq<char>) -> bool {
    exists|i: int| 0 <= i && i + sub.len() <= s.len() && #[trigger] s.subrange(i, i + sub.len()) == sub
}

/// Stems of programs that are not the game itself.
pub open spec fn is_helper_program(stem: Seq<char>) -> bool {
    contains(stem, "uninstall"@) || contains(stem, "setup"@) || contains(stem, "launcher"@)
}

/// The executable chosen among `entries`, given the candidates kept so far:
/// an unreadable entry ends the search with nothing; an `.exe` (any case)
/// whose normalized stem is the normalized game name is chosen at once; an
/// `.exe` without a stem ends the search with nothing; other `.exe` files that
/// are not helper programs become candidates; at the end a single candidate
/// is chosen.
pub open spec fn pick_executable(name: Seq<char>, entries: Seq<Option<ExeEntry>>, cands: Seq<Seq<char>>) -> Option<Seq<char>>
    decreases entries.len(),
{
    if entries.len() == 0 {
        if cands.len() == 1 { Some(cands[0]) } else { None }
    } else {
        match entries[0] {
            None => None,
            Some(e) => {
                if e.extension matches Some(x) && lower(x@) == lower("exe"@) {
                    match e.stem {
                        None => None,
                        Some(st) => {
                            if normalized(st@) == normalized(name) {
                                Some(e.path@)
                            } else if !is_helper_program(normalized(st@)) {
                                pick_executable(name, entries.drop_first(), cands.push(e.path@))
                            } else {
                                pick_executable(name, entries.drop_first(), cands)
                            }
                        },
                    }
                } else {
                    pick_executable(name, entries.drop_first(), cands)
                }
            },
        }
    }
}

fn normalized_exec(s: &str) -> (r: Vec<char>)
    ensures
        r@ == normalized(s@),
{
    let low = to_lowercase(s);
    let v = chars_of(low.as_str());
    let mut out: Vec<char> = Vec::new();
    let mut i: usize = 0;
    assert(v@.take(0) =~= Seq::<char>::empty());
    while i < v.len()
        invariant
            i <= v.len(),
            out@ == drop_spaces(v@.take(i as int)),
        decreases v.len() - i,
    {
        assert(v@.take(i + 1).drop_last() == v@.take(i as int));
        if v[i] != ' ' {
            out.push(v[i]);
        }
        i = i + 1;
    }
    assert(v@.take(v.len() as int) == v@);
    out
}

fn matches_at(s: &Vec<char>, sub: &Vec<char>, at: usize) -> (r: bool)
    requires
        at + sub.len() <= s.len(),
    ensures
        r == (s@.subrange(at as int, at + sub.len()) == sub@),
{
    let mut j: usize = 0;
    while j < sub.len()
        invariant
            j <= sub.len(),
            at + sub.len() <= s.len(),
            forall|k: int| 0 <= k < j ==> s@[at + k] == sub@[k],
        decreases sub.len() - j,
    {
        if s[at + j] != sub[j] {
            assert(s@.subrange(at as int, at + sub.len())[j as int] != sub@[j as int]);
            return false;
        }
        j = j + 1;
    }
    assert(s@.subrange(at as int, at + sub.len()) =~= sub@);
    true
}

fn contains_exec(s: &Vec<char>, sub: &Vec<char>) -> (r: bool)
    ensures
        r == contains(s@, sub@),
{
    if sub.len() > s.len() {
        return false;
    }
    let last = s.len() - sub.len();
    let mut i: usize = 0;
    loop
        invariant_except_break
            i <= last,
        invariant
            last + sub.len() == s.len(),
            forall|j: int| 0 <= j < i ==> #[trigger] s@.subrange(j, j + sub.len()) != sub@,
        ensures
            forall|j: int| 0 <= j <= last ==> #[trigger] s@.subrange(j, j + sub.len()) != sub@,
        decreases last - i,
    {
        if matches_at(s, sub, i) {
            return true;
        }
        if i == last {
            break;
        }
        i = i + 1;
    }
    false
}

/// The executable of a game in its install folder, guessed from the folder's
/// entries as `pick_executable` says.
pub fn likely_executable(name: &str, entries: &Vec<Option<ExeEntry>>) -> (r: Option<String>)
    ensures
        opt_view(r) == pick_executable(name@, entries@, Seq::<Seq<char>>::empty()),
{
    let expected = normalized_exec(name);
    let exe = chars_of("exe");
    let uninstall = chars_of("uninstall");
    let setup = chars_of("setup");
    let launcher = chars_of("launcher");
    let mut cands: Vec<String> = Vec::new();
    let mut i: usize = 0;
    assert(entries@.skip(0) == entries@);
    assert(strings_view(cands@) =~= Seq::<Seq<char>>::empty());
    while i < entries.len()
        invariant
            i <= entries.len(),
            expected@ == normalized(name@),
            exe@ == "exe"@,
            uninstall@ == "uninstall"@,
            setup@ == "setup"@,
            launcher@ == "launcher"@,
            pick_executable(name@, entries@, Seq::<Seq<char>>::empty())
                == pick_executable(name@, entries@.skip(i as int), strings_view(cands@)),
        decreases entries.len() - i,
    {
        let ghost rest = entries@.skip(i as int);
        assert(rest.len() > 0 && rest[0] == entries@[i as int]);
        assert(rest.drop_first() == entries@.skip(i + 1));
        match &entries[i] {
            None => {
                return None;
            },
            Some(e) => {
                let is_exe = match &e.extension {
                    Some(x) => same_chars_ignore_case(&chars_of(x.as_str()), &exe),
                    None => false,
                };
                if is_exe {
                    match &e.stem {
                        None => {
                            return None;
                        },
                        Some(st) => {
                            let stem = normalized_exec(st.as_str());
                            if same_chars(&stem, &expected) {
                                return Some(e.path.clone());
                            }
                            if !contains_exec(&stem, &uninstall) && !contains_exec(&stem, &setup)
                                && !contains_exec(&stem, &launcher) {
                                let ghost old_cands = cands@;
                                cands.push(e.path.clone());
                                assert(strings_view(cands@) =~= strings_view(old_cands).push(e.path@));
                            }
                        },
                    }
                }
            },
        }
        i = i + 1;
    }
    assert(entries@.skip(i as int) =~= Seq::<Option<ExeEntry>>::empty());
    if cands.len() == 1 {
        let c = cands.pop().unwrap();
        Some(c)
    } else {
        None
    }
}

} // verus!
