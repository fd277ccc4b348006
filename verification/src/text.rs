use vstd::prelude::*;

verus! {

broadcast use vstd::string::group_string_axioms;

/// True when `c` is an ASCII hexadecimal digit.
pub open spec fn is_hex_char(c: char) -> bool {
    ('0' <= c && c <= '9') || ('a' <= c && c <= 'f') || ('A' <= c && c <= 'F')
}

/// ASCII lower-casing of one character; every other character is left as it is.
pub open spec fn lower_char(c: char) -> char {
    if 'A' <= c && c <= 'Z' { ((c as u32) + 32) as char } else { c }
}

pub open spec fn lower(s: Seq<char>) -> Seq<char> {
    s.map_values(|c: char| lower_char(c))
}

pub fn hex_char(c: char) -> (r: bool)
    ensures r == is_hex_char(c),
{
    ('0' <= c && c <= '9') || ('a' <= c && c <= 'f') || ('A' <= c && c <= 'F')
}

pub fn lower_char_exec(c: char) -> (r: char)
    ensures r == lower_char(c),
{
    if 'A' <= c && c <= 'Z' {
        let b: u8 = c as u8;
        (b + 32) as char
    } else {
        c
    }
}

/// The characters of `s`, in order.
pub fn chars_of(s: &str) -> (v: Vec<char>)
    ensures v@ == s@,
{
    let mut v: Vec<char> = Vec::new();
    for c in it: s.chars()
        invariant
            v@ == it.seq().take(it.index() as int),
            it.seq() == s@,
    {
        v.push(c);
    }
    v
}


/// `String::push`: appends one character at the end.
#[verifier::external_body]
pub(crate) fn push_char(s: &mut String, c: char)
    ensures
        final(s)@ == old(s)@.push(c),
{
    s.push(c);
}

/// The string whose characters are `v`.
pub fn string_of(v: &Vec<char>) -> (s: String)
    ensures s@ == v@,
{
    let mut s = String::new();
    let mut i: usize = 0;
    while i < v.len()
        invariant
            i <= v.len(),
            s@ == v@.take(i as int),
        decreases v.len() - i,
    {
        push_char(&mut s, v[i]);
        assert(v@.take(i + 1) == v@.take(i as int).push(v@[i as int]));
        i = i + 1;
    }
    assert(v@.take(v.len() as int) == v@);
    s
}

/// `str::to_ascii_lowercase`.
pub fn to_lowercase(s: &str) -> (r: String)
    ensures r@ == lower(s@),
{
    let v = chars_of(s);
    let mut out: Vec<char> = Vec::new();
    let mut i: usize = 0;
    while i < v.len()
        invariant
            i <= v.len(),
            v@ == s@,
            out@ == lower(v@.take(i as int)),
        decreases v.len() - i,
    {
        out.push(lower_char_exec(v[i]));
        assert(lower(v@.take(i + 1)) == lower(v@.take(i as int)).push(lower_char(v@[i as int])));
        i = i + 1;
    }
    assert(v@.take(v.len() as int) == v@);
    string_of(&out)
}

/// Equality of two character sequences.
pub fn same_chars(a: &Vec<char>, b: &Vec<char>) -> (r: bool)
    ensures r == (a@ == b@),
{
    if a.len() != b.len() {
        return false;
    }
    let mut i: usize = 0;
    while i < a.len()
        invariant
            i <= a.len(),
            a.len() == b.len(),
            forall|j: int| 0 <= j < i ==> a@[j] == b@[j],
        decreases a.len() - i,
    {
        if a[i] != b[i] {
            return false;
        }
        i = i + 1;
    }
    assert(a@ =~= b@);
    true
}

/// Equality of two strings.
pub fn same_text(a: &str, b: &str) -> (r: bool)
    ensures r == (a@ == b@),
{
    same_chars(&chars_of(a), &chars_of(b))
}

/// ASCII case-insensitive equality of two character sequences.
pub fn same_chars_ignore_case(a: &Vec<char>, b: &Vec<char>) -> (r: bool)
    ensures r == (lower(a@) == lower(b@)),
{
    if a.len() != b.len() {
        assert(lower(a@).len() != lower(b@).len());
        return false;
    }
    let mut i: usize = 0;
    while i < a.len()
        invariant
            i <= a.len(),
            a.len() == b.len(),
            forall|j: int| 0 <= j < i ==> lower_char(a@[j]) == lower_char(b@[j]),
        decreases a.len() - i,
    {
        if lower_char_exec(a[i]) != lower_char_exec(b[i]) {
            assert(lower(a@)[i as int] != lower(b@)[i as int]);
            return false;
        }
        i = i + 1;
    }
    assert(lower(a@) =~= lower(b@));
    true
}

/// `str::eq_ignore_ascii_case`.
pub fn eq_ignore_ascii_case(a: &str, b: &str) -> (r: bool)
    ensures r == (lower(a@) == lower(b@)),
{
    same_chars_ignore_case(&chars_of(a), &chars_of(b))
}


/// The character sequences held by a vector of character vectors.
pub open spec fn views(v: Seq<Vec<char>>) -> Seq<Seq<char>> {
    v.map_values(|p: Vec<char>| p@)
}

/// `str::split` by one separator character: the pieces between separators,
/// empty ones included; there is always one piece more than separators.
pub open spec fn split_on(s: Seq<char>, sep: char) -> Seq<Seq<char>>
    decreases s.len(),
{
    if s.len() == 0 {
        seq![Seq::<char>::empty()]
    } else {
        let init = split_on(s.drop_last(), sep);
        if s.last() == sep {
            init.push(Seq::<char>::empty())
        } else {
            init.update(init.len() - 1, init.last().push(s.last()))
        }
    }
}

pub proof fn lemma_split_on_nonempty(s: Seq<char>, sep: char)
    ensures
        split_on(s, sep).len() >= 1,
    decreases s.len(),
{
    if s.len() > 0 {
        lemma_split_on_nonempty(s.drop_last(), sep);
    }
}

/// The pieces of `s` between occurrences of `sep`.
pub fn split_chars(s: &Vec<char>, sep: char) -> (parts: Vec<Vec<char>>)
    ensures
        views(parts@) == split_on(s@, sep),
{
    let mut done: Vec<Vec<char>> = Vec::new();
    let mut cur: Vec<char> = Vec::new();
    let mut i: usize = 0;
    assert(s@.take(0) =~= Seq::<char>::empty());
    while i < s.len()
        invariant
            i <= s.len(),
            views(done@).push(cur@) == split_on(s@.take(i as int), sep),
        decreases s.len() - i,
    {
        let ghost before = split_on(s@.take(i as int), sep);
        assert(s@.take(i + 1).drop_last() == s@.take(i as int));
        assert(s@.take(i + 1).last() == s@[i as int]);
        if s[i] == sep {
            done.push(cur);
            cur = Vec::new();
            assert(views(done@).push(cur@) =~= before.push(Seq::<char>::empty()));
        } else {
            cur.push(s[i]);
            assert(views(done@).push(cur@) =~= before.update(before.len() - 1, before.last().push(s@[i as int])));
        }
        i = i + 1;
    }
    assert(s@.take(s.len() as int) == s@);
    done.push(cur);
    done
}

/// Drops one trailing carriage return.
pub open spec fn strip_cr(p: Seq<char>) -> Seq<char> {
    if p.len() > 0 && p.last() == '\r' { p.drop_last() } else { p }
}

/// `str::lines`: the text split at each `\n`, a `\r` right before a `\n` dropped,
/// and no empty line after a final `\n`.
pub open spec fn lines_of(t: Seq<char>) -> Seq<Seq<char>> {
    let pieces = split_on(t, '\n');
    let ended = pieces.take(pieces.len() - 1).map_values(|p: Seq<char>| strip_cr(p));
    if pieces.last().len() == 0 { ended } else { ended.push(pieces.last()) }
}

fn strip_cr_exec(p: Vec<char>) -> (r: Vec<char>)
    ensures r@ == strip_cr(p@),
{
    let mut p = p;
    if p.len() > 0 && p[p.len() - 1] == '\r' {
        p.pop();
    }
    p
}

/// The lines of `text`.
pub fn lines(text: &str) -> (ls: Vec<Vec<char>>)
    ensures
        views(ls@) == lines_of(text@),
{
    let chars = chars_of(text);
    let mut pieces = split_chars(&chars, '\n');
    proof { lemma_split_on_nonempty(text@, '\n'); }
    let ghost all = views(pieces@);
    let last = pieces.pop().unwrap();
    let mut ls: Vec<Vec<char>> = Vec::new();
    let n = pieces.len();
    let mut i: usize = 0;
    while i < n
        invariant
            n == pieces.len(),
            i <= n,
            all.len() == n + 1,
            forall|j: int| 0 <= j < n ==> #[trigger] pieces@[j]@ == all[j],
            views(ls@) == all.take(i as int).map_values(|p: Seq<char>| strip_cr(p)),
        decreases n - i,
    {
        let p = pieces[i].clone();
        assert(p@ =~= pieces@[i as int]@);
        let ghost old_ls = ls@;
        let q = strip_cr_exec(p);
        ls.push(q);
        assert(views(ls@) =~= views(old_ls).push(q@));
        assert(all.take(i + 1).map_values(|p: Seq<char>| strip_cr(p)) =~= all.take(i as int).map_values(|p: Seq<char>| strip_cr(p)).push(strip_cr(all[i as int])));
        i = i + 1;
    }
    assert(all.take(n as int) == all.take(all.len() - 1));
    if last.len() > 0 {
        ls.push(last);
    }
    ls
}

} // verus!
