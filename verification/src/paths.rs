//! File-system paths as text, with the Windows conventions rscapt targets:
//! both `/` and `\` separate components, and joining inserts `\`.
//!
//! These are the pieces of `std::path::Path` the program uses (`file_name`,
//! `file_stem`, `extension`, `parent`, `join`) for paths without a drive
//! prefix or `.` components.
use vstd::prelude::*;
use crate::text::{chars_of, push_char, push_str, string_from_chars};

verus! {

pub open spec fn is_sep(c: char) -> bool {
    c == '/' || c == '\\'
}

/// The path without its trailing separators.
pub open spec fn strip_trailing_seps(p: Seq<char>) -> Seq<char>
    decreases p.len(),
{
    if p.len() > 0 && is_sep(p.last()) {
        strip_trailing_seps(p.drop_last())
    } else {
        p
    }
}

/// Index just after the last separator (0 when there is none).
pub open spec fn name_start(q: Seq<char>) -> int
    decreases q.len(),
{
    if q.len() == 0 {
        0
    } else if is_sep(q.last()) {
        q.len() as int
    } else {
        name_start(q.drop_last())
    }
}

/// The last component of a path.
pub open spec fn last_component(p: Seq<char>) -> Seq<char> {
    let q = strip_trailing_seps(p);
    q.subrange(name_start(q), q.len() as int)
}

/// `Path::file_name`: the last component, unless it is empty or `..`.
pub open spec fn file_name(p: Seq<char>) -> Option<Seq<char>> {
    let c = last_component(p);
    if c.len() == 0 || c == seq!['.', '.'] {
        None
    } else {
        Some(c)
    }
}

/// `path.file_name().unwrap_or_default()`.
pub open spec fn file_name_or_empty(p: Seq<char>) -> Seq<char> {
    match file_name(p) {
        Some(n) => n,
        None => Seq::empty(),
    }
}

/// Index of the last `.` in a file name, or -1.
pub open spec fn last_dot(n: Seq<char>) -> int
    decreases n.len(),
{
    if n.len() == 0 {
        -1
    } else if n.last() == '.' {
        n.len() - 1
    } else {
        last_dot(n.drop_last())
    }
}

/// `Path::file_stem` of a path whose file name is `n`.
pub open spec fn stem_of_name(n: Seq<char>) -> Seq<char> {
    if last_dot(n) <= 0 {
        n
    } else {
        n.subrange(0, last_dot(n))
    }
}

/// `Path::extension` of a path whose file name is `n`.
pub open spec fn extension_of_name(n: Seq<char>) -> Option<Seq<char>> {
    if last_dot(n) <= 0 {
        None
    } else {
        Some(n.subrange(last_dot(n) + 1, n.len() as int))
    }
}

/// `path.file_stem().unwrap_or_default()`.
pub open spec fn stem_or_empty(p: Seq<char>) -> Seq<char> {
    match file_name(p) {
        Some(n) => stem_of_name(n),
        None => Seq::empty(),
    }
}

/// `path.extension().unwrap_or_default()`.
pub open spec fn extension_or_empty(p: Seq<char>) -> Seq<char> {
    match file_name(p) {
        Some(n) => match extension_of_name(n) {
            Some(e) => e,
            None => Seq::empty(),
        },
        None => Seq::empty(),
    }
}

/// `Path::parent`: the path before the last component, its trailing
/// separators removed (a lone root separator is kept).
pub open spec fn parent(p: Seq<char>) -> Option<Seq<char>> {
    let q = strip_trailing_seps(p);
    if q.len() == 0 {
        None
    } else {
        let dir = q.subrange(0, name_start(q));
        let d = strip_trailing_seps(dir);
        if d.len() == 0 && dir.len() > 0 {
            Some(dir.take(1))
        } else {
            Some(d)
        }
    }
}

/// `Path::join` for a relative `name`.
pub open spec fn join(dir: Seq<char>, name: Seq<char>) -> Seq<char> {
    if dir.len() == 0 {
        name
    } else if is_sep(dir.last()) {
        dir + name
    } else {
        dir + seq!['\\'] + name
    }
}

// ── Executable versions ──────────────────────────────────────────────────────

pub fn is_sep_char(c: char) -> (b: bool)
    ensures
        b == is_sep(c),
{
    c == '/' || c == '\\'
}

/// Length of the path without its trailing separators.
fn trailing_end(v: &Vec<char>) -> (e: usize)
    ensures
        e <= v.len(),
        strip_trailing_seps(v@) == v@.take(e as int),
{
    let mut j: usize = v.len();
    assert(v@.take(j as int) == v@);
    while j > 0 && is_sep_char(v[j - 1])
        invariant
            j <= v.len(),
            strip_trailing_seps(v@) == strip_trailing_seps(v@.take(j as int)),
        decreases j,
    {
        assert(v@.take(j as int).drop_last() == v@.take(j - 1));
        j -= 1;
    }
    j
}

/// Index just after the last separator among the first `e` characters.
fn component_start(v: &Vec<char>, e: usize) -> (k: usize)
    requires
        e <= v.len(),
    ensures
        k <= e,
        name_start(v@.take(e as int)) == k,
{
    let mut j: usize = e;
    while j > 0 && !is_sep_char(v[j - 1])
        invariant
            j <= e <= v.len(),
            name_start(v@.take(e as int)) == name_start(v@.take(j as int)),
        decreases j,
    {
        assert(v@.take(j as int).drop_last() == v@.take(j - 1));
        j -= 1;
    }
    j
}

fn subseq(v: &Vec<char>, from: usize, to: usize) -> (r: Vec<char>)
    requires
        from <= to <= v.len(),
    ensures
        r@ == v@.subrange(from as int, to as int),
{
    let mut r: Vec<char> = Vec::new();
    let mut k = from;
    while k < to
        invariant
            from <= k <= to <= v.len(),
            r@ == v@.subrange(from as int, k as int),
        decreases to - k,
    {
        r.push(v[k]);
        k += 1;
        assert(v@.subrange(from as int, k as int) == v@.subrange(from as int, (k - 1) as int).push(
            v@[k - 1],
        ));
    }
    r
}

/// `path.file_name()` of a path given as characters.
pub fn file_name_chars(v: &Vec<char>) -> (r: Option<Vec<char>>)
    ensures
        match r {
            Some(n) => file_name(v@) == Some(n@),
            None => file_name(v@) is None,
        },
{
    let e = trailing_end(v);
    let k = component_start(v, e);
    let ghost q = v@.take(e as int);
    assert(q.subrange(k as int, q.len() as int) == v@.subrange(k as int, e as int));
    let c = subseq(v, k, e);
    if c.len() == 0 || (c.len() == 2 && c[0] == '.' && c[1] == '.') {
        assert(c.len() == 2 ==> c@ =~= seq!['.', '.']);
        None
    } else {
        assert(c@ != seq!['.', '.']) by {
            if c@.len() == 2 {
                assert(!(c@[0] == '.' && c@[1] == '.'));
            }
        }
        Some(c)
    }
}

/// `path.file_name().unwrap_or_default()` as a `String`.
pub fn file_name_string(p: &str) -> (r: String)
    ensures
        r@ == file_name_or_empty(p@),
{
    let v = chars_of(p);
    match file_name_chars(&v) {
        Some(n) => string_from_chars(&n),
        None => String::new(),
    }
}

fn last_dot_index(n: &Vec<char>) -> (d: Option<usize>)
    ensures
        match d {
            Some(i) => last_dot(n@) == i as int && i < n.len(),
            None => last_dot(n@) == -1,
        },
{
    let mut j: usize = n.len();
    assert(n@.take(j as int) == n@);
    while j > 0 && n[j - 1] != '.'
        invariant
            j <= n.len(),
            last_dot(n@) == last_dot(n@.take(j as int)),
        decreases j,
    {
        assert(n@.take(j as int).drop_last() == n@.take(j - 1));
        j -= 1;
    }
    if j == 0 {
        None
    } else {
        Some(j - 1)
    }
}

/// `(file_stem, extension)` of a path, each `unwrap_or_default`.
pub fn stem_and_extension(p: &str) -> (r: (String, String))
    ensures
        r.0@ == stem_or_empty(p@),
        r.1@ == extension_or_empty(p@),
{
    let v = chars_of(p);
    match file_name_chars(&v) {
        None => (String::new(), String::new()),
        Some(n) => {
            match last_dot_index(&n) {
                Some(i) => {
                    if i == 0 {
                        (string_from_chars(&n), String::new())
                    } else {
                        let s = subseq(&n, 0, i);
                        let e = subseq(&n, i + 1, n.len());
                        (string_from_chars(&s), string_from_chars(&e))
                    }
                },
                None => (string_from_chars(&n), String::new()),
            }
        },
    }
}

/// `path.parent()` as text.
pub fn parent_chars(v: &Vec<char>) -> (r: Option<Vec<char>>)
    ensures
        match r {
            Some(d) => parent(v@) == Some(d@),
            None => parent(v@) is None,
        },
{
    let e = trailing_end(v);
    if e == 0 {
        return None;
    }
    let k = component_start(v, e);
    let ghost q = v@.take(e as int);
    let dir = subseq(v, 0, k);
    assert(dir@ == q.subrange(0, k as int));
    let de = trailing_end(&dir);
    if de == 0 && k > 0 {
        let first = subseq(&dir, 0, 1);
        Some(first)
    } else {
        let d = subseq(&dir, 0, de);
        Some(d)
    }
}

/// `Path::new(dir).join(name)` as text.
pub fn join_str(dir: &str, name: &str) -> (r: String)
    ensures
        r@ == join(dir@, name@),
{
    let d = chars_of(dir);
    let mut r = string_from_chars(&d);
    if d.len() > 0 && !is_sep_char(d[d.len() - 1]) {
        push_char(&mut r, '\\');
    }
    push_str(&mut r, name);
    r
}

// ── Facts about names ────────────────────────────────────────────────────────

pub open spec fn no_sep(n: Seq<char>) -> bool {
    forall|k: int| 0 <= k < n.len() ==> !is_sep(#[trigger] n[k])
}

proof fn lemma_name_start_bounds(q: Seq<char>)
    ensures
        0 <= name_start(q) <= q.len(),
        no_sep(q.subrange(name_start(q), q.len() as int)),
    decreases q.len(),
{
    if q.len() > 0 && !is_sep(q.last()) {
        let d = q.drop_last();
        lemma_name_start_bounds(d);
        let a = q.subrange(name_start(q), q.len() as int);
        let b = d.subrange(name_start(d), d.len() as int);
        assert forall|k: int| 0 <= k < a.len() implies !is_sep(#[trigger] a[k]) by {
            if k < b.len() {
                assert(a[k] == b[k]);
            } else {
                assert(a[k] == q.last());
            }
        }
    }
}

/// A path's last component holds no separator.
pub proof fn lemma_last_component_no_sep(p: Seq<char>)
    ensures
        no_sep(last_component(p)),
{
    lemma_name_start_bounds(strip_trailing_seps(p));
}

proof fn lemma_name_start_append(x: Seq<char>, n: Seq<char>)
    requires
        no_sep(n),
    ensures
        name_start(x + n) == name_start(x),
    decreases n.len(),
{
    if n.len() > 0 {
        assert((x + n).drop_last() == x + n.drop_last());
        assert((x + n).last() == n.last());
        lemma_name_start_append(x, n.drop_last());
    } else {
        assert(x + n == x);
    }
}

/// Joining a plain name (no separator, not empty, not `..`) to a directory
/// gives a path whose file name is that name.
pub proof fn lemma_join_file_name(d: Seq<char>, n: Seq<char>)
    requires
        n.len() > 0,
        no_sep(n),
        n != seq!['.', '.'],
    ensures
        file_name(join(d, n)) == Some(n),
{
    let x = if d.len() == 0 {
        Seq::<char>::empty()
    } else if is_sep(d.last()) {
        d
    } else {
        d + seq!['\\']
    };
    assert(join(d, n) == x + n);
    let j = x + n;
    assert(j.last() == n.last());
    assert(strip_trailing_seps(j) == j);
    lemma_name_start_append(x, n);
    if x.len() > 0 {
        assert(x.last() == x[x.len() - 1]);
        assert(is_sep(x.last()));
        assert(name_start(x) == x.len());
    }
    assert(j.subrange(x.len() as int, j.len() as int) == n);
}

proof fn lemma_last_dot(n: Seq<char>)
    ensures
        -1 <= last_dot(n) < n.len(),
    decreases n.len(),
{
    if n.len() > 0 && n.last() != '.' {
        lemma_last_dot(n.drop_last());
    }
}

/// The stem and the extension of a path together are at most one character
/// (the dot) shorter than its file name, and neither holds a separator.
pub proof fn lemma_stem_extension_cover_name(p: Seq<char>)
    ensures
        stem_or_empty(p).len() + extension_or_empty(p).len() + 1 >= file_name_or_empty(p).len(),
        no_sep(stem_or_empty(p)),
        no_sep(extension_or_empty(p)),
{
    lemma_last_component_no_sep(p);
    match file_name(p) {
        Some(n) => {
            lemma_last_dot(n);
            let st = stem_or_empty(p);
            let ex = extension_or_empty(p);
            assert forall|k: int| 0 <= k < st.len() implies !is_sep(#[trigger] st[k]) by {
                assert(st[k] == n[k]);
            }
            if last_dot(n) > 0 {
                assert forall|k: int| 0 <= k < ex.len() implies !is_sep(#[trigger] ex[k]) by {
                    assert(ex[k] == n[last_dot(n) + 1 + k]);
                }
            }
        },
        None => {},
    }
}

} // verus!
