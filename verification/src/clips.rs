//! The clip library: finished clips on disk, and the record of shared ones.
use vstd::prelude::*;
use crate::text::{
    decimal, lex_lt, lowercase, round_half_even, chars_of, chars_lex_lt, lower_char, push_char,
    push_decimal, push_str, round_half_even_u128, str_eq, lemma_lex_irreflexive,
    lemma_lex_transitive, lemma_lex_total, lemma_lex_asymmetric,
};
use crate::paths::{extension_or_empty, file_name_or_empty, file_name_string, join, join_str, stem_and_extension};
use crate::job::copy_opt_string;

verus! {

/// A finished clip on disk.
#[derive(Debug, Clone)]
pub struct Clip {
    pub path: String,
    /// Just the filename for display.
    pub filename: String,
    pub size_bytes: u64,
    /// Share URL, if uploaded.
    pub share_url: Option<String>,
    /// Deletion token (unused with litterbox, kept for forward compat).
    pub share_delete_token: Option<String>,
}

/// What a clip holds, as plain values.
pub struct ClipView {
    pub path: Seq<char>,
    pub filename: Seq<char>,
    pub size_bytes: u64,
    pub share_url: Option<Seq<char>>,
    pub share_delete_token: Option<Seq<char>>,
}

pub open spec fn opt_view(o: Option<String>) -> Option<Seq<char>> {
    match o {
        Some(s) => Some(s@),
        None => None,
    }
}

impl View for Clip {
    type V = ClipView;

    open spec fn view(&self) -> ClipView {
        ClipView {
            path: self.path@,
            filename: self.filename@,
            size_bytes: self.size_bytes,
            share_url: opt_view(self.share_url),
            share_delete_token: opt_view(self.share_delete_token),
        }
    }
}

/// `"234 MB"`, or `"1.5 GB"` from 1024 MB up: the size in binary megabytes
/// (or gigabytes to one decimal), rounded to nearest with ties to even.
pub open spec fn size_label_text(b: nat) -> Seq<char> {
    if b >= 1073741824 {
        let t = round_half_even(b * 10, 1073741824);
        decimal(t / 10) + seq!['.'] + decimal(t % 10) + " GB"@
    } else {
        decimal(round_half_even(b, 1048576)) + " MB"@
    }
}

/// A clip as read from disk: its name, its size, nothing shared yet.
pub open spec fn fresh_clip(c: Clip, path: Seq<char>, size: u64) -> bool {
    &&& c.path@ == path
    &&& c.filename@ == file_name_or_empty(path)
    &&& c.size_bytes == size
    &&& c.share_url is None
    &&& c.share_delete_token is None
}

impl Clip {
    /// The clip at `path`, whose file is `size_bytes` long (the caller reads
    /// the file's metadata).
    pub fn from_path(path: String, size_bytes: u64) -> (c: Self)
        ensures
            fresh_clip(c, path@, size_bytes),
    {
        let filename = file_name_string(path.as_str());
        Clip { path, filename, size_bytes, share_url: None, share_delete_token: None }
    }

    /// Human-readable file size (e.g. "234 MB").
    pub fn size_label(&self) -> (s: String)
        ensures
            s@ == size_label_text(self.size_bytes as nat),
    {
        let b = self.size_bytes;
        let mut s = String::new();
        if b >= 1073741824 {
            let t = round_half_even_u128((b as u128) * 10, 1073741824);
            assert(t <= u64::MAX);
            push_decimal(&mut s, (t / 10) as u64);
            push_char(&mut s, '.');
            push_decimal(&mut s, (t % 10) as u64);
            push_str(&mut s, " GB");
        } else {
            let m = round_half_even_u128(b as u128, 1048576);
            push_decimal(&mut s, m as u64);
            push_str(&mut s, " MB");
        }
        s
    }

    pub fn duplicate(&self) -> (r: Self)
        ensures
            r == *self,
    {
        Clip {
            path: self.path.clone(),
            filename: self.filename.clone(),
            size_bytes: self.size_bytes,
            share_url: copy_opt_string(&self.share_url),
            share_delete_token: copy_opt_string(&self.share_delete_token),
        }
    }
}

// ── ShareStore ─────────────────────────────────────────────────────────────────

#[derive(Debug, Clone)]
pub struct ShareEntry {
    pub url: String,
    pub token: String,
}

/// The map a list of (path, entry) pairs describes; a later pair for the same
/// path wins.
pub open spec fn entries_map(s: Seq<(String, ShareEntry)>) -> Map<Seq<char>, (Seq<char>, Seq<char>)>
    decreases s.len(),
{
    if s.len() == 0 {
        Map::empty()
    } else {
        entries_map(s.drop_last()).insert(s.last().0@, (s.last().1.url@, s.last().1.token@))
    }
}

pub open spec fn keys_unique(s: Seq<(String, ShareEntry)>) -> bool {
    forall|i: int, j: int| 0 <= i < s.len() && 0 <= j < s.len() && i != j ==> (#[trigger] s[i]).0@ != (#[trigger] s[j]).0@
}

proof fn lemma_entries_map(s: Seq<(String, ShareEntry)>, k: Seq<char>)
    requires
        keys_unique(s),
    ensures
        entries_map(s).dom().contains(k) <==> exists|i: int| 0 <= i < s.len() && (#[trigger] s[i]).0@ == k,
        forall|i: int| 0 <= i < s.len() && (#[trigger] s[i]).0@ == k ==> entries_map(s)[k] == (s[i].1.url@, s[i].1.token@),
    decreases s.len(),
{
    if s.len() > 0 {
        let d = s.drop_last();
        assert(keys_unique(d)) by {
            assert forall|i: int, j: int| 0 <= i < d.len() && 0 <= j < d.len() && i != j implies (#[trigger] d[i]).0@ != (#[trigger] d[j]).0@ by {
                assert(d[i] == s[i] && d[j] == s[j]);
            }
        }
        lemma_entries_map(d, k);
        if entries_map(s).dom().contains(k) && k != s.last().0@ {
            let i = choose|i: int| 0 <= i < d.len() && (#[trigger] d[i]).0@ == k;
            assert(s[i] == d[i]);
        }
        assert forall|i: int| 0 <= i < s.len() && (#[trigger] s[i]).0@ == k implies entries_map(s)[k] == (s[i].1.url@, s[i].1.token@) by {
            if i < s.len() - 1 {
                assert(s[i] == d[i]);
                assert(s[i].0@ != s[s.len() - 1].0@);
            }
        }
        if exists|i: int| 0 <= i < s.len() && (#[trigger] s[i]).0@ == k {
            let i = choose|i: int| 0 <= i < s.len() && (#[trigger] s[i]).0@ == k;
            if i < s.len() - 1 {
                assert(s[i] == d[i]);
            }
        }
    }
}

/// Persisted share store: maps absolute path string → (url, token).
pub struct ShareStore {
    entries: Vec<(String, ShareEntry)>,
}

impl View for ShareStore {
    type V = Map<Seq<char>, (Seq<char>, Seq<char>)>;

    closed spec fn view(&self) -> Map<Seq<char>, (Seq<char>, Seq<char>)> {
        entries_map(self.entries@)
    }
}

impl ShareStore {
    #[verifier::type_invariant]
    spec fn inv(&self) -> bool {
        keys_unique(self.entries@)
    }

    pub fn new() -> (s: Self)
        ensures
            s@ == Map::<Seq<char>, (Seq<char>, Seq<char>)>::empty(),
    {
        ShareStore { entries: Vec::new() }
    }

    /// Where the store is kept inside the data directory.
    pub fn path(data_dir: &str) -> (p: String)
        ensures
            p@ == join(data_dir@, "shares.json"@),
    {
        join_str(data_dir, "shares.json")
    }

    fn find(&self, path: &str) -> (r: Option<usize>)
        ensures
            match r {
                Some(i) => i < self.entries@.len() && self.entries@[i as int].0@ == path@,
                None => forall|i: int| 0 <= i < self.entries@.len() ==> (#[trigger] self.entries@[i]).0@ != path@,
            },
    {
        let mut i: usize = 0;
        while i < self.entries.len()
            invariant
                i <= self.entries.len(),
                forall|k: int| 0 <= k < i ==> (#[trigger] self.entries@[k]).0@ != path@,
            decreases self.entries.len() - i,
        {
            if str_eq(self.entries[i].0.as_str(), path) {
                return Some(i);
            }
            i += 1;
        }
        None
    }

    pub fn set(&mut self, path: &str, url: String, token: String)
        ensures
            final(self)@ == old(self)@.insert(path@, (url@, token@)),
            final(self)@.dom().finite(),
    {
        proof {
            use_type_invariant(&*self);
            lemma_entries_dom_len(self.entries@);
        }
        let ghost old_entries = self.entries@;
        let key = String::from_str(path);
        match self.find(path) {
            Some(i) => {
                let mut entries = Vec::new();
                std::mem::swap(&mut entries, &mut self.entries);
                entries.set(i, (key, ShareEntry { url, token }));
                let ghost ne = entries@;
                proof {
                    assert(keys_unique(ne)) by {
                        assert forall|a: int, b: int| 0 <= a < ne.len() && 0 <= b < ne.len() && a != b implies (#[trigger] ne[a]).0@ != (#[trigger] ne[b]).0@ by {
                            if a != i && b != i {
                                assert(ne[a] == old_entries[a] && ne[b] == old_entries[b]);
                            } else if a == i {
                                assert(ne[b] == old_entries[b]);
                                assert(old_entries[i as int].0@ == path@);
                            } else {
                                assert(ne[a] == old_entries[a]);
                            }
                        }
                    }
                    assert(entries_map(ne) =~= entries_map(old_entries).insert(path@, (url@, token@))) by {
                        assert forall|k: Seq<char>| #![auto] entries_map(ne).dom().contains(k) <==> entries_map(old_entries).insert(path@, (url@, token@)).dom().contains(k) by {
                            lemma_entries_map(ne, k);
                            lemma_entries_map(old_entries, k);
                            if k != path@ && entries_map(old_entries).dom().contains(k) {
                                let j = choose|j: int| 0 <= j < old_entries.len() && (#[trigger] old_entries[j]).0@ == k;
                                assert(ne[j] == old_entries[j]);
                            }
                            if entries_map(ne).dom().contains(k) && k != path@ {
                                let j = choose|j: int| 0 <= j < ne.len() && (#[trigger] ne[j]).0@ == k;
                                assert(ne[j] == old_entries[j]);
                            }
                            assert(ne[i as int].0@ == path@);
                        }
                        assert forall|k: Seq<char>| #![auto] entries_map(ne).dom().contains(k) implies entries_map(ne)[k] == entries_map(old_entries).insert(path@, (url@, token@))[k] by {
                            lemma_entries_map(ne, k);
                            lemma_entries_map(old_entries, k);
                            let j = choose|j: int| 0 <= j < ne.len() && (#[trigger] ne[j]).0@ == k;
                            if j != i {
                                assert(ne[j] == old_entries[j]);
                            }
                        }
                    }
                }
                self.entries = entries;
            },
            None => {
                let mut entries = Vec::new();
                std::mem::swap(&mut entries, &mut self.entries);
                entries.push((key, ShareEntry { url, token }));
                proof {
                    let ne = entries@;
                    assert(ne.drop_last() == old_entries);
                    assert(keys_unique(ne)) by {
                        assert forall|a: int, b: int| 0 <= a < ne.len() && 0 <= b < ne.len() && a != b implies (#[trigger] ne[a]).0@ != (#[trigger] ne[b]).0@ by {
                            if a < old_entries.len() && b < old_entries.len() {
                                assert(ne[a] == old_entries[a] && ne[b] == old_entries[b]);
                            } else if a < old_entries.len() {
                                assert(ne[a] == old_entries[a]);
                            } else {
                                assert(ne[b] == old_entries[b]);
                            }
                        }
                    }
                }
                self.entries = entries;
            },
        }
    }

    pub fn remove(&mut self, path: &str)
        ensures
            final(self)@ == old(self)@.remove(path@),
            final(self)@.dom().finite(),
    {
        proof {
            use_type_invariant(&*self);
            lemma_entries_dom_len(self.entries@);
        }
        let ghost old_entries = self.entries@;
        match self.find(path) {
            Some(i) => {
                let mut entries = Vec::new();
                std::mem::swap(&mut entries, &mut self.entries);
                let _gone = entries.remove(i);
                let ghost ne = entries@;
                proof {
                    assert forall|a: int| 0 <= a < ne.len() implies #[trigger] ne[a] == old_entries[if a < i { a } else { a + 1 }] by {}
                    assert(keys_unique(ne)) by {
                        assert forall|a: int, b: int| 0 <= a < ne.len() && 0 <= b < ne.len() && a != b implies (#[trigger] ne[a]).0@ != (#[trigger] ne[b]).0@ by {
                            let oa = if a < i { a } else { a + 1 };
                            let ob = if b < i { b } else { b + 1 };
                            assert(ne[a] == old_entries[oa] && ne[b] == old_entries[ob]);
                        }
                    }
                    assert(entries_map(ne) =~= entries_map(old_entries).remove(path@)) by {
                        assert forall|k: Seq<char>| #![auto] entries_map(ne).dom().contains(k) <==> entries_map(old_entries).remove(path@).dom().contains(k) by {
                            lemma_entries_map(ne, k);
                            lemma_entries_map(old_entries, k);
                            if k != path@ && entries_map(old_entries).dom().contains(k) {
                                let j = choose|j: int| 0 <= j < old_entries.len() && (#[trigger] old_entries[j]).0@ == k;
                                assert(j != i);
                                let nj = if j < i { j } else { j - 1 };
                                assert(ne[nj] == old_entries[j]);
                            }
                            if entries_map(ne).dom().contains(k) {
                                let j = choose|j: int| 0 <= j < ne.len() && (#[trigger] ne[j]).0@ == k;
                                let oj = if j < i { j } else { j + 1 };
                                assert(ne[j] == old_entries[oj]);
                                assert(oj != i);
                            }
                        }
                        assert forall|k: Seq<char>| #![auto] entries_map(ne).dom().contains(k) implies entries_map(ne)[k] == entries_map(old_entries).remove(path@)[k] by {
                            lemma_entries_map(ne, k);
                            lemma_entries_map(old_entries, k);
                            let j = choose|j: int| 0 <= j < ne.len() && (#[trigger] ne[j]).0@ == k;
                            let oj = if j < i { j } else { j + 1 };
                            assert(ne[j] == old_entries[oj]);
                        }
                    }
                }
                self.entries = entries;
            },
            None => {
                proof {
                    lemma_entries_map(old_entries, path@);
                    assert(entries_map(old_entries).remove(path@) =~= entries_map(old_entries));
                }
            },
        }
    }

    pub fn get(&self, path: &str) -> (r: Option<ShareEntry>)
        ensures
            r is Some <==> self@.dom().contains(path@),
            r matches Some(e) ==> self@[path@] == (e.url@, e.token@),
    {
        proof {
            use_type_invariant(self);
            lemma_entries_map(self.entries@, path@);
        }
        match self.find(path) {
            Some(i) => {
                let e = &self.entries[i].1;
                Some(ShareEntry { url: e.url.clone(), token: e.token.clone() })
            },
            None => None,
        }
    }

    /// The stored (path, url, token) triples, for persisting the store.
    pub fn entries(&self) -> (v: Vec<(String, String, String)>)
        ensures
            v@.len() == self@.dom().len(),
            forall|i: int| 0 <= i < v@.len() ==> self@.dom().contains((#[trigger] v@[i]).0@) && self@[v@[i].0@] == (v@[i].1@, v@[i].2@),
    {
        proof {
            use_type_invariant(self);
        }
        let mut v: Vec<(String, String, String)> = Vec::new();
        let mut i: usize = 0;
        while i < self.entries.len()
            invariant
                i <= self.entries.len(),
                keys_unique(self.entries@),
                v@.len() == i,
                forall|k: int| 0 <= k < i ==> (#[trigger] v@[k]).0@ == self.entries@[k].0@ && v@[k].1@ == self.entries@[k].1.url@ && v@[k].2@ == self.entries@[k].1.token@,
            decreases self.entries.len() - i,
        {
            let e = &self.entries[i];
            v.push((e.0.clone(), e.1.url.clone(), e.1.token.clone()));
            i += 1;
        }
        proof {
            lemma_entries_dom_len(self.entries@);
            assert forall|k: int| 0 <= k < v@.len() implies self@.dom().contains((#[trigger] v@[k]).0@) && self@[v@[k].0@] == (v@[k].1@, v@[k].2@) by {
                lemma_entries_map(self.entries@, v@[k].0@);
            }
        }
        v
    }
}

proof fn lemma_entries_dom_len(s: Seq<(String, ShareEntry)>)
    requires
        keys_unique(s),
    ensures
        entries_map(s).dom().finite(),
        entries_map(s).dom().len() == s.len(),
    decreases s.len(),
{
    if s.len() > 0 {
        let d = s.drop_last();
        assert(keys_unique(d)) by {
            assert forall|i: int, j: int| 0 <= i < d.len() && 0 <= j < d.len() && i != j implies (#[trigger] d[i]).0@ != (#[trigger] d[j]).0@ by {
                assert(d[i] == s[i] && d[j] == s[j]);
            }
        }
        lemma_entries_dom_len(d);
        lemma_entries_map(d, s.last().0@);
        if entries_map(d).dom().contains(s.last().0@) {
            let j = choose|j: int| 0 <= j < d.len() && (#[trigger] d[j]).0@ == s.last().0@;
            assert(d[j] == s[j]);
        }
    }
}


// ── Ordering the library ─────────────────────────────────────────────────────

pub open spec fn clip_views(s: Seq<Clip>) -> Seq<ClipView> {
    s.map_values(|c: Clip| c@)
}

/// Where a clip goes in a list ordered by file name, newest name first: before
/// the first clip whose name sorts below its own, after all others.
pub open spec fn insert_pos(s: Seq<ClipView>, c: ClipView) -> int
    decreases s.len(),
{
    if s.len() == 0 {
        0
    } else if lex_lt(s[0].filename, c.filename) {
        0
    } else {
        1 + insert_pos(s.drop_first(), c)
    }
}

pub open spec fn insert_by_name(s: Seq<ClipView>, c: ClipView) -> Seq<ClipView> {
    s.insert(insert_pos(s, c), c)
}

/// The clips in descending order of file name, clips with equal names in
/// their original order (`sort_by(|a, b| b.filename.cmp(&a.filename))`).
pub open spec fn sort_by_name(s: Seq<ClipView>) -> Seq<ClipView>
    decreases s.len(),
{
    if s.len() == 0 {
        s
    } else {
        insert_by_name(sort_by_name(s.drop_last()), s.last())
    }
}

pub open spec fn sorted_by_name(s: Seq<ClipView>) -> bool {
    forall|i: int, j: int| 0 <= i < j < s.len() ==> !lex_lt((#[trigger] s[i]).filename, (#[trigger] s[j]).filename)
}

proof fn lemma_insert_pos(s: Seq<ClipView>, c: ClipView)
    ensures
        0 <= insert_pos(s, c) <= s.len(),
        forall|k: int| 0 <= k < insert_pos(s, c) ==> !lex_lt((#[trigger] s[k]).filename, c.filename),
        insert_pos(s, c) < s.len() ==> lex_lt(s[insert_pos(s, c)].filename, c.filename),
    decreases s.len(),
{
    if s.len() > 0 && !lex_lt(s[0].filename, c.filename) {
        let d = s.drop_first();
        lemma_insert_pos(d, c);
        assert forall|k: int| 0 <= k < insert_pos(s, c) implies !lex_lt((#[trigger] s[k]).filename, c.filename) by {
            if k > 0 {
                assert(s[k] == d[k - 1]);
            }
        }
    }
}

proof fn lemma_insert_pos_is(s: Seq<ClipView>, c: ClipView, p: int)
    requires
        0 <= p <= s.len(),
        forall|k: int| 0 <= k < p ==> !lex_lt((#[trigger] s[k]).filename, c.filename),
        p < s.len() ==> lex_lt(s[p].filename, c.filename),
    ensures
        insert_pos(s, c) == p,
    decreases p,
{
    if p > 0 {
        let d = s.drop_first();
        assert forall|k: int| 0 <= k < p - 1 implies !lex_lt((#[trigger] d[k]).filename, c.filename) by {
            assert(d[k] == s[k + 1]);
        }
        if p - 1 < d.len() {
            assert(d[p - 1] == s[p]);
        }
        lemma_insert_pos_is(d, c, p - 1);
    }
}

/// Inserting into a list ordered by name keeps it ordered.
pub proof fn lemma_insert_keeps_order(s: Seq<ClipView>, c: ClipView)
    requires
        sorted_by_name(s),
    ensures
        sorted_by_name(insert_by_name(s, c)),
{
    lemma_insert_pos(s, c);
    let p = insert_pos(s, c);
    let r = insert_by_name(s, c);
    assert forall|i: int, j: int| 0 <= i < j < r.len() implies !lex_lt((#[trigger] r[i]).filename, (#[trigger] r[j]).filename) by {
        if j < p {
            assert(r[i] == s[i] && r[j] == s[j]);
        } else if j == p {
            assert(r[i] == s[i]);
        } else if i < p {
            assert(r[i] == s[i] && r[j] == s[j - 1]);
        } else if i == p {
            assert(r[j] == s[j - 1]);
            assert(lex_lt(s[p].filename, c.filename));
            if p < j - 1 {
                lemma_lex_total(s[p].filename, s[j - 1].filename);
                if lex_lt(s[j - 1].filename, s[p].filename) {
                    lemma_lex_transitive(s[j - 1].filename, s[p].filename, c.filename);
                }
            }
            lemma_lex_asymmetric(s[j - 1].filename, c.filename);
        } else {
            assert(r[i] == s[i - 1] && r[j] == s[j - 1]);
        }
    }
}

/// The library order: sorted by name, and a rearrangement of its input.
pub proof fn law_sort_orders_and_keeps_clips(s: Seq<ClipView>)
    ensures
        sorted_by_name(sort_by_name(s)),
        sort_by_name(s).to_multiset() == s.to_multiset(),
        sort_by_name(s).len() == s.len(),
    decreases s.len(),
{
    broadcast use vstd::seq_lib::group_to_multiset_ensures;

    if s.len() > 0 {
        law_sort_orders_and_keeps_clips(s.drop_last());
        lemma_insert_keeps_order(sort_by_name(s.drop_last()), s.last());
        lemma_insert_pos(sort_by_name(s.drop_last()), s.last());
        assert(s.drop_last().push(s.last()) == s);
    }
}

/// Sorting a list that is already in order leaves it unchanged.
pub proof fn law_sort_of_sorted_is_identity(s: Seq<ClipView>)
    requires
        sorted_by_name(s),
    ensures
        sort_by_name(s) == s,
    decreases s.len(),
{
    if s.len() > 0 {
        let d = s.drop_last();
        assert(sorted_by_name(d)) by {
            assert forall|i: int, j: int| 0 <= i < j < d.len() implies !lex_lt((#[trigger] d[i]).filename, (#[trigger] d[j]).filename) by {
                assert(d[i] == s[i] && d[j] == s[j]);
            }
        }
        law_sort_of_sorted_is_identity(d);
        assert forall|k: int| 0 <= k < d.len() implies !lex_lt((#[trigger] d[k]).filename, s.last().filename) by {
            assert(d[k] == s[k]);
        }
        lemma_insert_pos_is(d, s.last(), d.len() as int);
        assert(d.insert(d.len() as int, s.last()) =~= s);
    }
}

fn name_lt(a: &Clip, b: &Clip) -> (r: bool)
    ensures
        r == lex_lt(a@.filename, b@.filename),
{
    chars_lex_lt(&chars_of(a.filename.as_str()), &chars_of(b.filename.as_str()))
}

/// Inserts a clip at its place in a list ordered by name.
fn insert_clip(v: &mut Vec<Clip>, c: Clip)
    ensures
        clip_views(final(v)@) == insert_by_name(clip_views(old(v)@), c@),
{
    let ghost s = clip_views(v@);
    let mut i: usize = 0;
    while i < v.len() && !name_lt(&v[i], &c)
        invariant
            i <= v.len(),
            s == clip_views(v@),
            v@ == old(v)@,
            forall|k: int| 0 <= k < i ==> !lex_lt((#[trigger] s[k]).filename, c@.filename),
        decreases v.len() - i,
    {
        i += 1;
    }
    proof {
        lemma_insert_pos_is(s, c@, i as int);
    }
    v.insert(i, c);
    assert(clip_views(v@) =~= s.insert(i as int, c@));
}

/// Sorts clips by descending file name, keeping equal names in order.
pub fn sort_clips(v: Vec<Clip>) -> (r: Vec<Clip>)
    ensures
        clip_views(r@) == sort_by_name(clip_views(v@)),
{
    let mut r: Vec<Clip> = Vec::new();
    let mut rest = v;
    let ghost all = clip_views(rest@);
    let mut i: usize = 0;
    assert(all.take(0) =~= Seq::<ClipView>::empty());
    while i < rest.len()
        invariant
            i <= rest.len(),
            all == clip_views(rest@),
            clip_views(r@) == sort_by_name(all.take(i as int)),
        decreases rest.len() - i,
    {
        let c = rest[i].duplicate();
        insert_clip(&mut r, c);
        assert(all.take((i + 1) as int).drop_last() == all.take(i as int));
        i += 1;
    }
    assert(all.take(rest.len() as int) == all);
    r
}

// ── Scanning the output directory ────────────────────────────────────────────

/// One entry of the output directory as the caller found it: its path,
/// whether it is a regular file, and its size when its metadata could be read.
#[derive(Debug, Clone)]
pub struct DirEntry {
    pub path: String,
    pub is_file: bool,
    pub size_bytes: Option<u64>,
}

pub open spec fn is_video_extension(ext: Seq<char>) -> bool {
    ext == "mp4"@ || ext == "mkv"@ || ext == "mov"@ || ext == "avi"@ || ext == "webm"@
}

/// A directory entry that becomes a clip: a readable file with a video extension
/// (compared without regard to ASCII case).
pub open spec fn is_clip_entry(e: DirEntry) -> bool {
    e.is_file && e.size_bytes is Some && is_video_extension(lowercase(extension_or_empty(e.path@)))
}

/// The clip for a directory entry, with its share data when the store has it.
pub open spec fn entry_clip(e: DirEntry, shares: Map<Seq<char>, (Seq<char>, Seq<char>)>) -> ClipView {
    ClipView {
        path: e.path@,
        filename: file_name_or_empty(e.path@),
        size_bytes: e.size_bytes->0,
        share_url: if shares.dom().contains(e.path@) { Some(shares[e.path@].0) } else { None },
        share_delete_token: if shares.dom().contains(e.path@) { Some(shares[e.path@].1) } else { None },
    }
}

/// The clips of a listing, in listing order.
pub open spec fn listed_clips(es: Seq<DirEntry>, shares: Map<Seq<char>, (Seq<char>, Seq<char>)>) -> Seq<ClipView>
    decreases es.len(),
{
    if es.len() == 0 {
        Seq::empty()
    } else {
        let rest = listed_clips(es.drop_last(), shares);
        if is_clip_entry(es.last()) {
            rest.push(entry_clip(es.last(), shares))
        } else {
            rest
        }
    }
}

fn lowercase_string(s: &str) -> (r: Vec<char>)
    ensures
        r@ == lowercase(s@),
{
    let v = chars_of(s);
    let mut r: Vec<char> = Vec::new();
    let mut i: usize = 0;
    while i < v.len()
        invariant
            i <= v.len(),
            v@ == s@,
            r@ == lowercase(v@.take(i as int)),
        decreases v.len() - i,
    {
        r.push(lower_char(v[i]));
        i += 1;
        assert(lowercase(v@.take(i as int)) =~= lowercase(v@.take((i - 1) as int)).push(lower_char_spec(v@[i - 1])));
    }
    assert(v@.take(v.len() as int) == v@);
    r
}

spec fn lower_char_spec(c: char) -> char {
    crate::text::ascii_lower(c)
}

fn is_video_ext(ext: &Vec<char>) -> (b: bool)
    ensures
        b == is_video_extension(ext@),
{
    let s = crate::text::string_from_chars(ext);
    let t = s.as_str();
    str_eq(t, "mp4") || str_eq(t, "mkv") || str_eq(t, "mov") || str_eq(t, "avi") || str_eq(t, "webm")
}

fn clip_for_entry(e: &DirEntry, shares: &ShareStore) -> (c: Clip)
    requires
        e.size_bytes is Some,
    ensures
        c@ == entry_clip(*e, shares@),
{
    let mut c = Clip::from_path(e.path.clone(), e.size_bytes.unwrap());
    match shares.get(e.path.as_str()) {
        Some(entry) => {
            c.share_url = Some(entry.url);
            c.share_delete_token = Some(entry.token);
        },
        None => {},
    }
    c
}

/// The clip library of an output directory listing: every readable video
/// file, with the share data the store holds for it, ordered by name.
pub fn scan_dir(entries: &Vec<DirEntry>, shares: &ShareStore) -> (clips: Vec<Clip>)
    ensures
        clip_views(clips@) == sort_by_name(listed_clips(entries@, shares@)),
{
    let mut clips: Vec<Clip> = Vec::new();
    let mut i: usize = 0;
    while i < entries.len()
        invariant
            i <= entries.len(),
            clip_views(clips@) == listed_clips(entries@.take(i as int), shares@),
        decreases entries.len() - i,
    {
        let e = &entries[i];
        assert(entries@.take((i + 1) as int).drop_last() == entries@.take(i as int));
        let (_stem, ext) = stem_and_extension(e.path.as_str());
        let lower = lowercase_string(ext.as_str());
        if e.is_file && e.size_bytes.is_some() && is_video_ext(&lower) {
            let c = clip_for_entry(e, shares);
            let ghost before = clips@;
            clips.push(c);
            assert(clip_views(clips@) =~= clip_views(before).push(c@));
        }
        i += 1;
    }
    assert(entries@.take(entries.len() as int) == entries@);
    sort_clips(clips)
}

// ── The library ──────────────────────────────────────────────────────────────

/// Index of the first clip with the given path.
pub open spec fn clip_index(s: Seq<ClipView>, path: Seq<char>) -> Option<int> {
    if exists|i: int| 0 <= i < s.len() && (#[trigger] s[i]).path == path {
        Some(choose|i: int| 0 <= i < s.len() && (#[trigger] s[i]).path == path && forall|k: int| 0 <= k < i ==> (#[trigger] s[k]).path != path)
    } else {
        None
    }
}

/// A clip with `path` at or before `i` that is the first with it.
proof fn lemma_first_match_exists(s: Seq<ClipView>, path: Seq<char>, i: int)
    requires
        0 <= i < s.len(),
        s[i].path == path,
    ensures
        exists|j: int| 0 <= j < s.len() && (#[trigger] s[j]).path == path && forall|k: int| 0 <= k < j ==> (#[trigger] s[k]).path != path,
    decreases i,
{
    if exists|k: int| 0 <= k < i && (#[trigger] s[k]).path == path {
        let k = choose|k: int| 0 <= k < i && (#[trigger] s[k]).path == path;
        lemma_first_match_exists(s, path, k);
    } else {
        assert(forall|k: int| 0 <= k < i ==> (#[trigger] s[k]).path != path);
    }
}

/// `clip_index` gives the first position that holds the path, and nothing
/// only when no clip has it.
pub proof fn lemma_clip_index(s: Seq<ClipView>, path: Seq<char>)
    ensures
        match clip_index(s, path) {
            Some(i) => 0 <= i < s.len() && s[i].path == path
                && forall|k: int| 0 <= k < i ==> (#[trigger] s[k]).path != path,
            None => forall|i: int| 0 <= i < s.len() ==> (#[trigger] s[i]).path != path,
        },
{
    if exists|i: int| 0 <= i < s.len() && (#[trigger] s[i]).path == path {
        let i = choose|i: int| 0 <= i < s.len() && (#[trigger] s[i]).path == path;
        lemma_first_match_exists(s, path, i);
    }
}

pub open spec fn with_share_fields(c: ClipView, url: Option<Seq<char>>, token: Option<Seq<char>>) -> ClipView {
    ClipView { share_url: url, share_delete_token: token, ..c }
}

/// The clips after the first one with `path` gets the given share fields.
pub open spec fn clips_with_share(s: Seq<ClipView>, path: Seq<char>, url: Option<Seq<char>>, token: Option<Seq<char>>) -> Seq<ClipView> {
    match clip_index(s, path) {
        Some(i) => s.update(i, with_share_fields(s[i], url, token)),
        None => s,
    }
}

proof fn lemma_clip_index_is(s: Seq<ClipView>, path: Seq<char>, i: int)
    requires
        0 <= i < s.len(),
        s[i].path == path,
        forall|k: int| 0 <= k < i ==> (#[trigger] s[k]).path != path,
    ensures
        clip_index(s, path) == Some(i),
{
    let j = choose|j: int| 0 <= j < s.len() && (#[trigger] s[j]).path == path && forall|k: int| 0 <= k < j ==> (#[trigger] s[k]).path != path;
    assert(j == i) by {
        if j < i {
            assert(s[j].path != path);
        }
        if i < j {
            assert(s[i].path != path);
        }
    }
}

/// The clips in the output directory and the record of which are shared.
pub struct ClipLibrary {
    pub clips: Vec<Clip>,
    pub shares: ShareStore,
}

impl ClipLibrary {
    pub fn new() -> (l: Self)
        ensures
            l.clips@.len() == 0,
            l.shares@ == Map::<Seq<char>, (Seq<char>, Seq<char>)>::empty(),
    {
        ClipLibrary { clips: Vec::new(), shares: ShareStore::new() }
    }

    fn find(&self, path: &str) -> (r: Option<usize>)
        ensures
            match r {
                Some(i) => clip_index(clip_views(self.clips@), path@) == Some(i as int) && i < self.clips@.len(),
                None => clip_index(clip_views(self.clips@), path@) is None,
            },
    {
        let ghost s = clip_views(self.clips@);
        let mut i: usize = 0;
        while i < self.clips.len()
            invariant
                i <= self.clips.len(),
                s == clip_views(self.clips@),
                forall|k: int| 0 <= k < i ==> (#[trigger] s[k]).path != path@,
            decreases self.clips.len() - i,
        {
            if str_eq(self.clips[i].path.as_str(), path) {
                proof {
                    lemma_clip_index_is(s, path@, i as int);
                }
                return Some(i);
            }
            i += 1;
        }
        None
    }

    /// Adds a freshly produced clip unless a clip with its path is already
    /// listed; the list stays ordered by name.  Returns whether it was added.
    pub fn add_if_new(&mut self, clip: Clip) -> (added: bool)
        ensures
            added == (clip_index(clip_views(old(self).clips@), clip.path@) is None),
            added ==> clip_views(final(self).clips@) == sort_by_name(clip_views(old(self).clips@).push(clip@)),
            !added ==> final(self).clips@ == old(self).clips@,
            final(self).shares@ == old(self).shares@,
    {
        if self.find(clip.path.as_str()).is_some() {
            return false;
        }
        let mut all: Vec<Clip> = Vec::new();
        std::mem::swap(&mut all, &mut self.clips);
        let ghost before = all@;
        all.push(clip);
        assert(clip_views(all@) =~= clip_views(before).push(clip@));
        self.clips = sort_clips(all);
        true
    }

    /// Records the share URL and token of a clip after a successful upload.
    pub fn set_share(&mut self, path: &str, url: String, token: String)
        ensures
            final(self).shares@ == old(self).shares@.insert(path@, (url@, token@)),
            clip_views(final(self).clips@) == clips_with_share(clip_views(old(self).clips@), path@, Some(url@), Some(token@)),
    {
        self.shares.set(path, url.clone(), token.clone());
        match self.find(path) {
            Some(i) => {
                let ghost before = self.clips@;
                let mut c = self.clips[i].duplicate();
                c.share_url = Some(url);
                c.share_delete_token = Some(token);
                self.clips.set(i, c);
                assert(clip_views(self.clips@) =~= clip_views(before).update(i as int, with_share_fields(clip_views(before)[i as int], Some(url@), Some(token@))));
            },
            None => {},
        }
    }

    /// Removes the share data of a clip.
    pub fn clear_share(&mut self, path: &str)
        ensures
            final(self).shares@ == old(self).shares@.remove(path@),
            clip_views(final(self).clips@) == clips_with_share(clip_views(old(self).clips@), path@, None, None),
    {
        self.shares.remove(path);
        match self.find(path) {
            Some(i) => {
                let ghost before = self.clips@;
                let mut c = self.clips[i].duplicate();
                c.share_url = None;
                c.share_delete_token = None;
                self.clips.set(i, c);
                assert(clip_views(self.clips@) =~= clip_views(before).update(i as int, with_share_fields(clip_views(before)[i as int], None, None)));
            },
            None => {},
        }
    }

    /// The share token of a clip, if one exists.
    pub fn get_share_token(&self, path: &str) -> (r: Option<String>)
        ensures
            r is Some <==> self.shares@.dom().contains(path@),
            r matches Some(t) ==> t@ == self.shares@[path@].1,
    {
        match self.shares.get(path) {
            Some(e) => Some(e.token),
            None => None,
        }
    }

    /// A copy of the clip list.
    pub fn snapshot(&self) -> (v: Vec<Clip>)
        ensures
            v@ == self.clips@,
    {
        let mut v: Vec<Clip> = Vec::new();
        let mut i: usize = 0;
        while i < self.clips.len()
            invariant
                i <= self.clips.len(),
                v@ == self.clips@.take(i as int),
            decreases self.clips.len() - i,
        {
            v.push(self.clips[i].duplicate());
            i += 1;
            assert(self.clips@.take(i as int) == self.clips@.take((i - 1) as int).push(self.clips@[i - 1]));
        }
        assert(self.clips@.take(self.clips.len() as int) == self.clips@);
        v
    }
}

// ── Laws ─────────────────────────────────────────────────────────────────────

/// What a read of the share record gives back of a write: after recording a
/// share for `path`, reading `path` gives that URL and token; after removing
/// it, reading gives nothing; other paths read as before either way.
pub proof fn law_share_read_after_write(
    m: Map<Seq<char>, (Seq<char>, Seq<char>)>,
    path: Seq<char>,
    other: Seq<char>,
    url: Seq<char>,
    token: Seq<char>,
)
    requires
        other != path,
    ensures
        m.insert(path, (url, token)).dom().contains(path),
        m.insert(path, (url, token))[path] == (url, token),
        !m.remove(path).dom().contains(path),
        m.insert(path, (url, token)).dom().contains(other) == m.dom().contains(other),
        m.remove(path).dom().contains(other) == m.dom().contains(other),
        m.dom().contains(other) ==> m.insert(path, (url, token))[other] == m[other]
            && m.remove(path)[other] == m[other],
{
}

/// One change to the share record: a `set` (`Record`) or a `remove` of a path.
pub enum ShareChange {
    Record { path: Seq<char>, url: Seq<char>, token: Seq<char> },
    Remove { path: Seq<char> },
}

pub open spec fn change_path(c: ShareChange) -> Seq<char> {
    match c {
        ShareChange::Record { path, .. } => path,
        ShareChange::Remove { path } => path,
    }
}

/// The record after the changes `cs`, in order (as `set` and `remove` state
/// them).
pub open spec fn after_changes(m: Map<Seq<char>, (Seq<char>, Seq<char>)>, cs: Seq<ShareChange>) -> Map<Seq<char>, (Seq<char>, Seq<char>)>
    decreases cs.len(),
{
    if cs.len() == 0 {
        m
    } else {
        let before = after_changes(m, cs.drop_last());
        match cs.last() {
            ShareChange::Record { path, url, token } => before.insert(path, (url, token)),
            ShareChange::Remove { path } => before.remove(path),
        }
    }
}

/// The last of the changes `cs` that touches `p`.
pub open spec fn last_change_of(cs: Seq<ShareChange>, p: Seq<char>) -> Option<ShareChange>
    decreases cs.len(),
{
    if cs.len() == 0 {
        None
    } else if change_path(cs.last()) == p {
        Some(cs.last())
    } else {
        last_change_of(cs.drop_last(), p)
    }
}

/// Over any history of `set` and `remove` calls, reading a path (`get`)
/// gives what the last change of that path wrote: its URL and token after a
/// `set`, nothing after a `remove`, and what the record held before when no
/// change touched it.
pub proof fn law_share_history(m: Map<Seq<char>, (Seq<char>, Seq<char>)>, cs: Seq<ShareChange>, p: Seq<char>)
    ensures
        match last_change_of(cs, p) {
            Some(ShareChange::Record { url, token, .. }) => after_changes(m, cs).dom().contains(p)
                && after_changes(m, cs)[p] == (url, token),
            Some(ShareChange::Remove { .. }) => !after_changes(m, cs).dom().contains(p),
            None => after_changes(m, cs).dom().contains(p) == m.dom().contains(p)
                && (m.dom().contains(p) ==> after_changes(m, cs)[p] == m[p]),
        },
    decreases cs.len(),
{
    if cs.len() > 0 {
        law_share_history(m, cs.drop_last(), p);
    }
}

/// A clip once added is listed, so adding it again finds it and changes
/// nothing.
pub proof fn law_added_clip_is_listed(s: Seq<ClipView>, c: ClipView)
    ensures
        clip_index(sort_by_name(s.push(c)), c.path) is Some,
{
    broadcast use vstd::seq_lib::group_to_multiset_ensures;

    let u = s.push(c);
    law_sort_orders_and_keeps_clips(u);
    let t = sort_by_name(u);
    assert(u[s.len() as int] == c);
    assert(u.contains(c));
    assert(u.to_multiset().count(c) > 0);
    assert(t.to_multiset().count(c) > 0);
    assert(t.contains(c));
    let i = choose|i: int| 0 <= i < t.len() && t[i] == c;
    assert(t[i].path == c.path);
}

/// The video extensions the library lists, ignoring ASCII case.
pub open spec fn listed_extension(x: Seq<char>) -> bool {
    x == "mp4"@ || x == "mkv"@ || x == "mov"@ || x == "avi"@ || x == "webm"@
}

proof fn lemma_listed_contains(es: Seq<DirEntry>, shares: Map<Seq<char>, (Seq<char>, Seq<char>)>, i: int)
    requires
        0 <= i < es.len(),
        is_clip_entry(es[i]),
    ensures
        listed_clips(es, shares).contains(entry_clip(es[i], shares)),
    decreases es.len(),
{
    let rest = listed_clips(es.drop_last(), shares);
    if i == es.len() - 1 {
        assert(listed_clips(es, shares)[rest.len() as int] == entry_clip(es[i], shares));
    } else {
        assert(es.drop_last()[i] == es[i]);
        lemma_listed_contains(es.drop_last(), shares, i);
        let k = choose|k: int| 0 <= k < rest.len() && rest[k] == entry_clip(es[i], shares);
        if is_clip_entry(es.last()) {
            assert(listed_clips(es, shares)[k] == entry_clip(es[i], shares));
        }
    }
}

/// A readable regular file whose extension, ignoring ASCII case, is mp4, mkv,
/// mov, avi or webm is in the library a scan builds (with its path, name,
/// size and share data); a folder, an unreadable entry or a file with any
/// other extension is never taken as a clip.
pub proof fn law_video_files_are_listed(es: Seq<DirEntry>, shares: Map<Seq<char>, (Seq<char>, Seq<char>)>, i: int)
    requires
        0 <= i < es.len(),
    ensures
        es[i].is_file && es[i].size_bytes is Some && listed_extension(lowercase(extension_or_empty(es[i].path@)))
            ==> sort_by_name(listed_clips(es, shares)).contains(entry_clip(es[i], shares)),
        is_clip_entry(es[i]) <==> (es[i].is_file && es[i].size_bytes is Some
            && listed_extension(lowercase(extension_or_empty(es[i].path@)))),
{
    broadcast use vstd::seq_lib::group_to_multiset_ensures;

    if es[i].is_file && es[i].size_bytes is Some && listed_extension(lowercase(extension_or_empty(es[i].path@))) {
        let c = entry_clip(es[i], shares);
        let u = listed_clips(es, shares);
        lemma_listed_contains(es, shares, i);
        law_sort_orders_and_keeps_clips(u);
        assert(u.to_multiset().count(c) > 0);
        assert(sort_by_name(u).to_multiset().count(c) > 0);
    }
}

} // verus!
