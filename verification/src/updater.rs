//! Self-update decisions: whether a GitHub release is newer than the running
//! version, which of its assets to download, and the script that swaps the
//! executable once rscapt has exited.  The HTTP calls and the download are
//! made by the program around this library.
use vstd::prelude::*;
use crate::paths::{join, join_str};
use crate::installer::{install_dir, install_dir_of, ps_quoted, ps_str};
use crate::text::{chars_of, slice_chars, contains, ends_with, owned, parse_u32, parse_u32_chars, push_str,
    str_contains, str_ends_with, string_from_chars, decimal, all_digits, is_digit, lemma_decimal_reads_back};

verus! {

#[derive(Debug, Clone)]
pub struct ReleaseInfo {
    pub version: String,
    pub download_url: String,
}

/// One downloadable file of a release, as the release API lists it.
#[derive(Debug, Clone)]
pub struct ReleaseAsset {
    pub name: String,
    pub browser_download_url: String,
}

/// Why a newer release cannot be installed.
#[derive(Debug, Clone, PartialEq, Eq)]
pub enum UpdateError {
    /// The release (by its tag) has no Windows executable among its assets.
    NoWindowsAsset(String),
}

impl UpdateError {
    pub fn message(&self) -> (s: String)
        ensures
            match self {
                UpdateError::NoWindowsAsset(tag) => s@ == "No Windows exe asset in release "@ + tag@,
            },
    {
        match self {
            UpdateError::NoWindowsAsset(tag) => {
                let mut s = owned("No Windows exe asset in release ");
                push_str(&mut s, tag.as_str());
                s
            },
        }
    }
}

// ── Version comparison ────────────────────────────────────────────────────────

/// The index of the first `c` in `s`.
pub open spec fn first_index_of(s: Seq<char>, c: char) -> Option<int>
    decreases s.len(),
{
    if s.len() == 0 {
        None
    } else if s[0] == c {
        Some(0)
    } else {
        match first_index_of(s.drop_first(), c) {
            Some(i) => Some(i + 1),
            None => None,
        }
    }
}

/// The text before the first `.` (all of it when there is none).
pub open spec fn before_dot(s: Seq<char>) -> Seq<char> {
    match first_index_of(s, '.') {
        Some(i) => s.take(i),
        None => s,
    }
}

/// The text after the first `.`, if there is one.
pub open spec fn after_dot(s: Seq<char>) -> Option<Seq<char>> {
    match first_index_of(s, '.') {
        Some(i) => Some(s.skip(i + 1)),
        None => None,
    }
}

pub open spec fn number_or_zero(s: Seq<char>) -> u32 {
    match parse_u32(s) {
        Some(n) => n,
        None => 0,
    }
}

/// `major.minor.patch` read as `splitn(3, '.')` reads it: the patch part is
/// everything after the second dot.  A part that is missing or is not a
/// `u32` counts as 0.
pub open spec fn semver_of(s: Seq<char>) -> (u32, u32, u32) {
    let major = number_or_zero(before_dot(s));
    match after_dot(s) {
        None => (major, 0, 0),
        Some(r) => {
            let minor = number_or_zero(before_dot(r));
            match after_dot(r) {
                None => (major, minor, 0),
                Some(r2) => (major, minor, number_or_zero(r2)),
            }
        },
    }
}

/// The tuple order: by major, then minor, then patch.
pub open spec fn version_gt(a: (u32, u32, u32), b: (u32, u32, u32)) -> bool {
    a.0 > b.0 || (a.0 == b.0 && (a.1 > b.1 || (a.1 == b.1 && a.2 > b.2)))
}

/// The index of the first `c` in a character vector.
fn find_char(v: &Vec<char>, c: char) -> (r: Option<usize>)
    ensures
        match r {
            Some(i) => first_index_of(v@, c) == Some(i as int) && i < v.len(),
            None => first_index_of(v@, c) is None,
        },
{
    let mut i: usize = 0;
    assert(v@.skip(0) == v@);
    while i < v.len()
        invariant
            i <= v.len(),
            first_index_of(v@, c) == match first_index_of(v@.skip(i as int), c) {
                Some(k) => Some(k + i),
                None => None,
            },
        decreases v.len() - i,
    {
        let ghost rest = v@.skip(i as int);
        assert(rest.drop_first() == v@.skip(i + 1));
        if v[i] == c {
            assert(rest[0] == c);
            return Some(i);
        }
        i += 1;
    }
    assert(v@.skip(i as int).len() == 0);
    None
}

/// Splits at the first `.`: the part before it and, if there is a dot, the
/// rest after it.
fn split_first_dot(v: &Vec<char>) -> (r: (Vec<char>, Option<Vec<char>>))
    ensures
        r.0@ == before_dot(v@),
        match r.1 {
            Some(rest) => after_dot(v@) == Some(rest@),
            None => after_dot(v@) is None,
        },
{
    match find_char(v, '.') {
        Some(i) => {
            let head = slice_chars(v, 0, i);
            let tail = slice_chars(v, i + 1, v.len());
            assert(head@ == v@.take(i as int));
            assert(tail@ == v@.skip(i + 1));
            (head, Some(tail))
        },
        None => {
            let head = slice_chars(v, 0, v.len());
            assert(head@ == v@);
            (head, None)
        },
    }
}

fn number_or_zero_chars(v: &Vec<char>) -> (n: u32)
    ensures
        n == number_or_zero(v@),
{
    match parse_u32_chars(v) {
        Some(n) => n,
        None => 0,
    }
}

/// Reads `major.minor.patch`, each missing or unreadable part as 0.
pub fn parse_semver(v: &str) -> (r: (u32, u32, u32))
    ensures
        r == semver_of(v@),
{
    let s = chars_of(v);
    let (p0, rest) = split_first_dot(&s);
    let major = number_or_zero_chars(&p0);
    match rest {
        None => (major, 0, 0),
        Some(r) => {
            let (p1, rest2) = split_first_dot(&r);
            let minor = number_or_zero_chars(&p1);
            match rest2 {
                None => (major, minor, 0),
                Some(r2) => (major, minor, number_or_zero_chars(&r2)),
            }
        },
    }
}

/// Whether `latest` is a later version than `current`.
pub fn is_newer(latest: &str, current: &str) -> (b: bool)
    ensures
        b == version_gt(semver_of(latest@), semver_of(current@)),
{
    let a = parse_semver(latest);
    let b = parse_semver(current);
    a.0 > b.0 || (a.0 == b.0 && (a.1 > b.1 || (a.1 == b.1 && a.2 > b.2)))
}

// ── Choosing the release ──────────────────────────────────────────────────────

/// `s.trim_start_matches(c)`: the text without its leading `c`s.
pub open spec fn strip_leading(s: Seq<char>, c: char) -> Seq<char>
    decreases s.len(),
{
    if s.len() > 0 && s[0] == c {
        strip_leading(s.drop_first(), c)
    } else {
        s
    }
}

fn strip_leading_str(s: &str, c: char) -> (r: String)
    ensures
        r@ == strip_leading(s@, c),
{
    let v = chars_of(s);
    let mut i: usize = 0;
    assert(v@.skip(0) == v@);
    while i < v.len() && v[i] == c
        invariant
            i <= v.len(),
            strip_leading(v@, c) == strip_leading(v@.skip(i as int), c),
        decreases v.len() - i,
    {
        assert(v@.skip(i as int).drop_first() == v@.skip(i + 1));
        i += 1;
    }
    let r = slice_chars(&v, i, v.len());
    assert(r@ == v@.skip(i as int));
    string_from_chars(&r)
}

/// The Windows build of rscapt among a release's files.
pub open spec fn is_windows_exe(name: Seq<char>) -> bool {
    contains(name, "windows-x64"@) && ends_with(name, ".exe"@)
}

pub open spec fn first_windows_exe(assets: Seq<ReleaseAsset>) -> Option<int> {
    if exists|i: int| 0 <= i < assets.len() && is_windows_exe(#[trigger] assets[i].name@) {
        Some(choose|i: int| 0 <= i < assets.len() && is_windows_exe(#[trigger] assets[i].name@)
            && forall|k: int| 0 <= k < i ==> !is_windows_exe(#[trigger] assets[k].name@))
    } else {
        None
    }
}

/// What the release check answers for the latest release `tag_name` and its
/// `assets`, when `current` is running: nothing when the release is not
/// newer (a leading `v` in the tag is ignored), else the release with the
/// first Windows executable, or an error when it has none.
pub open spec fn release_decision(tag: Seq<char>, assets: Seq<ReleaseAsset>, current: Seq<char>) -> Option<Option<int>> {
    if !version_gt(semver_of(strip_leading(tag, 'v')), semver_of(current)) {
        Some(None)
    } else {
        match first_windows_exe(assets) {
            Some(i) => Some(Some(i)),
            None => None,
        }
    }
}

proof fn lemma_first_windows_exe(assets: Seq<ReleaseAsset>, i: int)
    requires
        0 <= i < assets.len(),
        is_windows_exe(assets[i].name@),
        forall|k: int| 0 <= k < i ==> !is_windows_exe(#[trigger] assets[k].name@),
    ensures
        first_windows_exe(assets) == Some(i),
{
    let j = choose|j: int| 0 <= j < assets.len() && is_windows_exe(#[trigger] assets[j].name@)
        && forall|k: int| 0 <= k < j ==> !is_windows_exe(#[trigger] assets[k].name@);
    assert(0 <= j < assets.len() && is_windows_exe(assets[j].name@)
        && forall|k: int| 0 <= k < j ==> !is_windows_exe(#[trigger] assets[k].name@));
    if j < i {
        assert(!is_windows_exe(assets[j].name@));
    }
    if i < j {
        assert(!is_windows_exe(assets[i].name@));
    }
}

/// Decides what the latest release `tag_name` (with `assets`) means for the
/// running version `current`.
pub fn evaluate_release(tag_name: String, assets: &Vec<ReleaseAsset>, current: &str)
    -> (r: Result<Option<ReleaseInfo>, UpdateError>)
    ensures
        match release_decision(tag_name@, assets@, current@) {
            Some(None) => r matches Ok(None),
            Some(Some(i)) => r matches Ok(Some(info)) && info.version == tag_name
                && info.download_url == assets@[i].browser_download_url,
            None => r matches Err(UpdateError::NoWindowsAsset(t)) && t == tag_name,
        },
{
    let latest = strip_leading_str(tag_name.as_str(), 'v');
    if !is_newer(latest.as_str(), current) {
        assert(release_decision(tag_name@, assets@, current@) == Some(None::<int>));
        return Ok(None);
    }
    assert(version_gt(semver_of(strip_leading(tag_name@, 'v')), semver_of(current@)));
    let mut i: usize = 0;
    while i < assets.len()
        invariant
            i <= assets.len(),
            version_gt(semver_of(strip_leading(tag_name@, 'v')), semver_of(current@)),
            forall|k: int| 0 <= k < i ==> !is_windows_exe(#[trigger] assets@[k].name@),
        decreases assets.len() - i,
    {
        let name = assets[i].name.as_str();
        if str_contains(name, "windows-x64") && str_ends_with(name, ".exe") {
            proof {
                lemma_first_windows_exe(assets@, i as int);
                assert(release_decision(tag_name@, assets@, current@) == Some(Some(i as int)));
            }
            return Ok(Some(ReleaseInfo { version: tag_name, download_url: assets[i].browser_download_url.clone() }));
        }
        i += 1;
    }
    assert(first_windows_exe(assets@) is None);
    assert(release_decision(tag_name@, assets@, current@) is None);
    Err(UpdateError::NoWindowsAsset(tag_name))
}

/// "Newer than" is a strict order on version texts: no version is newer
/// than itself, of two versions at most one is newer than the other, and it
/// is transitive.
pub proof fn law_newer_is_strict_order(a: Seq<char>, b: Seq<char>, c: Seq<char>)
    ensures
        !version_gt(semver_of(a), semver_of(a)),
        version_gt(semver_of(a), semver_of(b)) ==> !version_gt(semver_of(b), semver_of(a)),
        version_gt(semver_of(a), semver_of(b)) && version_gt(semver_of(b), semver_of(c))
            ==> version_gt(semver_of(a), semver_of(c)),
{
}

/// A release whose tag is the running version (with or without a leading
/// `v`) is never offered, whatever its assets.
pub proof fn law_same_version_is_up_to_date(tag: Seq<char>, assets: Seq<ReleaseAsset>, current: Seq<char>)
    requires
        strip_leading(tag, 'v') == current,
    ensures
        release_decision(tag, assets, current) == Some(None::<int>),
{
}

// ── Swapping the executable ──────────────────────────────────────────────────

/// The detached PowerShell command that waits for rscapt to exit, copies the
/// downloaded `src` over `dst` and removes `src`.
pub open spec fn swap_script_text(src: Seq<char>, dst: Seq<char>) -> Seq<char> {
    "Stop-Process -Name rscapt -Force -ErrorAction SilentlyContinue; Start-Sleep -Seconds 2; Copy-Item -Force '"@
        + ps_quoted(src) + "' '"@ + ps_quoted(dst) + "'; Remove-Item '"@ + ps_quoted(src)
        + "' -ErrorAction SilentlyContinue"@
}

pub fn swap_script(src: &str, dst: &str) -> (s: String)
    ensures
        s@ == swap_script_text(src@, dst@),
{
    let q_src = ps_str(src);
    let q_dst = ps_str(dst);
    let mut s = owned("Stop-Process -Name rscapt -Force -ErrorAction SilentlyContinue; Start-Sleep -Seconds 2; Copy-Item -Force '");
    push_str(&mut s, q_src.as_str());
    push_str(&mut s, "' '");
    push_str(&mut s, q_dst.as_str());
    push_str(&mut s, "'; Remove-Item '");
    push_str(&mut s, q_src.as_str());
    push_str(&mut s, "' -ErrorAction SilentlyContinue");
    s
}

/// Where the update is staged and where it goes: (`rscapt-update.exe` in
/// the temporary directory `temp`, `rscapt.exe` in the install directory).
pub fn update_paths(data_local: Option<&str>, temp: &str) -> (r: (String, String))
    ensures
        r.0@ == join(temp@, "rscapt-update.exe"@),
        r.1@ == join(install_dir_of(match data_local {
            Some(d) => Some(d@),
            None => None,
        }), "rscapt.exe"@),
{
    let dir = install_dir(data_local);
    (join_str(temp, "rscapt-update.exe"), join_str(dir.as_str(), "rscapt.exe"))
}

/// Versions are compared part by part: a different major number decides,
/// then a different minor number, then the patch number, whatever the major
/// number is; so raising only the patch number always gives a newer version.
pub proof fn law_versions_compare_part_by_part(a: (u32, u32, u32), b: (u32, u32, u32))
    ensures
        a.0 != b.0 ==> (version_gt(a, b) <==> a.0 > b.0),
        a.0 == b.0 && a.1 != b.1 ==> (version_gt(a, b) <==> a.1 > b.1),
        a.0 == b.0 && a.1 == b.1 ==> (version_gt(a, b) <==> a.2 > b.2),
        a.2 < u32::MAX ==> version_gt((a.0, a.1, (a.2 + 1) as u32), a),
{
}

/// A version written out as `major.minor.patch`.
pub open spec fn version_text(v: (u32, u32, u32)) -> Seq<char> {
    decimal(v.0 as nat) + seq!['.'] + decimal(v.1 as nat) + seq!['.'] + decimal(v.2 as nat)
}

proof fn lemma_first_dot_after(a: Seq<char>, b: Seq<char>)
    requires
        all_digits(a),
    ensures
        first_index_of(a + seq!['.'] + b, '.') == Some(a.len() as int),
    decreases a.len(),
{
    let s = a + seq!['.'] + b;
    if a.len() > 0 {
        assert(s[0] == a[0]);
        assert(all_digits(a.drop_first())) by {
            assert forall|i: int| 0 <= i < a.drop_first().len() implies is_digit(#[trigger] a.drop_first()[i]) by {
                assert(a.drop_first()[i] == a[i + 1]);
            }
        }
        lemma_first_dot_after(a.drop_first(), b);
        assert(s.drop_first() =~= a.drop_first() + seq!['.'] + b);
    } else {
        assert(s[0] == '.');
    }
}

proof fn lemma_no_dot(a: Seq<char>)
    requires
        all_digits(a),
    ensures
        first_index_of(a, '.') is None,
    decreases a.len(),
{
    if a.len() > 0 {
        assert(all_digits(a.drop_first())) by {
            assert forall|i: int| 0 <= i < a.drop_first().len() implies is_digit(#[trigger] a.drop_first()[i]) by {
                assert(a.drop_first()[i] == a[i + 1]);
            }
        }
        lemma_no_dot(a.drop_first());
    }
}

/// A version written as `major.minor.patch` reads back as its three numbers,
/// so `is_newer` on written versions compares them part by part: for
/// instance `1.0.1` is newer than `1.0.0`.
pub proof fn law_version_text_reads_back(v: (u32, u32, u32), w: (u32, u32, u32))
    ensures
        semver_of(version_text(v)) == v,
        version_gt(semver_of(version_text(v)), semver_of(version_text(w)))
            <==> (v.0 > w.0 || (v.0 == w.0 && v.1 > w.1) || (v.0 == w.0 && v.1 == w.1 && v.2 > w.2)),
{
    lemma_version_text_reads_back(v);
    lemma_version_text_reads_back(w);
}

proof fn lemma_version_text_reads_back(v: (u32, u32, u32))
    ensures
        semver_of(version_text(v)) == v,
{
    let x = decimal(v.0 as nat);
    let y = decimal(v.1 as nat);
    let z = decimal(v.2 as nat);
    lemma_decimal_reads_back(v.0 as nat);
    lemma_decimal_reads_back(v.1 as nat);
    lemma_decimal_reads_back(v.2 as nat);
    let s = version_text(v);
    let r = y + seq!['.'] + z;
    assert(s =~= x + seq!['.'] + r);
    lemma_first_dot_after(x, r);
    assert((x + seq!['.'] + r).take(x.len() as int) =~= x);
    assert((x + seq!['.'] + r).skip(x.len() as int + 1) =~= r);
    lemma_first_dot_after(y, z);
    assert(r.take(y.len() as int) =~= y);
    assert(r.skip(y.len() as int + 1) =~= z);
}

} // verus!
