//! The daemon ↔ TUI protocol: the messages each side sends, and what the
//! daemon does with each client request.  (The wire format — one JSON object
//! per line — is written and read by the program around this library.)
use vstd::prelude::*;
use crate::text::{replace_char, chars_of, push_char, push_str, replace_char_str, string_from_chars};
use crate::paths::{extension_or_empty, join, parent, stem_or_empty, join_str, parent_chars, stem_and_extension,
    file_name_or_empty, is_sep, no_sep, lemma_join_file_name, lemma_stem_extension_cover_name};
use crate::job::{CompressCodec, CompressOptions, Effect, Job, JobKind, codec_ffmpeg_name, same_kind};
use crate::clips::Clip;
use crate::queue::QueueEvent;

verus! {

/// Messages the TUI can send to the daemon.
#[derive(Debug, Clone)]
pub enum ClientMessage {
    GetJobs,
    GetClips,
    Cancel { id: u128 },
    PostProcess { clip_path: String, effects: Vec<Effect> },
    Compress { clip_path: String, options: CompressOptions },
    Share { clip_path: String, expiry: String },
    /// Forget the share link of a clip.
    DeleteShare { clip_path: String },
}

/// Messages the daemon sends to the TUI.
#[derive(Debug, Clone)]
pub enum ServerMessage {
    Snapshot { jobs: Vec<Job> },
    JobUpdate { job: Job },
    Cancelled { id: u128, success: bool },
    ClipLibrary { clips: Vec<Clip> },
    ClipUpdated { clips: Vec<Clip> },
    UpdateAvailable { version: String },
    Error { message: String },
}

/// What the daemon does for a client request.
#[derive(Debug, Clone)]
pub enum Dispatch {
    /// Reply with a snapshot of the queue.
    SendJobs,
    /// Reply with the clip library.
    SendClips,
    /// Cancel the job and reply whether that worked.
    Cancel(u128),
    /// Queue a new job.
    Enqueue { kind: JobKind, source: String, output: String },
    /// Drop the clip's share record and send every client the updated
    /// library.  (The upload host offers no deletion; the link lapses at its
    /// expiry.)
    ClearShare(String),
}

pub open spec fn parent_or_dot(p: Seq<char>) -> Seq<char> {
    match parent(p) {
        Some(d) => d,
        None => "."@,
    }
}

/// Derive an output path by appending a suffix to the file stem:
/// `clip_1440p.mp4` + `"pp"` → `clip_1440p_pp.mp4`, in the same folder.
pub open spec fn derived_output(source: Seq<char>, suffix: Seq<char>) -> Seq<char> {
    join(
        parent_or_dot(source),
        stem_or_empty(source) + seq!['_'] + suffix + seq!['.'] + extension_or_empty(source),
    )
}

pub fn derive_output_path(source: &str, suffix: &str) -> (p: String)
    ensures
        p@ == derived_output(source@, suffix@),
{
    let v = chars_of(source);
    let dir = match parent_chars(&v) {
        Some(d) => string_from_chars(&d),
        None => crate::text::owned("."),
    };
    let (stem, ext) = stem_and_extension(source);
    let mut name = stem;
    push_char(&mut name, '_');
    push_str(&mut name, suffix);
    push_char(&mut name, '.');
    push_str(&mut name, ext.as_str());
    assert(name@ =~= stem_or_empty(source@) + seq!['_'] + suffix@ + seq!['.'] + extension_or_empty(source@));
    join_str(dir.as_str(), name.as_str())
}

/// The output suffix of a compression: `c_` and the codec name without underscores.
pub open spec fn compress_suffix_of(c: CompressCodec) -> Seq<char> {
    "c_"@ + replace_char(codec_ffmpeg_name(c), '_', ""@)
}

pub fn compress_suffix(c: CompressCodec) -> (s: String)
    ensures
        s@ == compress_suffix_of(c),
{
    let mut s = String::new();
    push_str(&mut s, "c_");
    let rest = replace_char_str(c.ffmpeg_codec(), '_', "");
    push_str(&mut s, rest.as_str());
    s
}

/// What the daemon does with each request: replies for the two queries, a
/// cancellation, dropping a share record, or a new job whose output sits next to the clip (`_pp`,
/// `_c_<codec>`; a share job's output is the clip itself).
pub open spec fn dispatch_of(m: ClientMessage, d: Dispatch) -> bool {
    match m {
        ClientMessage::GetJobs => d is SendJobs,
        ClientMessage::GetClips => d is SendClips,
        ClientMessage::Cancel { id } => d == Dispatch::Cancel(id),
        ClientMessage::PostProcess { clip_path, effects } => d matches Dispatch::Enqueue { kind, source, output }
            && same_kind(kind, JobKind::PostProcess { effects }) && source@ == clip_path@
            && output@ == derived_output(clip_path@, "pp"@),
        ClientMessage::Compress { clip_path, options } => d matches Dispatch::Enqueue { kind, source, output }
            && same_kind(kind, JobKind::Compress(options)) && source@ == clip_path@
            && output@ == derived_output(clip_path@, compress_suffix_of(options.codec)),
        ClientMessage::Share { clip_path, expiry } => d matches Dispatch::Enqueue { kind, source, output }
            && same_kind(kind, JobKind::Share { expiry }) && source@ == clip_path@
            && output@ == clip_path@,
        ClientMessage::DeleteShare { clip_path } => d matches Dispatch::ClearShare(p) && p@ == clip_path@,
    }
}

pub fn plan_dispatch(msg: ClientMessage) -> (d: Dispatch)
    ensures
        dispatch_of(msg, d),
{
    match msg {
        ClientMessage::GetJobs => Dispatch::SendJobs,
        ClientMessage::GetClips => Dispatch::SendClips,
        ClientMessage::Cancel { id } => Dispatch::Cancel(id),
        ClientMessage::PostProcess { clip_path, effects } => {
            let output = derive_output_path(clip_path.as_str(), "pp");
            Dispatch::Enqueue { kind: JobKind::PostProcess { effects }, source: clip_path, output }
        },
        ClientMessage::Compress { clip_path, options } => {
            let suffix = compress_suffix(options.codec);
            let output = derive_output_path(clip_path.as_str(), suffix.as_str());
            Dispatch::Enqueue { kind: JobKind::Compress(options), source: clip_path, output }
        },
        ClientMessage::Share { clip_path, expiry } => {
            let output = clip_path.clone();
            Dispatch::Enqueue { kind: JobKind::Share { expiry }, source: clip_path, output }
        },
        ClientMessage::DeleteShare { clip_path } => Dispatch::ClearShare(clip_path),
    }
}

/// The message that tells a client about a queue change.
pub fn event_message(ev: QueueEvent) -> (m: ServerMessage)
    ensures
        m matches ServerMessage::JobUpdate { job } && (match ev {
            QueueEvent::JobAdded(j) => job == j,
            QueueEvent::JobUpdated(j) => job == j,
        }),
{
    match ev {
        QueueEvent::JobAdded(job) => ServerMessage::JobUpdate { job },
        QueueEvent::JobUpdated(job) => ServerMessage::JobUpdate { job },
    }
}

// ── Laws ─────────────────────────────────────────────────────────────────────

proof fn lemma_replace_keeps_no_sep(s: Seq<char>, from: char, to: Seq<char>)
    requires
        no_sep(s),
        no_sep(to),
    ensures
        no_sep(replace_char(s, from, to)),
    decreases s.len(),
{
    if s.len() > 0 {
        let d = s.drop_last();
        assert forall|k: int| 0 <= k < d.len() implies !is_sep(#[trigger] d[k]) by {
            assert(d[k] == s[k]);
        }
        lemma_replace_keeps_no_sep(d, from, to);
        let r = replace_char(d, from, to);
        let tail = if s.last() == from { to } else { seq![s.last()] };
        let all = r + tail;
        assert forall|k: int| 0 <= k < all.len() implies !is_sep(#[trigger] all[k]) by {
            if k < r.len() {
                assert(all[k] == r[k]);
            } else {
                assert(all[k] == tail[k - r.len()]);
                assert(!is_sep(s[s.len() - 1]));
            }
        }
    }
}

/// The suffixes the daemon gives its outputs are plain names.
proof fn lemma_suffixes_have_no_sep(c: CompressCodec)
    ensures
        no_sep("pp"@),
        no_sep(compress_suffix_of(c)),
{
    reveal_strlit("pp");
    reveal_strlit("c_");
    reveal_strlit("");
    reveal_strlit("h264_nvenc");
    reveal_strlit("hevc_nvenc");
    reveal_strlit("libx265");
    reveal_strlit("libaom-av1");
    let name = codec_ffmpeg_name(c);
    assert(no_sep(name));
    assert(no_sep(""@));
    lemma_replace_keeps_no_sep(name, '_', ""@);
    let r = replace_char(name, '_', ""@);
    let all = "c_"@ + r;
    assert forall|k: int| 0 <= k < all.len() implies !is_sep(#[trigger] all[k]) by {
        if k >= 2 {
            assert(all[k] == r[k - 2]);
        }
    }
}

/// A derived output never is the clip it is derived from: its file name is
/// longer, for any suffix that is a plain name.
pub proof fn law_derived_output_is_not_source(source: Seq<char>, suffix: Seq<char>)
    requires
        no_sep(suffix),
    ensures
        derived_output(source, suffix) != source,
{
    lemma_stem_extension_cover_name(source);
    let st = stem_or_empty(source);
    let ex = extension_or_empty(source);
    let n = st + seq!['_'] + suffix + seq!['.'] + ex;
    assert forall|k: int| 0 <= k < n.len() implies !is_sep(#[trigger] n[k]) by {
        if k < st.len() {
            assert(n[k] == st[k]);
        } else if k == st.len() {
        } else if k < st.len() + 1 + suffix.len() {
            assert(n[k] == suffix[k - st.len() - 1]);
        } else if k == st.len() + 1 + suffix.len() {
        } else {
            assert(n[k] == ex[k - st.len() - 2 - suffix.len()]);
        }
    }
    assert(n[st.len() as int] == '_');
    assert(n != seq!['.', '.']) by {
        if n.len() == 2 {
            assert(st.len() == 0);
        }
    }
    lemma_join_file_name(parent_or_dot(source), n);
    assert(file_name_or_empty(derived_output(source, suffix)) == n);
}

/// A post-process or a compression never writes over the clip it reads.
pub proof fn law_jobs_do_not_overwrite_their_clip(m: ClientMessage, d: Dispatch)
    requires
        dispatch_of(m, d),
        m is PostProcess || m is Compress,
    ensures
        d matches Dispatch::Enqueue { source, output, .. } && output@ != source@,
{
    match m {
        ClientMessage::PostProcess { clip_path, .. } => {
            lemma_suffixes_have_no_sep(CompressCodec::H264Nvenc);
            law_derived_output_is_not_source(clip_path@, "pp"@);
        },
        ClientMessage::Compress { clip_path, options } => {
            lemma_suffixes_have_no_sep(options.codec);
            law_derived_output_is_not_source(clip_path@, compress_suffix_of(options.codec));
        },
        _ => {},
    }
}

} // verus!
