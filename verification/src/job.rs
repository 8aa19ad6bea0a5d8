//! Jobs: what the processor runs, with their kinds, options and status.
//!
//! A job's id is the 128-bit value of its UUID and its timestamps are
//! milliseconds since the Unix epoch.  Effect strengths that the user sets in
//! steps of 0.05 are held in hundredths (`130` is a saturation of 1.30).
use vstd::prelude::*;
use crate::paths::{file_name_or_empty, file_name_string};

verus! {

/// A single post-processing effect applied in the order listed.
#[derive(Debug, Clone, Copy, PartialEq, Eq, Structural)]
pub enum Effect {
    /// Boost saturation, in hundredths: 100 = neutral, 130 = moderate pop.
    Saturation(u32),
    /// Sharpen strength passed to unsharp mask, in hundredths (50–200 typical).
    Sharpen(u32),
    /// Frame interpolation — target fps, e.g. 120 or 240.
    Interpolate { target_fps: u32 },
    /// Motion blur — shutter angle in degrees (180 = natural, 360 = heavy).
    MotionBlur { shutter_angle: u32 },
}

#[derive(Debug, Clone, Copy, PartialEq, Eq, Structural)]
pub enum CompressCodec {
    /// H.264 via NVENC (fast, good compatibility)
    H264Nvenc,
    /// H.265/HEVC via NVENC (smaller files, GPU required)
    HevcNvenc,
    /// H.265/HEVC via CPU (x265, no GPU needed, slower)
    Hevc,
    /// AV1 via CPU (libaom-av1, best compression, very slow)
    Av1,
}

pub open spec fn codec_label(c: CompressCodec) -> Seq<char> {
    match c {
        CompressCodec::H264Nvenc => "H.264 NVENC"@,
        CompressCodec::HevcNvenc => "H.265 NVENC"@,
        CompressCodec::Hevc => "H.265 CPU"@,
        CompressCodec::Av1 => "AV1"@,
    }
}

pub open spec fn codec_ffmpeg_name(c: CompressCodec) -> Seq<char> {
    match c {
        CompressCodec::H264Nvenc => "h264_nvenc"@,
        CompressCodec::HevcNvenc => "hevc_nvenc"@,
        CompressCodec::Hevc => "libx265"@,
        CompressCodec::Av1 => "libaom-av1"@,
    }
}

pub open spec fn codec_is_nvenc(c: CompressCodec) -> bool {
    c is H264Nvenc || c is HevcNvenc
}

impl CompressCodec {
    pub fn label(&self) -> (s: &'static str)
        ensures
            s@ == codec_label(*self),
    {
        match self {
            CompressCodec::H264Nvenc => "H.264 NVENC",
            CompressCodec::HevcNvenc => "H.265 NVENC",
            CompressCodec::Hevc => "H.265 CPU",
            CompressCodec::Av1 => "AV1",
        }
    }

    pub fn ffmpeg_codec(&self) -> (s: &'static str)
        ensures
            s@ == codec_ffmpeg_name(*self),
    {
        match self {
            CompressCodec::H264Nvenc => "h264_nvenc",
            CompressCodec::HevcNvenc => "hevc_nvenc",
            CompressCodec::Hevc => "libx265",
            CompressCodec::Av1 => "libaom-av1",
        }
    }

    /// Returns true if this codec uses NVENC hardware encoding.
    pub fn is_nvenc(&self) -> (b: bool)
        ensures
            b == codec_is_nvenc(*self),
    {
        matches!(self, CompressCodec::H264Nvenc | CompressCodec::HevcNvenc)
    }
}

#[derive(Debug, Clone, Copy, PartialEq, Eq, Structural)]
pub enum CompressQuality {
    High,
    Med,
    Low,
}

pub open spec fn quality_label(q: CompressQuality) -> Seq<char> {
    match q {
        CompressQuality::High => "High"@,
        CompressQuality::Med => "Med"@,
        CompressQuality::Low => "Low"@,
    }
}

/// The CQ (NVENC) or CRF (software) value of each codec and quality.
pub open spec fn crf_value(q: CompressQuality, c: CompressCodec) -> u8 {
    match c {
        CompressCodec::H264Nvenc => match q {
            CompressQuality::High => 18,
            CompressQuality::Med => 23,
            CompressQuality::Low => 28,
        },
        CompressCodec::HevcNvenc => match q {
            CompressQuality::High => 20,
            CompressQuality::Med => 26,
            CompressQuality::Low => 32,
        },
        CompressCodec::Hevc => match q {
            CompressQuality::High => 22,
            CompressQuality::Med => 28,
            CompressQuality::Low => 34,
        },
        CompressCodec::Av1 => match q {
            CompressQuality::High => 28,
            CompressQuality::Med => 38,
            CompressQuality::Low => 50,
        },
    }
}

impl CompressQuality {
    pub fn label(&self) -> (s: &'static str)
        ensures
            s@ == quality_label(*self),
    {
        match self {
            CompressQuality::High => "High",
            CompressQuality::Med => "Med",
            CompressQuality::Low => "Low",
        }
    }

    /// CQ value for NVENC or CRF value for software encoders.
    pub fn crf(&self, codec: &CompressCodec) -> (v: u8)
        ensures
            v == crf_value(*self, *codec),
    {
        match codec {
            CompressCodec::H264Nvenc => match self {
                CompressQuality::High => 18,
                CompressQuality::Med => 23,
                CompressQuality::Low => 28,
            },
            CompressCodec::HevcNvenc => match self {
                CompressQuality::High => 20,
                CompressQuality::Med => 26,
                CompressQuality::Low => 32,
            },
            CompressCodec::Hevc => match self {
                CompressQuality::High => 22,
                CompressQuality::Med => 28,
                CompressQuality::Low => 34,
            },
            CompressCodec::Av1 => match self {
                CompressQuality::High => 28,
                CompressQuality::Med => 38,
                CompressQuality::Low => 50,
            },
        }
    }
}

/// A copy of an optional string.
pub fn copy_opt_string(o: &Option<String>) -> (r: Option<String>)
    ensures
        r == *o,
{
    match o {
        Some(s) => Some(s.clone()),
        None => None,
    }
}

#[derive(Debug, Clone, PartialEq, Eq)]
pub struct CompressOptions {
    pub codec: CompressCodec,
    pub quality: CompressQuality,
    /// Optional trim start as HH:MM:SS or SS.sss
    pub trim_start: Option<String>,
    /// Optional trim end as HH:MM:SS or SS.sss
    pub trim_end: Option<String>,
}

impl Default for CompressOptions {
    fn default() -> (o: Self)
        ensures
            o.codec == CompressCodec::H264Nvenc,
            o.quality == CompressQuality::High,
            o.trim_start is None,
            o.trim_end is None,
    {
        CompressOptions {
            codec: CompressCodec::H264Nvenc,
            quality: CompressQuality::High,
            trim_start: None,
            trim_end: None,
        }
    }
}

impl CompressOptions {
    pub fn duplicate(&self) -> (r: Self)
        ensures
            r == *self,
    {
        CompressOptions {
            codec: self.codec,
            quality: self.quality,
            trim_start: copy_opt_string(&self.trim_start),
            trim_end: copy_opt_string(&self.trim_end),
        }
    }
}

pub fn copy_effects(v: &Vec<Effect>) -> (r: Vec<Effect>)
    ensures
        r@ == v@,
{
    let mut r: Vec<Effect> = Vec::new();
    let mut i: usize = 0;
    while i < v.len()
        invariant
            i <= v.len(),
            r@ == v@.take(i as int),
        decreases v.len() - i,
    {
        r.push(v[i]);
        i += 1;
        assert(v@.take(i as int) == v@.take((i - 1) as int).push(v@[i - 1]));
    }
    assert(v@.take(v.len() as int) == v@);
    r
}

#[derive(Debug, Clone, PartialEq)]
pub enum JobKind {
    /// Fast Lanczos upscale via ffmpeg — runs immediately after buffer save
    Upscale,
    /// User-triggered post-processing pipeline: sat/sharpen/interp/blur
    PostProcess { effects: Vec<Effect> },
    /// User-triggered compression with codec/quality presets + optional trim
    Compress(CompressOptions),
    /// Upload the source file and store the share URL; `expiry` is a
    /// retention key such as `"24h"`.
    Share { expiry: String },
}

/// Two job kinds are the same: same variant and same contents.
pub open spec fn same_kind(a: JobKind, b: JobKind) -> bool {
    match (a, b) {
        (JobKind::Upscale, JobKind::Upscale) => true,
        (JobKind::PostProcess { effects: x }, JobKind::PostProcess { effects: y }) => x@ == y@,
        (JobKind::Compress(x), JobKind::Compress(y)) => x == y,
        (JobKind::Share { expiry: x }, JobKind::Share { expiry: y }) => x@ == y@,
        _ => false,
    }
}

impl JobKind {
    pub fn duplicate(&self) -> (r: Self)
        ensures
            same_kind(r, *self),
    {
        match self {
            JobKind::Upscale => JobKind::Upscale,
            JobKind::PostProcess { effects } => JobKind::PostProcess { effects: copy_effects(effects) },
            JobKind::Compress(o) => JobKind::Compress(o.duplicate()),
            JobKind::Share { expiry } => JobKind::Share { expiry: expiry.clone() },
        }
    }
}

#[derive(Debug, Clone, PartialEq, Eq)]
pub enum JobStatus {
    Queued,
    Running,
    Done,
    Failed(String),
    Cancelled,
}

pub open spec fn status_is_terminal(s: JobStatus) -> bool {
    s is Done || s is Failed || s is Cancelled
}

impl JobStatus {
    pub fn is_terminal(&self) -> (b: bool)
        ensures
            b == status_is_terminal(*self),
    {
        matches!(self, JobStatus::Done | JobStatus::Failed(_) | JobStatus::Cancelled)
    }

    pub fn duplicate(&self) -> (r: Self)
        ensures
            r == *self,
    {
        match self {
            JobStatus::Queued => JobStatus::Queued,
            JobStatus::Running => JobStatus::Running,
            JobStatus::Done => JobStatus::Done,
            JobStatus::Failed(e) => JobStatus::Failed(e.clone()),
            JobStatus::Cancelled => JobStatus::Cancelled,
        }
    }
}

#[derive(Debug, Clone)]
pub struct Job {
    /// The job's UUID as a 128-bit value.
    pub id: u128,
    pub kind: JobKind,
    pub source: String,
    pub output: String,
    pub status: JobStatus,
    /// 0–100, only meaningful when Running
    pub progress: u8,
    /// Milliseconds since the Unix epoch.
    pub created_at: i64,
    pub finished_at: Option<i64>,
    /// Populated after a Share job completes successfully.
    pub share_url: Option<String>,
    /// Deletion token, populated after a Share job completes.
    pub share_token: Option<String>,
}

/// Two jobs are the same: all fields equal, the kinds by `same_kind`.
pub open spec fn same_job(a: Job, b: Job) -> bool {
    &&& a.id == b.id
    &&& same_kind(a.kind, b.kind)
    &&& a.source == b.source
    &&& a.output == b.output
    &&& a.status == b.status
    &&& a.progress == b.progress
    &&& a.created_at == b.created_at
    &&& a.finished_at == b.finished_at
    &&& a.share_url == b.share_url
    &&& a.share_token == b.share_token
}

pub open spec fn job_kind_label(k: JobKind) -> Seq<char> {
    match k {
        JobKind::Upscale => "Upscale"@,
        JobKind::PostProcess { .. } => "Post-Process"@,
        JobKind::Compress(_) => "Compress"@,
        JobKind::Share { .. } => "Share"@,
    }
}

/// A queued job built from its parts: not started, no progress, nothing shared.
pub open spec fn is_fresh_job(j: Job, id: u128, kind: JobKind, source: Seq<char>, output: Seq<char>, created_at: i64) -> bool {
    &&& j.id == id
    &&& same_kind(j.kind, kind)
    &&& j.source@ == source
    &&& j.output@ == output
    &&& j.status is Queued
    &&& j.progress == 0
    &&& j.created_at == created_at
    &&& j.finished_at is None
    &&& j.share_url is None
    &&& j.share_token is None
}

impl Job {
    /// A queued job with the given id and creation time (milliseconds since
    /// the Unix epoch): not started, no progress, nothing shared.  The caller
    /// draws the id (a random version-4 UUID) and reads the clock.
    pub fn new(id: u128, kind: JobKind, source: String, output: String, created_at: i64) -> (j: Self)
        ensures
            is_fresh_job(j, id, kind, source@, output@, created_at),
            j.kind == kind,
    {
        Job {
            id,
            kind,
            source,
            output,
            status: JobStatus::Queued,
            progress: 0,
            created_at,
            finished_at: None,
            share_url: None,
            share_token: None,
        }
    }

    /// The source file's name, for display.
    pub fn display_name(&self) -> (s: String)
        ensures
            s@ == file_name_or_empty(self.source@),
    {
        file_name_string(self.source.as_str())
    }

    pub fn kind_label(&self) -> (s: &'static str)
        ensures
            s@ == job_kind_label(self.kind),
    {
        match &self.kind {
            JobKind::Upscale => "Upscale",
            JobKind::PostProcess { .. } => "Post-Process",
            JobKind::Compress(_) => "Compress",
            JobKind::Share { .. } => "Share",
        }
    }

    pub fn duplicate(&self) -> (r: Self)
        ensures
            same_job(r, *self),
    {
        Job {
            id: self.id,
            kind: self.kind.duplicate(),
            source: self.source.clone(),
            output: self.output.clone(),
            status: self.status.duplicate(),
            progress: self.progress,
            created_at: self.created_at,
            finished_at: self.finished_at,
            share_url: copy_opt_string(&self.share_url),
            share_token: copy_opt_string(&self.share_token),
        }
    }
}

} // verus!
