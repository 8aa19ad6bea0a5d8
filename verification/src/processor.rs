//! How each job is run: the ffmpeg command line of an upscale, a
//! post-process or a compression, and the bookkeeping of a running job.
use vstd::prelude::*;
use crate::text::{
    first_occurrence, is_ws, trim_start, chars_find, slice_chars, is_ws_char, string_from_chars,
    decimal, contains, hundredths_text, join_with, parse_u32, split_on, strs, views,
    chars_of, join_strings, parse_u32_chars, push_arg, push_char, push_decimal, push_hundredths,
    push_str, push_string, split_chars, str_contains,
};
use crate::job::{
    CompressCodec, CompressOptions, Effect, Job, JobKind, codec_ffmpeg_name, codec_is_nvenc,
    crf_value,
};
use crate::config::Config;

verus! {

// ── Resolution ───────────────────────────────────────────────────────────────

/// Why a resolution setting such as `2560x1440` was refused.
#[derive(Debug, Clone, Copy, PartialEq, Eq, Structural)]
pub enum ResolutionError {
    /// Not exactly two parts around one `x`.
    NotTwoParts,
    /// A part is not a number that fits in 32 bits.
    BadNumber,
}

/// `WIDTHxHEIGHT`: exactly one `x`, each side a `u32`.
pub open spec fn resolution_of(s: Seq<char>) -> Result<(u32, u32), ResolutionError> {
    let parts = split_on(s, 'x');
    if parts.len() != 2 {
        Err(ResolutionError::NotTwoParts)
    } else {
        match (parse_u32(parts[0]), parse_u32(parts[1])) {
            (Some(w), Some(h)) => Ok((w, h)),
            _ => Err(ResolutionError::BadNumber),
        }
    }
}

pub fn parse_resolution(s: &str) -> (r: Result<(u32, u32), ResolutionError>)
    ensures
        r == resolution_of(s@),
{
    let v = chars_of(s);
    let parts = split_chars(&v, 'x');
    if parts.len() != 2 {
        return Err(ResolutionError::NotTwoParts);
    }
    assert(views(parts@)[0] == parts@[0]@ && views(parts@)[1] == parts@[1]@);
    match (parse_u32_chars(&parts[0]), parse_u32_chars(&parts[1])) {
        (Some(w), Some(h)) => Ok((w, h)),
        _ => Err(ResolutionError::BadNumber),
    }
}

// ── Upscale ──────────────────────────────────────────────────────────────────

/// `scale=W:H:flags=FILTER`.
pub open spec fn scale_filter(w: u32, h: u32, filter: Seq<char>) -> Seq<char> {
    "scale="@ + decimal(w as nat) + seq![':'] + decimal(h as nat) + ":flags="@ + filter
}

/// The ffmpeg arguments of the raw Lanczos upscale pass.
pub open spec fn upscale_args_of(source: Seq<char>, output: Seq<char>, c: Config) -> Result<Seq<Seq<char>>, ResolutionError> {
    match resolution_of(c.upscale_resolution@) {
        Err(e) => Err(e),
        Ok((w, h)) => {
            let cq = decimal(c.nvenc_quality as nat);
            let head = seq![
                "-y"@, "-hwaccel"@, "auto"@, "-i"@, source, "-vf"@,
                scale_filter(w, h, c.upscale_filter@), "-c:v"@, c.encoder@, "-c:a"@, "copy"@
            ];
            let rate = if contains(c.encoder@, "nvenc"@) {
                seq!["-cq"@, cq, "-preset"@, "p4"@]
            } else {
                seq!["-crf"@, cq]
            };
            Ok(head + rate + seq![output])
        },
    }
}

pub fn upscale_args(source: &str, output: &str, config: &Config) -> (r: Result<Vec<String>, ResolutionError>)
    ensures
        match r {
            Ok(v) => upscale_args_of(source@, output@, *config) == Ok::<Seq<Seq<char>>, ResolutionError>(strs(v@)),
            Err(e) => upscale_args_of(source@, output@, *config) == Err::<Seq<Seq<char>>, ResolutionError>(e),
        },
{
    let (w, h) = match parse_resolution(config.upscale_resolution.as_str()) {
        Ok(wh) => wh,
        Err(e) => return Err(e),
    };
    let mut vf = String::new();
    push_str(&mut vf, "scale=");
    push_decimal(&mut vf, w as u64);
    push_char(&mut vf, ':');
    push_decimal(&mut vf, h as u64);
    push_str(&mut vf, ":flags=");
    push_str(&mut vf, config.upscale_filter.as_str());
    assert(vf@ =~= scale_filter(w, h, config.upscale_filter@));
    let mut args: Vec<String> = Vec::new();
    push_arg(&mut args, "-y");
    push_arg(&mut args, "-hwaccel");
    push_arg(&mut args, "auto");
    push_arg(&mut args, "-i");
    push_arg(&mut args, source);
    push_arg(&mut args, "-vf");
    push_string(&mut args, vf);
    push_arg(&mut args, "-c:v");
    push_arg(&mut args, config.encoder.as_str());
    push_arg(&mut args, "-c:a");
    push_arg(&mut args, "copy");
    let mut cq = String::new();
    push_decimal(&mut cq, config.nvenc_quality as u64);
    if str_contains(config.encoder.as_str(), "nvenc") {
        push_arg(&mut args, "-cq");
        push_string(&mut args, cq);
        push_arg(&mut args, "-preset");
        push_arg(&mut args, "p4");
    } else {
        push_arg(&mut args, "-crf");
        push_string(&mut args, cq);
    }
    push_arg(&mut args, output);
    proof {
        let cqs = decimal(config.nvenc_quality as nat);
        let head = seq![
            "-y"@, "-hwaccel"@, "auto"@, "-i"@, source@, "-vf"@,
            scale_filter(w, h, config.upscale_filter@), "-c:v"@, config.encoder@, "-c:a"@, "copy"@
        ];
        let rate = if contains(config.encoder@, "nvenc"@) {
            seq!["-cq"@, cqs, "-preset"@, "p4"@]
        } else {
            seq!["-crf"@, cqs]
        };
        assert(strs(args@) =~= head + rate + seq![output@]);
    }
    Ok(args)
}

// ── PostProcess ──────────────────────────────────────────────────────────────

/// The target fps of the first interpolation effect.
pub open spec fn first_interp(s: Seq<Effect>) -> Option<u32>
    decreases s.len(),
{
    if s.len() == 0 {
        None
    } else {
        match s[0] {
            Effect::Interpolate { target_fps } => Some(target_fps),
            _ => first_interp(s.drop_first()),
        }
    }
}

/// The shutter angle of the first motion-blur effect.
pub open spec fn first_blur(s: Seq<Effect>) -> Option<u32>
    decreases s.len(),
{
    if s.len() == 0 {
        None
    } else {
        match s[0] {
            Effect::MotionBlur { shutter_angle } => Some(shutter_angle),
            _ => first_blur(s.drop_first()),
        }
    }
}

pub open spec fn minterpolate_filter(fps: u32) -> Seq<char> {
    "minterpolate=fps="@ + decimal(fps as nat) + ":mi_mode=mci:mc_mode=aobmc:vsbmc=1"@
}

/// Frames blended for a shutter angle at the given frame rate:
/// `angle / 360 * fps / 60`, rounded half away from zero, at least 2.
pub open spec fn blend_frames(angle: u32, fps: u32) -> nat {
    let r = (2 * angle * fps + 21600) / 43200;
    let capped = if r > u32::MAX { u32::MAX as nat } else { r as nat };
    if capped < 2 {
        2
    } else {
        capped
    }
}

/// The frame-rate filters: motion blur (interpolate up, blend, resample) or
/// interpolation alone.
pub open spec fn motion_filters(s: Seq<Effect>) -> Seq<Seq<char>> {
    match first_blur(s) {
        Some(angle) => {
            let blur_fps = match first_interp(s) {
                Some(f) => f,
                None => 120,
            };
            let out_fps = match first_interp(s) {
                Some(f) => f,
                None => 60,
            };
            seq![
                minterpolate_filter(blur_fps),
                "tmix=frames="@ + decimal(blend_frames(angle, blur_fps)) + ":weights=1"@,
                "fps="@ + decimal(out_fps as nat)
            ]
        },
        None => match first_interp(s) {
            Some(fps) => seq![minterpolate_filter(fps)],
            None => Seq::empty(),
        },
    }
}

/// The colour filter of one effect: saturation away from neutral by more than
/// 0.01, or a positive sharpen strength.
pub open spec fn grade_filter(e: Effect) -> Seq<Seq<char>> {
    match e {
        Effect::Saturation(h) => if h > 101 || h < 99 {
            seq!["eq=saturation="@ + hundredths_text(h as nat)]
        } else {
            Seq::empty()
        },
        Effect::Sharpen(h) => if h > 0 {
            seq!["unsharp=5:5:"@ + hundredths_text(h as nat) + ":5:5:0.0"@]
        } else {
            Seq::empty()
        },
        _ => Seq::empty(),
    }
}

/// An effect that changes the frame rate: interpolation or motion blur.
pub open spec fn is_motion(e: Effect) -> bool {
    e is Interpolate || e is MotionBlur
}

/// The filters the effect at position `i` contributes where it stands: its
/// colour filter, or, at the first frame-rate effect of the list, the whole
/// frame-rate group (which the later frame-rate effects share).
pub open spec fn filters_at(s: Seq<Effect>, i: int) -> Seq<Seq<char>> {
    if is_motion(s[i]) {
        if forall|j: int| 0 <= j < i ==> !is_motion(#[trigger] s[j]) {
            motion_filters(s)
        } else {
            Seq::empty()
        }
    } else {
        grade_filter(s[i])
    }
}

/// The filters of the first `k` effects, in the order they are listed.
pub open spec fn ordered_filters(s: Seq<Effect>, k: nat) -> Seq<Seq<char>>
    decreases k,
{
    if k == 0 {
        Seq::empty()
    } else {
        ordered_filters(s, (k - 1) as nat) + filters_at(s, k - 1)
    }
}

/// The `-vf` filter chain of a list of effects, applied in the order listed.
pub open spec fn effects_vf(s: Seq<Effect>) -> Seq<char> {
    join_with(ordered_filters(s, s.len()), ","@)
}

fn find_interp(effects: &Vec<Effect>) -> (r: Option<u32>)
    ensures
        r == first_interp(effects@),
{
    let mut i: usize = 0;
    assert(effects@.skip(0) == effects@);
    while i < effects.len()
        invariant
            i <= effects.len(),
            first_interp(effects@) == first_interp(effects@.skip(i as int)),
        decreases effects.len() - i,
    {
        assert(effects@.skip(i as int).drop_first() == effects@.skip(i + 1));
        assert(effects@.skip(i as int)[0] == effects@[i as int]);
        match effects[i] {
            Effect::Interpolate { target_fps } => return Some(target_fps),
            _ => {},
        }
        i += 1;
    }
    None
}

fn find_blur(effects: &Vec<Effect>) -> (r: Option<u32>)
    ensures
        r == first_blur(effects@),
{
    let mut i: usize = 0;
    assert(effects@.skip(0) == effects@);
    while i < effects.len()
        invariant
            i <= effects.len(),
            first_blur(effects@) == first_blur(effects@.skip(i as int)),
        decreases effects.len() - i,
    {
        assert(effects@.skip(i as int).drop_first() == effects@.skip(i + 1));
        assert(effects@.skip(i as int)[0] == effects@[i as int]);
        match effects[i] {
            Effect::MotionBlur { shutter_angle } => return Some(shutter_angle),
            _ => {},
        }
        i += 1;
    }
    None
}

fn minterpolate(fps: u32) -> (s: String)
    ensures
        s@ == minterpolate_filter(fps),
{
    let mut s = String::new();
    push_str(&mut s, "minterpolate=fps=");
    push_decimal(&mut s, fps as u64);
    push_str(&mut s, ":mi_mode=mci:mc_mode=aobmc:vsbmc=1");
    s
}

fn blend_count(angle: u32, fps: u32) -> (n: u32)
    ensures
        n == blend_frames(angle, fps),
{
    let a = angle as u128;
    let f = fps as u128;
    assert(a * f <= 0xFFFF_FFFFu128 * 0xFFFF_FFFFu128) by (nonlinear_arith)
        requires
            a <= 0xFFFF_FFFFu128,
            f <= 0xFFFF_FFFFu128,
    ;
    let r: u128 = (2 * (a * f) + 21600) / 43200;
    assert(2 * (a * f) == 2 * angle * fps) by (nonlinear_arith)
        requires
            a == angle,
            f == fps,
    ;
    let capped: u32 = if r > 0xFFFF_FFFF {
        0xFFFF_FFFF
    } else {
        r as u32
    };
    if capped < 2 {
        2
    } else {
        capped
    }
}

/// The `-vf` filter string of an ordered list of effects: each effect's
/// filters in the order listed, the frame-rate group (interpolation, and
/// motion blur built on it) standing at the first frame-rate effect.
pub fn build_effects_vf(effects: &Vec<Effect>) -> (vf: String)
    ensures
        vf@ == effects_vf(effects@),
{
    let mut motion: Vec<String> = Vec::new();
    let interp = find_interp(effects);
    let blur = find_blur(effects);
    match blur {
        Some(angle) => {
            let blur_fps = match interp {
                Some(f) => f,
                None => 120,
            };
            push_string(&mut motion, minterpolate(blur_fps));
            let mut t = String::new();
            push_str(&mut t, "tmix=frames=");
            push_decimal(&mut t, blend_count(angle, blur_fps) as u64);
            push_str(&mut t, ":weights=1");
            push_string(&mut motion, t);
            let out_fps = match interp {
                Some(f) => f,
                None => 60,
            };
            let mut f = String::new();
            push_str(&mut f, "fps=");
            push_decimal(&mut f, out_fps as u64);
            push_string(&mut motion, f);
        },
        None => {
            match interp {
                Some(fps) => push_string(&mut motion, minterpolate(fps)),
                None => {},
            }
        },
    }
    assert(strs(motion@) =~= motion_filters(effects@));
    let mut filters: Vec<String> = Vec::new();
    let mut seen_motion = false;
    let mut i: usize = 0;
    while i < effects.len()
        invariant
            i <= effects.len(),
            strs(motion@) == motion_filters(effects@),
            strs(filters@) == ordered_filters(effects@, i as nat),
            seen_motion == (exists|j: int| 0 <= j < i && is_motion(#[trigger] effects@[j])),
        decreases effects.len() - i,
    {
        let ghost before = strs(filters@);
        match effects[i] {
            Effect::Saturation(h) => {
                if h > 101 || h < 99 {
                    let mut s = String::new();
                    push_str(&mut s, "eq=saturation=");
                    push_hundredths(&mut s, h);
                    push_string(&mut filters, s);
                }
            },
            Effect::Sharpen(h) => {
                if h > 0 {
                    let mut s = String::new();
                    push_str(&mut s, "unsharp=5:5:");
                    push_hundredths(&mut s, h);
                    push_str(&mut s, ":5:5:0.0");
                    push_string(&mut filters, s);
                }
            },
            _ => {
                if !seen_motion {
                    append_strings(&mut filters, &motion);
                    seen_motion = true;
                }
            },
        }
        proof {
            if is_motion(effects@[i as int]) {
                if !(exists|j: int| 0 <= j < i && is_motion(#[trigger] effects@[j])) {
                    assert(forall|j: int| 0 <= j < i ==> !is_motion(#[trigger] effects@[j]));
                } else {
                    let j = choose|j: int| 0 <= j < i && is_motion(#[trigger] effects@[j]);
                    assert(!(forall|k: int| 0 <= k < i ==> !is_motion(#[trigger] effects@[k])));
                }
            }
            assert(strs(filters@) =~= before + filters_at(effects@, i as int));
        }
        i += 1;
        assert(seen_motion == (exists|j: int| 0 <= j < i && is_motion(#[trigger] effects@[j]))) by {
            if is_motion(effects@[i - 1]) {
                assert(effects@[i - 1] is Interpolate || effects@[i - 1] is MotionBlur);
            }
        }
    }
    join_strings(&filters, ",")
}

/// Appends `more` to `v`.
fn append_strings(v: &mut Vec<String>, more: &Vec<String>)
    ensures
        strs(final(v)@) == strs(old(v)@) + strs(more@),
{
    let ghost start = strs(v@);
    let mut i: usize = 0;
    while i < more.len()
        invariant
            i <= more.len(),
            strs(v@) == start + strs(more@.take(i as int)),
        decreases more.len() - i,
    {
        assert(more@.take((i + 1) as int) =~= more@.take(i as int).push(more@[i as int]));
        push_string(v, more[i].clone());
        i += 1;
        assert(strs(v@) =~= start + strs(more@.take(i as int)));
    }
    assert(more@.take(more.len() as int) =~= more@);
}

/// The ffmpeg arguments of a post-processing job: CPU filters at source
/// resolution, re-encoded with NVENC H.264 at CQ 18, audio copied.
pub open spec fn post_process_args_of(source: Seq<char>, output: Seq<char>, effects: Seq<Effect>) -> Seq<Seq<char>> {
    let vf = effects_vf(effects);
    seq!["-y"@, "-i"@, source] + (if vf.len() > 0 {
        seq!["-vf"@, vf]
    } else {
        Seq::empty()
    }) + seq!["-c:v"@, "h264_nvenc"@, "-cq"@, "18"@, "-preset"@, "p4"@, "-c:a"@, "copy"@, output]
}

pub fn post_process_args(source: &str, output: &str, effects: &Vec<Effect>) -> (v: Vec<String>)
    ensures
        strs(v@) == post_process_args_of(source@, output@, effects@),
{
    let vf = build_effects_vf(effects);
    let mut args: Vec<String> = Vec::new();
    push_arg(&mut args, "-y");
    push_arg(&mut args, "-i");
    push_arg(&mut args, source);
    if !vf.as_str().is_empty() {
        push_arg(&mut args, "-vf");
        push_string(&mut args, vf);
    }
    push_arg(&mut args, "-c:v");
    push_arg(&mut args, "h264_nvenc");
    push_arg(&mut args, "-cq");
    push_arg(&mut args, "18");
    push_arg(&mut args, "-preset");
    push_arg(&mut args, "p4");
    push_arg(&mut args, "-c:a");
    push_arg(&mut args, "copy");
    push_arg(&mut args, output);
    assert(strs(args@) =~= post_process_args_of(source@, output@, effects@));
    args
}

// ── Compress ─────────────────────────────────────────────────────────────────

/// The ffmpeg arguments of a compression job: input-side seek to the trim
/// start, output-side trim end, the codec's rate control, audio copied.
pub open spec fn compress_args_of(source: Seq<char>, output: Seq<char>, o: CompressOptions) -> Seq<Seq<char>> {
    let crf = decimal(crf_value(o.quality, o.codec) as nat);
    let start = match o.trim_start {
        Some(s) => seq!["-ss"@, s@],
        None => Seq::empty(),
    };
    let end = match o.trim_end {
        Some(e) => seq!["-to"@, e@],
        None => Seq::empty(),
    };
    let rate = if codec_is_nvenc(o.codec) {
        seq!["-cq"@, crf, "-preset"@, "p4"@]
    } else if o.codec is Av1 {
        seq!["-crf"@, crf, "-b:v"@, "0"@, "-cpu-used"@, "4"@]
    } else {
        seq!["-crf"@, crf, "-preset"@, "medium"@]
    };
    seq!["-y"@] + start + seq!["-i"@, source] + end + seq!["-c:v"@, codec_ffmpeg_name(o.codec), "-c:a"@, "copy"@] + rate + seq![output]
}

pub fn compress_args(source: &str, output: &str, opts: &CompressOptions) -> (v: Vec<String>)
    ensures
        strs(v@) == compress_args_of(source@, output@, *opts),
{
    let mut crf = String::new();
    push_decimal(&mut crf, opts.quality.crf(&opts.codec) as u64);
    let mut args: Vec<String> = Vec::new();
    push_arg(&mut args, "-y");
    match &opts.trim_start {
        Some(s) => {
            push_arg(&mut args, "-ss");
            push_arg(&mut args, s.as_str());
        },
        None => {},
    }
    push_arg(&mut args, "-i");
    push_arg(&mut args, source);
    match &opts.trim_end {
        Some(e) => {
            push_arg(&mut args, "-to");
            push_arg(&mut args, e.as_str());
        },
        None => {},
    }
    push_arg(&mut args, "-c:v");
    push_arg(&mut args, opts.codec.ffmpeg_codec());
    push_arg(&mut args, "-c:a");
    push_arg(&mut args, "copy");
    if opts.codec.is_nvenc() {
        push_arg(&mut args, "-cq");
        push_string(&mut args, crf);
        push_arg(&mut args, "-preset");
        push_arg(&mut args, "p4");
    } else if matches!(opts.codec, CompressCodec::Av1) {
        push_arg(&mut args, "-crf");
        push_string(&mut args, crf);
        push_arg(&mut args, "-b:v");
        push_arg(&mut args, "0");
        push_arg(&mut args, "-cpu-used");
        push_arg(&mut args, "4");
    } else {
        push_arg(&mut args, "-crf");
        push_string(&mut args, crf);
        push_arg(&mut args, "-preset");
        push_arg(&mut args, "medium");
    }
    push_arg(&mut args, output);
    assert(strs(args@) =~= compress_args_of(source@, output@, *opts));
    args
}

// ── Dispatch ─────────────────────────────────────────────────────────────────

/// What running a job takes.
#[derive(Debug, Clone)]
pub enum JobPlan {
    /// Run ffmpeg with these arguments; the last one is the output file.
    Ffmpeg(Vec<String>),
    /// Upload the source file with this retention key.
    Upload { source: String, expiry: String },
    /// The configured upscale resolution is not usable.
    BadResolution(ResolutionError),
}

/// How a job is run, by its kind.
pub fn plan_job(job: &Job, config: &Config) -> (p: JobPlan)
    ensures
        match job.kind {
            JobKind::Upscale => match upscale_args_of(job.source@, job.output@, *config) {
                Ok(a) => p matches JobPlan::Ffmpeg(v) && strs(v@) == a,
                Err(e) => p == JobPlan::BadResolution(e),
            },
            JobKind::PostProcess { effects } => p matches JobPlan::Ffmpeg(v) && strs(v@) == post_process_args_of(job.source@, job.output@, effects@),
            JobKind::Compress(o) => p matches JobPlan::Ffmpeg(v) && strs(v@) == compress_args_of(job.source@, job.output@, o),
            JobKind::Share { expiry } => p matches JobPlan::Upload { source, expiry: e } && source@ == job.source@ && e@ == expiry@,
        },
{
    match &job.kind {
        JobKind::Upscale => match upscale_args(job.source.as_str(), job.output.as_str(), config) {
            Ok(v) => JobPlan::Ffmpeg(v),
            Err(e) => JobPlan::BadResolution(e),
        },
        JobKind::PostProcess { effects } => JobPlan::Ffmpeg(post_process_args(job.source.as_str(), job.output.as_str(), effects)),
        JobKind::Compress(o) => JobPlan::Ffmpeg(compress_args(job.source.as_str(), job.output.as_str(), o)),
        JobKind::Share { expiry } => JobPlan::Upload { source: job.source.clone(), expiry: expiry.clone() },
    }
}

// ── Reading ffmpeg's output ──────────────────────────────────────────────────
//
// ffmpeg reports on stderr the clip's length (`  Duration: 00:01:02.50, ...`)
// and, as it goes, the time it has reached (`... time=00:00:31.25 ...`).
// The text of each time is found here; its numbers (which have fractions)
// are read by the program around this library.

/// The text after the first occurrence of `p` in `s`.
pub open spec fn after_first(s: Seq<char>, p: Seq<char>) -> Option<Seq<char>> {
    match first_occurrence(s, p) {
        Some(i) => Some(s.skip(i + p.len())),
        None => None,
    }
}

/// The clip length's text on a `Duration:` line: what follows the marker,
/// up to the first comma.
pub open spec fn duration_text_of(line: Seq<char>) -> Option<Seq<char>> {
    match after_first(line, "  Duration: "@) {
        Some(rest) => Some(split_on(rest, ',')[0]),
        None => None,
    }
}

/// The leading run of characters that are not white space.
pub open spec fn take_until_ws(s: Seq<char>) -> Seq<char>
    decreases s.len(),
{
    if s.len() == 0 || is_ws(s[0]) {
        Seq::empty()
    } else {
        seq![s[0]] + take_until_ws(s.drop_first())
    }
}

/// The first white-space-separated word of `s` (`split_whitespace().next()`).
pub open spec fn first_word(s: Seq<char>) -> Option<Seq<char>> {
    let t = trim_start(s);
    if t.len() == 0 {
        None
    } else {
        Some(take_until_ws(t))
    }
}

/// The reached time's text on a progress line: the first word after `time=`.
pub open spec fn time_text_of(line: Seq<char>) -> Option<Seq<char>> {
    match after_first(line, "time="@) {
        Some(rest) => first_word(rest),
        None => None,
    }
}

/// `HH:MM:SS.ss` cut at its colons; there must be exactly three fields.
pub open spec fn hhmmss_fields_of(s: Seq<char>) -> Option<(Seq<char>, Seq<char>, Seq<char>)> {
    let parts = split_on(s, ':');
    if parts.len() == 3 {
        Some((parts[0], parts[1], parts[2]))
    } else {
        None
    }
}

/// The text after the first `marker` in `line`.
fn text_after(line: &Vec<char>, marker: &str) -> (r: Option<Vec<char>>)
    ensures
        match r {
            Some(t) => after_first(line@, marker@) == Some(t@),
            None => after_first(line@, marker@) is None,
        },
{
    let m = chars_of(marker);
    match chars_find(line, &m) {
        Some(i) => {
            let n: usize = m.len();
            let total: usize = line.len();
            assert(i + n <= total);
            let rest = slice_chars(line, i + n, total);
            assert(rest@ == line@.skip(i + m@.len()));
            Some(rest)
        },
        None => None,
    }
}

pub fn ffmpeg_duration_text(line: &str) -> (r: Option<String>)
    ensures
        match r {
            Some(t) => duration_text_of(line@) == Some(t@),
            None => duration_text_of(line@) is None,
        },
{
    let v = chars_of(line);
    match text_after(&v, "  Duration: ") {
        Some(rest) => {
            let parts = split_chars(&rest, ',');
            proof {
                lemma_split_on_nonempty(rest@, ',');
                assert(views(parts@)[0] == parts@[0]@);
            }
            Some(string_from_chars(&parts[0]))
        },
        None => None,
    }
}

proof fn lemma_split_on_nonempty(s: Seq<char>, c: char)
    ensures
        split_on(s, c).len() >= 1,
    decreases s.len(),
{
    if s.len() > 0 {
        lemma_split_on_nonempty(s.drop_last(), c);
    }
}

fn first_word_chars(v: &Vec<char>) -> (r: Option<Vec<char>>)
    ensures
        match r {
            Some(w) => first_word(v@) == Some(w@),
            None => first_word(v@) is None,
        },
{
    let mut i: usize = 0;
    assert(v@.skip(0) == v@);
    while i < v.len() && is_ws_char(v[i])
        invariant
            i <= v.len(),
            trim_start(v@) == trim_start(v@.skip(i as int)),
        decreases v.len() - i,
    {
        assert(v@.skip(i as int).drop_first() == v@.skip(i + 1));
        i += 1;
    }
    if i == v.len() {
        assert(v@.skip(i as int).len() == 0);
        return None;
    }
    let ghost t = v@.skip(i as int);
    assert(trim_start(t) == t);
    let start = i;
    while i < v.len() && !is_ws_char(v[i])
        invariant
            start <= i <= v.len(),
            t == v@.skip(start as int),
            take_until_ws(t) == v@.subrange(start as int, i as int) + take_until_ws(v@.skip(i as int)),
        decreases v.len() - i,
    {
        let ghost u = v@.skip(i as int);
        assert(u.drop_first() == v@.skip(i + 1));
        assert(v@.subrange(start as int, i + 1) == v@.subrange(start as int, i as int) + seq![v@[i as int]]);
        i += 1;
    }
    assert(take_until_ws(v@.skip(i as int)) == Seq::<char>::empty());
    assert(v@.subrange(start as int, i as int) + Seq::<char>::empty() == v@.subrange(start as int, i as int));
    Some(slice_chars(v, start, i))
}

pub fn ffmpeg_time_text(line: &str) -> (r: Option<String>)
    ensures
        match r {
            Some(t) => time_text_of(line@) == Some(t@),
            None => time_text_of(line@) is None,
        },
{
    let v = chars_of(line);
    match text_after(&v, "time=") {
        Some(rest) => match first_word_chars(&rest) {
            Some(w) => Some(string_from_chars(&w)),
            None => None,
        },
        None => None,
    }
}

pub fn hhmmss_fields(s: &str) -> (r: Option<(String, String, String)>)
    ensures
        match r {
            Some((h, m, x)) => hhmmss_fields_of(s@) == Some((h@, m@, x@)),
            None => hhmmss_fields_of(s@) is None,
        },
{
    let v = chars_of(s);
    let parts = split_chars(&v, ':');
    if parts.len() != 3 {
        return None;
    }
    proof {
        assert(views(parts@)[0] == parts@[0]@);
        assert(views(parts@)[1] == parts@[1]@);
        assert(views(parts@)[2] == parts@[2]@);
    }
    Some((string_from_chars(&parts[0]), string_from_chars(&parts[1]), string_from_chars(&parts[2])))
}

// ── Progress ─────────────────────────────────────────────────────────────────

/// Remembers the last progress value sent and the last one logged, so that a
/// running job broadcasts only when its whole percentage changes and logs
/// every 25 points.
pub struct ProgressTracker {
    pub last_pct: Option<u8>,
    pub last_logged: u8,
}

impl ProgressTracker {
    pub fn new() -> (t: Self)
        ensures
            t.last_pct is None,
            t.last_logged == 0,
    {
        ProgressTracker { last_pct: None, last_logged: 0 }
    }

    /// Takes a new percentage (at most 99 while running); returns whether to
    /// broadcast it and whether to log it.
    pub fn observe(&mut self, pct: u8) -> (r: (bool, bool))
        requires
            pct <= 99,
            old(self).last_logged <= 99,
        ensures
            r.0 == (old(self).last_pct != Some(pct)),
            r.1 == (r.0 && pct >= old(self).last_logged + 25),
            final(self).last_pct == Some(pct),
            final(self).last_logged == if r.1 { pct } else { old(self).last_logged },
            final(self).last_logged <= 99,
    {
        let changed = match self.last_pct {
            Some(p) => p != pct,
            None => true,
        };
        self.last_pct = Some(pct);
        let log = changed && pct >= self.last_logged + 25;
        if log {
            self.last_logged = pct;
        }
        (changed, log)
    }
}

} // verus!
