//! The state of the clip-manager TUI: the two lists, their selection, the
//! focus, and the three dialogs (post-process, compress, share), with every
//! change a key press or a mouse event makes to them.  Drawing is done by the
//! program around this library.
use vstd::prelude::*;
use crate::text::{decimal, hundredths_text, trim, owned, push_char, push_decimal, push_hundredths, str_eq, trim_str};
use crate::job::{CompressCodec, CompressOptions, CompressQuality, Effect, Job};
use crate::clips::Clip;
use crate::share::{expiry_key, EXPIRY_COUNT};

verus! {

// ── Focus ──────────────────────────────────────────────────────────────────────

#[derive(PartialEq, Eq, Clone, Copy, Debug, Structural)]
pub enum Focus {
    Jobs,
    Clips,
}

/// A screen rectangle (columns and rows).
#[derive(PartialEq, Eq, Clone, Copy, Debug, Default, Structural)]
pub struct Rect {
    pub x: u16,
    pub y: u16,
    pub width: u16,
    pub height: u16,
}

/// A rectangle that lies on the screen: its far edges fit in 16 bits.
pub open spec fn rect_fits(r: Rect) -> bool {
    r.x + r.width <= u16::MAX && r.y + r.height <= u16::MAX
}

pub open spec fn in_rect(r: Rect, col: u16, row: u16) -> bool {
    r.x <= col < r.x + r.width && r.y <= row < r.y + r.height
}

pub fn rect_contains(r: Rect, col: u16, row: u16) -> (b: bool)
    requires
        rect_fits(r),
    ensures
        b == in_rect(r, col, row),
{
    col >= r.x && col < r.x + r.width && row >= r.y && row < r.y + r.height
}

// ── Modal states ──────────────────────────────────────────────────────────────

/// The adjustable value of an effect.  Strengths shown with two decimals are
/// held in hundredths.
#[derive(Clone, Copy, Debug, PartialEq, Eq, Structural)]
pub enum EffectValue {
    Hundredths { val: u32, min: u32, max: u32, step: u32 },
    Int { val: u32, min: u32, max: u32, step: u32 },
}

/// A value whose bounds make stepping safe: `min <= val <= max` and one
/// step above `max` still fits.
pub open spec fn value_wf(v: EffectValue) -> bool {
    match v {
        EffectValue::Hundredths { val, min, max, step } => min <= val <= max && max + step <= u32::MAX,
        EffectValue::Int { val, min, max, step } => min <= val <= max && max + step <= u32::MAX,
    }
}

/// One step up, stopping at `max`.
pub open spec fn inc_value(v: EffectValue) -> EffectValue {
    match v {
        EffectValue::Hundredths { val, min, max, step } => EffectValue::Hundredths {
            val: if val + step < max { (val + step) as u32 } else { max },
            min,
            max,
            step,
        },
        EffectValue::Int { val, min, max, step } => EffectValue::Int {
            val: if val + step < max { (val + step) as u32 } else { max },
            min,
            max,
            step,
        },
    }
}

/// One step down, stopping at `min`.
pub open spec fn dec_value(v: EffectValue) -> EffectValue {
    match v {
        EffectValue::Hundredths { val, min, max, step } => EffectValue::Hundredths {
            val: if val - step > min { (val - step) as u32 } else { min },
            min,
            max,
            step,
        },
        EffectValue::Int { val, min, max, step } => EffectValue::Int {
            val: if val - step > min { (val - step) as u32 } else { min },
            min,
            max,
            step,
        },
    }
}

pub open spec fn value_text(v: EffectValue) -> Seq<char> {
    match v {
        EffectValue::Hundredths { val, .. } => hundredths_text(val as nat),
        EffectValue::Int { val, .. } => decimal(val as nat),
    }
}

pub open spec fn value_of(v: EffectValue) -> u32 {
    match v {
        EffectValue::Hundredths { val, .. } => val,
        EffectValue::Int { val, .. } => val,
    }
}

impl EffectValue {
    pub fn inc(&mut self)
        requires
            value_wf(*old(self)),
        ensures
            *final(self) == inc_value(*old(self)),
            value_wf(*final(self)),
    {
        match *self {
            EffectValue::Hundredths { val, min, max, step } => {
                let v = if val + step < max { val + step } else { max };
                *self = EffectValue::Hundredths { val: v, min, max, step };
            },
            EffectValue::Int { val, min, max, step } => {
                let v = if val + step < max { val + step } else { max };
                *self = EffectValue::Int { val: v, min, max, step };
            },
        }
    }

    pub fn dec(&mut self)
        requires
            value_wf(*old(self)),
        ensures
            *final(self) == dec_value(*old(self)),
            value_wf(*final(self)),
    {
        match *self {
            EffectValue::Hundredths { val, min, max, step } => {
                let v = if val >= step && val - step > min { val - step } else { min };
                *self = EffectValue::Hundredths { val: v, min, max, step };
            },
            EffectValue::Int { val, min, max, step } => {
                let v = if val >= step && val - step > min { val - step } else { min };
                *self = EffectValue::Int { val: v, min, max, step };
            },
        }
    }

    /// `1.30` for a strength, `120` for a count.
    pub fn display(&self) -> (s: String)
        ensures
            s@ == value_text(*self),
    {
        let mut s = String::new();
        match *self {
            EffectValue::Hundredths { val, .. } => push_hundredths(&mut s, val),
            EffectValue::Int { val, .. } => push_decimal(&mut s, val as u64),
        }
        s
    }
}

#[derive(Clone, Debug)]
pub struct EffectRow {
    pub label: &'static str,
    pub enabled: bool,
    pub value: EffectValue,
}

/// The effect a row stands for when it is enabled: a strength for the
/// `Saturation` and `Sharpen` rows, a count for `Interpolate` and `MotionBlur`.
pub open spec fn row_effect(r: EffectRow) -> Option<Effect> {
    if !r.enabled {
        None
    } else {
        match r.value {
            EffectValue::Hundredths { val, .. } => if r.label@ == "Saturation"@ {
                Some(Effect::Saturation(val))
            } else if r.label@ == "Sharpen"@ {
                Some(Effect::Sharpen(val))
            } else {
                None
            },
            EffectValue::Int { val, .. } => if r.label@ == "Interpolate"@ {
                Some(Effect::Interpolate { target_fps: val })
            } else if r.label@ == "MotionBlur"@ {
                Some(Effect::MotionBlur { shutter_angle: val })
            } else {
                None
            },
        }
    }
}

impl EffectRow {
    pub fn to_effect(&self) -> (e: Option<Effect>)
        ensures
            e == row_effect(*self),
    {
        if !self.enabled {
            return None;
        }
        match self.value {
            EffectValue::Hundredths { val, .. } => {
                if str_eq(self.label, "Saturation") {
                    Some(Effect::Saturation(val))
                } else if str_eq(self.label, "Sharpen") {
                    Some(Effect::Sharpen(val))
                } else {
                    None
                }
            },
            EffectValue::Int { val, .. } => {
                if str_eq(self.label, "Interpolate") {
                    Some(Effect::Interpolate { target_fps: val })
                } else if str_eq(self.label, "MotionBlur") {
                    Some(Effect::MotionBlur { shutter_angle: val })
                } else {
                    None
                }
            },
        }
    }
}

/// The rows the post-process dialog opens with: saturation 1.30 on; sharpen
/// 1.00, interpolation 120 fps and motion blur 180° off.
pub open spec fn default_rows_of(rows: Seq<EffectRow>) -> bool {
    &&& rows.len() == 4
    &&& rows[0].label@ == "Saturation"@ && rows[0].enabled && rows[0].value == EffectValue::Hundredths { val: 130, min: 50, max: 300, step: 5 }
    &&& rows[1].label@ == "Sharpen"@ && !rows[1].enabled && rows[1].value == EffectValue::Hundredths { val: 100, min: 0, max: 500, step: 10 }
    &&& rows[2].label@ == "Interpolate"@ && !rows[2].enabled && rows[2].value == EffectValue::Int { val: 120, min: 60, max: 120, step: 30 }
    &&& rows[3].label@ == "MotionBlur"@ && !rows[3].enabled && rows[3].value == EffectValue::Int { val: 180, min: 45, max: 360, step: 15 }
}

fn default_effect_rows() -> (rows: Vec<EffectRow>)
    ensures
        default_rows_of(rows@),
{
    let mut rows: Vec<EffectRow> = Vec::new();
    rows.push(EffectRow {
        label: "Saturation",
        enabled: true,
        value: EffectValue::Hundredths { val: 130, min: 50, max: 300, step: 5 },
    });
    rows.push(EffectRow {
        label: "Sharpen",
        enabled: false,
        value: EffectValue::Hundredths { val: 100, min: 0, max: 500, step: 10 },
    });
    rows.push(EffectRow {
        label: "Interpolate",
        enabled: false,
        value: EffectValue::Int { val: 120, min: 60, max: 120, step: 30 },
    });
    rows.push(EffectRow {
        label: "MotionBlur",
        enabled: false,
        value: EffectValue::Int { val: 180, min: 45, max: 360, step: 15 },
    });
    rows
}

pub struct PostProcessState {
    pub rows: Vec<EffectRow>,
    pub cursor: usize,
    pub clip_path: String,
}

/// Number of codecs and qualities the compress dialog cycles through.
pub const CODEC_COUNT: usize = 4;
pub const QUALITY_COUNT: usize = 3;

/// The codecs in dialog order.
pub open spec fn codec_at(i: int) -> CompressCodec {
    if i == 0 {
        CompressCodec::H264Nvenc
    } else if i == 1 {
        CompressCodec::HevcNvenc
    } else if i == 2 {
        CompressCodec::Hevc
    } else {
        CompressCodec::Av1
    }
}

/// The qualities in dialog order.
pub open spec fn quality_at(i: int) -> CompressQuality {
    if i == 0 {
        CompressQuality::High
    } else if i == 1 {
        CompressQuality::Med
    } else {
        CompressQuality::Low
    }
}

pub fn codec_for(i: usize) -> (c: CompressCodec)
    requires
        i < CODEC_COUNT,
    ensures
        c == codec_at(i as int),
{
    if i == 0 {
        CompressCodec::H264Nvenc
    } else if i == 1 {
        CompressCodec::HevcNvenc
    } else if i == 2 {
        CompressCodec::Hevc
    } else {
        CompressCodec::Av1
    }
}

pub fn quality_for(i: usize) -> (q: CompressQuality)
    requires
        i < QUALITY_COUNT,
    ensures
        q == quality_at(i as int),
{
    if i == 0 {
        CompressQuality::High
    } else if i == 1 {
        CompressQuality::Med
    } else {
        CompressQuality::Low
    }
}

#[derive(Clone, Copy, PartialEq, Eq, Debug, Structural)]
pub enum CompressField {
    Codec,
    Quality,
    TrimStart,
    TrimEnd,
}

pub struct CompressState {
    pub codec_idx: usize,
    pub quality_idx: usize,
    pub trim_start: String,
    pub trim_end: String,
    pub field: CompressField,
    pub clip_path: String,
}

/// A trim time as typed, white space removed; nothing when that leaves nothing.
pub open spec fn non_empty_of(s: Seq<char>) -> Option<Seq<char>> {
    if trim(s).len() == 0 {
        None
    } else {
        Some(trim(s))
    }
}

fn non_empty(s: &str) -> (r: Option<String>)
    ensures
        match r {
            Some(t) => non_empty_of(s@) == Some(t@),
            None => non_empty_of(s@) is None,
        },
{
    let t = trim_str(s);
    if t.as_str().is_empty() {
        None
    } else {
        Some(t)
    }
}

impl CompressState {
    pub fn to_options(&self) -> (o: CompressOptions)
        requires
            self.codec_idx < CODEC_COUNT,
            self.quality_idx < QUALITY_COUNT,
        ensures
            o.codec == codec_at(self.codec_idx as int),
            o.quality == quality_at(self.quality_idx as int),
            match o.trim_start {
                Some(t) => non_empty_of(self.trim_start@) == Some(t@),
                None => non_empty_of(self.trim_start@) is None,
            },
            match o.trim_end {
                Some(t) => non_empty_of(self.trim_end@) == Some(t@),
                None => non_empty_of(self.trim_end@) is None,
            },
    {
        CompressOptions {
            codec: codec_for(self.codec_idx),
            quality: quality_for(self.quality_idx),
            trim_start: non_empty(self.trim_start.as_str()),
            trim_end: non_empty(self.trim_end.as_str()),
        }
    }
}

pub struct ShareState {
    pub clip: Clip,
    /// Index into the share expiry options.
    pub expiry_idx: usize,
}

pub enum Modal {
    Closed,
    PostProcess(PostProcessState),
    Compress(CompressState),
    Share(ShareState),
}

// ── Hit areas (stored after each draw for mouse hit-testing) ─────────────────

#[derive(Default, Clone, Copy, Debug)]
pub struct HitRects {
    pub job_list: Rect,
    pub clip_list: Rect,
}

// ── App ───────────────────────────────────────────────────────────────────────

pub struct App {
    pub jobs: Vec<Job>,
    pub clips: Vec<Clip>,
    pub focus: Focus,
    /// Selected row of the job list.
    pub job_selected: Option<usize>,
    /// Selected row of the clip list.
    pub clip_selected: Option<usize>,
    pub modal: Modal,
    pub hit: HitRects,
    /// Set when the daemon reports a newer version is available.
    pub update_available: Option<String>,
    /// Default expiry index for the share modal.
    pub default_expiry_idx: usize,
}

pub open spec fn rows_wf(rows: Seq<EffectRow>) -> bool {
    forall|i: int| 0 <= i < rows.len() ==> value_wf(#[trigger] rows[i].value)
}

/// A dialog whose indices are in range.
pub open spec fn modal_wf(m: Modal) -> bool {
    match m {
        Modal::Closed => true,
        Modal::PostProcess(s) => s.rows@.len() > 0 && s.cursor < s.rows@.len() && rows_wf(s.rows@),
        Modal::Compress(s) => s.codec_idx < CODEC_COUNT && s.quality_idx < QUALITY_COUNT,
        Modal::Share(s) => s.expiry_idx < EXPIRY_COUNT,
    }
}

/// Next row of a list of `len` rows, wrapping around; the first when nothing
/// is selected.
pub open spec fn next_index(sel: Option<usize>, len: nat) -> usize {
    match sel {
        Some(i) => ((i + 1) % (len as int)) as usize,
        None => 0,
    }
}

/// Previous row, wrapping around; the first when nothing is selected.
pub open spec fn prev_index(sel: Option<usize>, len: nat) -> usize {
    match sel {
        Some(i) => if i == 0 {
            (len - 1) as usize
        } else {
            (i - 1) as usize
        },
        None => 0,
    }
}

impl App {
    /// The state's standing conditions: dialogs in range, hit areas on screen.
    pub open spec fn wf(&self) -> bool {
        &&& modal_wf(self.modal)
        &&& self.default_expiry_idx < EXPIRY_COUNT
        &&& rect_fits(self.hit.job_list)
        &&& rect_fits(self.hit.clip_list)
    }

    pub fn new(default_expiry_idx: usize) -> (a: Self)
        requires
            default_expiry_idx < EXPIRY_COUNT,
        ensures
            a.wf(),
            a.jobs@.len() == 0,
            a.clips@.len() == 0,
            a.focus == Focus::Jobs,
            a.job_selected is None,
            a.clip_selected is None,
            a.modal is Closed,
            a.update_available is None,
            a.default_expiry_idx == default_expiry_idx,
    {
        App {
            jobs: Vec::new(),
            clips: Vec::new(),
            focus: Focus::Jobs,
            job_selected: None,
            clip_selected: None,
            modal: Modal::Closed,
            hit: HitRects { job_list: Rect { x: 0, y: 0, width: 0, height: 0 }, clip_list: Rect { x: 0, y: 0, width: 0, height: 0 } },
            update_available: None,
            default_expiry_idx,
        }
    }

    /// Records where the two lists were drawn.
    pub fn set_hit_rects(&mut self, job_list: Rect, clip_list: Rect)
        requires
            old(self).wf(),
            rect_fits(job_list),
            rect_fits(clip_list),
        ensures
            final(self).wf(),
            final(self).hit.job_list == job_list,
            final(self).hit.clip_list == clip_list,
            final(self).focus == old(self).focus,
            final(self).job_selected == old(self).job_selected,
            final(self).clip_selected == old(self).clip_selected,
    {
        self.hit = HitRects { job_list, clip_list };
    }

    /// Handle a left mouse click at (col, row). Returns true if anything changed.
    pub fn on_click(&mut self, col: u16, row: u16) -> (changed: bool)
        requires
            old(self).wf(),
        ensures
            final(self).wf(),
            after_on_click(*old(self), *final(self), col, row, changed),
    {
        // Clicks inside a modal close/dismiss nothing — modals handle keyboard only
        if !matches!(self.modal, Modal::Closed) {
            return false;
        }
        if rect_contains(self.hit.job_list, col, row) {
            self.focus = Focus::Jobs;
            // Row 0 inside the rect is the border, items start at row 1
            let top = self.hit.job_list.y + 1;
            let inner: usize = if row >= top { (row - top) as usize } else { 0 };
            if inner < self.jobs.len() {
                self.job_selected = Some(inner);
            }
            return true;
        }
        if rect_contains(self.hit.clip_list, col, row) {
            self.focus = Focus::Clips;
            let top = self.hit.clip_list.y + 1;
            let inner: usize = if row >= top { (row - top) as usize } else { 0 };
            if inner < self.clips.len() {
                self.clip_selected = Some(inner);
            }
            return true;
        }
        false
    }

    /// Handle scroll wheel. `down` = true for scroll down.
    pub fn on_scroll(&mut self, col: u16, row: u16, down: bool)
        requires
            old(self).wf(),
        ensures
            final(self).wf(),
            after_on_scroll(*old(self), *final(self), col, row, down),
    {
        if rect_contains(self.hit.job_list, col, row) {
            self.focus = Focus::Jobs;
            if down {
                self.select_next()
            } else {
                self.select_prev()
            }
        } else if rect_contains(self.hit.clip_list, col, row) {
            self.focus = Focus::Clips;
            if down {
                self.select_next()
            } else {
                self.select_prev()
            }
        }
    }

    // ── State updates ─────────────────────────────────────────────────────────

    /// Replaces the job with the same id, or appends it (selecting the first
    /// row when nothing was selected).
    pub fn upsert_job(&mut self, job: Job)
        requires
            old(self).wf(),
        ensures
            final(self).wf(),
            final(self).clips == old(self).clips,
            final(self).focus == old(self).focus,
            final(self).clip_selected == old(self).clip_selected,
            match crate::queue::index_of_id(old(self).jobs@, job.id) {
                Some(i) => final(self).jobs@ == old(self).jobs@.update(i, job)
                    && final(self).job_selected == old(self).job_selected,
                None => final(self).jobs@ == old(self).jobs@.push(job)
                    && final(self).job_selected == if old(self).job_selected is None { Some(0usize) } else { old(self).job_selected },
            },
    {
        match find_job(&self.jobs, job.id) {
            Some(i) => {
                self.jobs.set(i, job);
                return;
            },
            None => {},
        }
        self.jobs.push(job);
        if self.job_selected.is_none() {
            self.job_selected = Some(0);
        }
    }

    /// Replaces the clip list (selecting the first row when nothing was
    /// selected and the list is not empty).
    pub fn set_clips(&mut self, clips: Vec<Clip>)
        requires
            old(self).wf(),
        ensures
            final(self).wf(),
            final(self).clips == clips,
            final(self).jobs == old(self).jobs,
            final(self).focus == old(self).focus,
            final(self).job_selected == old(self).job_selected,
            final(self).clip_selected == if old(self).clip_selected is None && clips@.len() > 0 { Some(0usize) } else { old(self).clip_selected },
    {
        self.clips = clips;
        if self.clip_selected.is_none() && self.clips.len() > 0 {
            self.clip_selected = Some(0);
        }
    }

    pub fn selected_job(&self) -> (r: Option<&Job>)
        ensures
            r == match self.job_selected {
                Some(i) => if i < self.jobs@.len() { Some(&self.jobs@[i as int]) } else { None },
                None => None,
            },
    {
        match self.job_selected {
            Some(i) => if i < self.jobs.len() { Some(&self.jobs[i]) } else { None },
            None => None,
        }
    }

    pub fn selected_clip(&self) -> (r: Option<&Clip>)
        ensures
            r == match self.clip_selected {
                Some(i) => if i < self.clips@.len() { Some(&self.clips@[i as int]) } else { None },
                None => None,
            },
    {
        match self.clip_selected {
            Some(i) => if i < self.clips.len() { Some(&self.clips[i]) } else { None },
            None => None,
        }
    }

    pub fn selected_job_id(&self) -> (r: Option<u128>)
        ensures
            r == match self.job_selected {
                Some(i) => if i < self.jobs@.len() { Some(self.jobs@[i as int].id) } else { None },
                None => None,
            },
    {
        match self.selected_job() {
            Some(j) => Some(j.id),
            None => None,
        }
    }

    // ── Navigation ────────────────────────────────────────────────────────────

    pub fn select_next(&mut self)
        requires
            old(self).wf(),
        ensures
            final(self).wf(),
            after_select_next(*old(self), *final(self)),
    {
        match self.focus {
            Focus::Jobs => {
                let n = self.jobs.len();
                if n == 0 {
                    return;
                }
                let i = match self.job_selected {
                    Some(i) => (i % n + 1) % n,
                    None => 0,
                };
                proof {
                    if self.job_selected is Some {
                        lemma_succ_mod(self.job_selected->0 as int, n as int);
                    }
                }
                self.job_selected = Some(i);
            },
            Focus::Clips => {
                let n = self.clips.len();
                if n == 0 {
                    return;
                }
                let i = match self.clip_selected {
                    Some(i) => (i % n + 1) % n,
                    None => 0,
                };
                proof {
                    if self.clip_selected is Some {
                        lemma_succ_mod(self.clip_selected->0 as int, n as int);
                    }
                }
                self.clip_selected = Some(i);
            },
        }
    }

    pub fn select_prev(&mut self)
        requires
            old(self).wf(),
        ensures
            final(self).wf(),
            after_select_prev(*old(self), *final(self)),
    {
        match self.focus {
            Focus::Jobs => {
                let n = self.jobs.len();
                if n == 0 {
                    return;
                }
                let i = match self.job_selected {
                    Some(i) => if i == 0 { n - 1 } else { i - 1 },
                    None => 0,
                };
                self.job_selected = Some(i);
            },
            Focus::Clips => {
                let n = self.clips.len();
                if n == 0 {
                    return;
                }
                let i = match self.clip_selected {
                    Some(i) => if i == 0 { n - 1 } else { i - 1 },
                    None => 0,
                };
                self.clip_selected = Some(i);
            },
        }
    }

    pub fn toggle_focus(&mut self)
        requires
            old(self).wf(),
        ensures
            final(self).wf(),
            after_toggle_focus(*old(self), *final(self)),
    {
        self.focus = match self.focus {
            Focus::Jobs => Focus::Clips,
            Focus::Clips => Focus::Jobs,
        };
    }

    // ── Modal openers ─────────────────────────────────────────────────────────

    /// Opens the post-process dialog on the selected clip.
    pub fn open_post_process(&mut self)
        requires
            old(self).wf(),
        ensures
            final(self).wf(),
            after_open_post_process(*old(self), *final(self)),
    {
        let path = match self.selected_clip() {
            Some(clip) => clip.path.clone(),
            None => return,
        };
        self.modal = Modal::PostProcess(PostProcessState { rows: default_effect_rows(), cursor: 0, clip_path: path });
    }

    /// Opens the compress dialog on the selected clip.
    pub fn open_compress(&mut self)
        requires
            old(self).wf(),
        ensures
            final(self).wf(),
            after_open_compress(*old(self), *final(self)),
    {
        let path = match self.selected_clip() {
            Some(clip) => clip.path.clone(),
            None => return,
        };
        self.modal = Modal::Compress(CompressState {
            codec_idx: 0,
            quality_idx: 0,
            trim_start: String::new(),
            trim_end: String::new(),
            field: CompressField::Codec,
            clip_path: path,
        });
    }

    /// Opens the share dialog on the selected clip, at the default expiry.
    pub fn open_share(&mut self)
        requires
            old(self).wf(),
        ensures
            final(self).wf(),
            after_open_share(*old(self), *final(self)),
    {
        let clip = match self.selected_clip() {
            Some(clip) => clip.duplicate(),
            None => return,
        };
        self.modal = Modal::Share(ShareState { clip, expiry_idx: self.default_expiry_idx });
    }

    /// Closes any dialog.
    pub fn close_modal(&mut self)
        requires
            old(self).wf(),
        ensures
            final(self).wf(),
            after_close_modal(*old(self), *final(self)),
    {
        self.modal = Modal::Closed;
    }

    // ── PostProcess key handlers ──────────────────────────────────────────────

    pub fn pp_nav_down(&mut self)
        requires
            old(self).wf(),
        ensures
            final(self).wf(),
            after_pp_nav_down(*old(self), *final(self)),
    {
        if let Modal::PostProcess(s) = &mut self.modal {
            let n = s.rows.len();
            assert(s.cursor < n);
            s.cursor = (s.cursor + 1) % n;
        }
    }

    pub fn pp_nav_up(&mut self)
        requires
            old(self).wf(),
        ensures
            final(self).wf(),
            after_pp_nav_up(*old(self), *final(self)),
    {
        if let Modal::PostProcess(s) = &mut self.modal {
            if s.cursor == 0 {
                s.cursor = s.rows.len() - 1;
            } else {
                s.cursor -= 1;
            }
        }
    }

    pub fn pp_toggle(&mut self)
        requires
            old(self).wf(),
        ensures
            final(self).wf(),
            after_pp_toggle(*old(self), *final(self)),
    {
        if let Modal::PostProcess(s) = &mut self.modal {
            let c = s.cursor;
            let row = EffectRow { label: s.rows[c].label, enabled: !s.rows[c].enabled, value: s.rows[c].value };
            s.rows.set(c, row);
        }
    }

    pub fn pp_inc(&mut self)
        requires
            old(self).wf(),
        ensures
            final(self).wf(),
            after_pp_inc(*old(self), *final(self)),
    {
        if let Modal::PostProcess(s) = &mut self.modal {
            let c = s.cursor;
            let mut v = s.rows[c].value;
            v.inc();
            let row = EffectRow { label: s.rows[c].label, enabled: s.rows[c].enabled, value: v };
            s.rows.set(c, row);
        }
    }

    pub fn pp_dec(&mut self)
        requires
            old(self).wf(),
        ensures
            final(self).wf(),
            after_pp_dec(*old(self), *final(self)),
    {
        if let Modal::PostProcess(s) = &mut self.modal {
            let c = s.cursor;
            let mut v = s.rows[c].value;
            v.dec();
            let row = EffectRow { label: s.rows[c].label, enabled: s.rows[c].enabled, value: v };
            s.rows.set(c, row);
        }
    }

    /// Returns (clip_path, effects) if any effects are enabled.
    pub fn pp_confirm(&self) -> (r: Option<(String, Vec<Effect>)>)
        ensures
            match self.modal {
                Modal::PostProcess(s) => if row_effects(s.rows@).len() == 0 {
                    r is None
                } else {
                    r matches Some((p, e)) && p@ == s.clip_path@ && e@ == row_effects(s.rows@)
                },
                _ => r is None,
            },
    {
        if let Modal::PostProcess(s) = &self.modal {
            let mut effects: Vec<Effect> = Vec::new();
            let mut i: usize = 0;
            while i < s.rows.len()
                invariant
                    i <= s.rows.len(),
                    effects@ == row_effects(s.rows@.take(i as int)),
                decreases s.rows.len() - i,
            {
                assert(s.rows@.take((i + 1) as int).drop_last() == s.rows@.take(i as int));
                match s.rows[i].to_effect() {
                    Some(e) => effects.push(e),
                    None => {},
                }
                i += 1;
            }
            assert(s.rows@.take(s.rows.len() as int) == s.rows@);
            if effects.len() == 0 {
                return None;
            }
            return Some((s.clip_path.clone(), effects));
        }
        None
    }

    // ── Compress key handlers ─────────────────────────────────────────────────

    pub fn compress_nav_down(&mut self)
        requires
            old(self).wf(),
        ensures
            final(self).wf(),
            after_compress_nav_down(*old(self), *final(self)),
    {
        if let Modal::Compress(s) = &mut self.modal {
            s.field = match s.field {
                CompressField::Codec => CompressField::Quality,
                CompressField::Quality => CompressField::TrimStart,
                CompressField::TrimStart => CompressField::TrimEnd,
                CompressField::TrimEnd => CompressField::Codec,
            };
        }
    }

    pub fn compress_nav_up(&mut self)
        requires
            old(self).wf(),
        ensures
            final(self).wf(),
            after_compress_nav_up(*old(self), *final(self)),
    {
        if let Modal::Compress(s) = &mut self.modal {
            s.field = match s.field {
                CompressField::Codec => CompressField::TrimEnd,
                CompressField::Quality => CompressField::Codec,
                CompressField::TrimStart => CompressField::Quality,
                CompressField::TrimEnd => CompressField::TrimStart,
            };
        }
    }

    /// Previous codec or quality, wrapping around.
    pub fn compress_cycle_left(&mut self)
        requires
            old(self).wf(),
        ensures
            final(self).wf(),
            after_compress_cycle_left(*old(self), *final(self)),
    {
        if let Modal::Compress(s) = &mut self.modal {
            match s.field {
                CompressField::Codec => {
                    s.codec_idx = if s.codec_idx == 0 { CODEC_COUNT - 1 } else { s.codec_idx - 1 };
                },
                CompressField::Quality => {
                    s.quality_idx = if s.quality_idx == 0 { QUALITY_COUNT - 1 } else { s.quality_idx - 1 };
                },
                _ => {},
            }
        }
    }

    /// Next codec or quality, wrapping around.
    pub fn compress_cycle_right(&mut self)
        requires
            old(self).wf(),
        ensures
            final(self).wf(),
            after_compress_cycle_right(*old(self), *final(self)),
    {
        if let Modal::Compress(s) = &mut self.modal {
            match s.field {
                CompressField::Codec => s.codec_idx = (s.codec_idx + 1) % CODEC_COUNT,
                CompressField::Quality => s.quality_idx = (s.quality_idx + 1) % QUALITY_COUNT,
                _ => {},
            }
        }
    }

    /// Types a character into the selected trim field; only digits, `:` and
    /// `.` are taken.
    pub fn compress_type_char(&mut self, c: char)
        requires
            old(self).wf(),
        ensures
            final(self).wf(),
            after_compress_type_char(*old(self), *final(self), c),
    {
        if let Modal::Compress(s) = &mut self.modal {
            // Allow digits, colon, period for time strings
            if ('0' <= c && c <= '9') || c == ':' || c == '.' {
                match s.field {
                    CompressField::TrimStart => push_char(&mut s.trim_start, c),
                    CompressField::TrimEnd => push_char(&mut s.trim_end, c),
                    _ => {},
                }
            }
        }
    }

    /// Deletes the last character of the selected trim field.
    pub fn compress_backspace(&mut self)
        requires
            old(self).wf(),
        ensures
            final(self).wf(),
            after_compress_backspace(*old(self), *final(self)),
    {
        if let Modal::Compress(s) = &mut self.modal {
            match s.field {
                CompressField::TrimStart => {
                    s.trim_start = drop_last_char(s.trim_start.as_str());
                },
                CompressField::TrimEnd => {
                    s.trim_end = drop_last_char(s.trim_end.as_str());
                },
                _ => {},
            }
        }
    }

    /// Returns (clip_path, options).
    pub fn compress_confirm(&self) -> (r: Option<(String, CompressOptions)>)
        requires
            self.wf(),
        ensures
            match self.modal {
                Modal::Compress(s) => r matches Some((p, o)) && p@ == s.clip_path@
                    && o.codec == codec_at(s.codec_idx as int) && o.quality == quality_at(s.quality_idx as int)
                    && (match o.trim_start { Some(t) => non_empty_of(s.trim_start@) == Some(t@), None => non_empty_of(s.trim_start@) is None })
                    && (match o.trim_end { Some(t) => non_empty_of(s.trim_end@) == Some(t@), None => non_empty_of(s.trim_end@) is None }),
                _ => r is None,
            },
    {
        if let Modal::Compress(s) = &self.modal {
            return Some((s.clip_path.clone(), s.to_options()));
        }
        None
    }

    // ── Share key handlers ────────────────────────────────────────────────────

    /// Returns (clip_path, expiry key) for the share modal.
    pub fn share_confirm(&self) -> (r: Option<(String, String)>)
        requires
            self.wf(),
        ensures
            match self.modal {
                Modal::Share(s) => r matches Some((p, e)) && p@ == s.clip.path@ && e@ == expiry_key(s.expiry_idx as int),
                _ => r is None,
            },
    {
        if let Modal::Share(s) = &self.modal {
            let expiry = owned(crate::share::expiry_key_at(s.expiry_idx));
            return Some((s.clip.path.clone(), expiry));
        }
        None
    }

    pub fn share_expiry_next(&mut self)
        requires
            old(self).wf(),
        ensures
            final(self).wf(),
            after_share_expiry_next(*old(self), *final(self)),
    {
        if let Modal::Share(s) = &mut self.modal {
            s.expiry_idx = (s.expiry_idx + 1) % EXPIRY_COUNT;
        }
    }

    pub fn share_expiry_prev(&mut self)
        requires
            old(self).wf(),
        ensures
            final(self).wf(),
            after_share_expiry_prev(*old(self), *final(self)),
    {
        if let Modal::Share(s) = &mut self.modal {
            let n = EXPIRY_COUNT;
            s.expiry_idx = if s.expiry_idx == 0 { n - 1 } else { s.expiry_idx - 1 };
        }
    }
}

/// Everything but the dialog is as it was.
pub open spec fn same_but_modal(a: App, b: App) -> bool {
    &&& b.jobs == a.jobs
    &&& b.clips == a.clips
    &&& b.focus == a.focus
    &&& b.job_selected == a.job_selected
    &&& b.clip_selected == a.clip_selected
    &&& b.hit == a.hit
    &&& b.update_available == a.update_available
    &&& b.default_expiry_idx == a.default_expiry_idx
}

/// Everything but the focus and the selected rows is as it was.
pub open spec fn same_but_selection(a: App, b: App) -> bool {
    &&& b.jobs == a.jobs
    &&& b.clips == a.clips
    &&& b.modal == a.modal
    &&& b.hit == a.hit
    &&& b.update_available == a.update_available
    &&& b.default_expiry_idx == a.default_expiry_idx
}

/// The state after `open_post_process`.
pub open spec fn after_open_post_process(a: App, b: App) -> bool {
    &&& same_but_modal(a, b)
    &&& b.focus == a.focus
    &&& match a.clip_selected {
        Some(i) if i < a.clips@.len() => b.modal matches Modal::PostProcess(s)
            && default_rows_of(s.rows@) && s.cursor == 0 && s.clip_path@ == a.clips@[i as int].path@,
        _ => b.modal == a.modal,
    }
}

/// The state after `open_compress`.
pub open spec fn after_open_compress(a: App, b: App) -> bool {
    &&& same_but_modal(a, b)
    &&& b.focus == a.focus
    &&& match a.clip_selected {
        Some(i) if i < a.clips@.len() => b.modal matches Modal::Compress(s)
            && s.codec_idx == 0 && s.quality_idx == 0 && s.trim_start@.len() == 0 && s.trim_end@.len() == 0
            && s.field == CompressField::Codec && s.clip_path@ == a.clips@[i as int].path@,
        _ => b.modal == a.modal,
    }
}

/// The state after `open_share`.
pub open spec fn after_open_share(a: App, b: App) -> bool {
    &&& same_but_modal(a, b)
    &&& b.focus == a.focus
    &&& match a.clip_selected {
        Some(i) if i < a.clips@.len() => b.modal matches Modal::Share(s)
            && s.clip == a.clips@[i as int] && s.expiry_idx == a.default_expiry_idx,
        _ => b.modal == a.modal,
    }
}

/// The state after `close_modal`.
pub open spec fn after_close_modal(a: App, b: App) -> bool {
    &&& same_but_modal(a, b)
    &&& b.modal is Closed
    &&& b.focus == a.focus
    &&& b.job_selected == a.job_selected
    &&& b.clip_selected == a.clip_selected
}

/// The state after `pp_nav_down`.
pub open spec fn after_pp_nav_down(a: App, b: App) -> bool {
    &&& same_but_modal(a, b)
    &&& match a.modal {
        Modal::PostProcess(s) => b.modal matches Modal::PostProcess(t)
            && t.rows == s.rows && t.clip_path == s.clip_path
            && t.cursor == (s.cursor + 1) % (s.rows@.len() as int),
        _ => b.modal == a.modal,
    }
}

/// The state after `pp_nav_up`.
pub open spec fn after_pp_nav_up(a: App, b: App) -> bool {
    &&& same_but_modal(a, b)
    &&& match a.modal {
        Modal::PostProcess(s) => b.modal matches Modal::PostProcess(t)
            && t.rows == s.rows && t.clip_path == s.clip_path
            && t.cursor == if s.cursor == 0 { s.rows@.len() - 1 } else { s.cursor - 1 },
        _ => b.modal == a.modal,
    }
}

/// The state after `pp_toggle`.
pub open spec fn after_pp_toggle(a: App, b: App) -> bool {
    &&& same_but_modal(a, b)
    &&& match a.modal {
        Modal::PostProcess(s) => b.modal matches Modal::PostProcess(t)
            && t.cursor == s.cursor && t.clip_path == s.clip_path
            && t.rows@ == s.rows@.update(s.cursor as int, EffectRow { enabled: !s.rows@[s.cursor as int].enabled, ..s.rows@[s.cursor as int] }),
        _ => b.modal == a.modal,
    }
}

/// The state after `pp_inc`.
pub open spec fn after_pp_inc(a: App, b: App) -> bool {
    &&& same_but_modal(a, b)
    &&& match a.modal {
        Modal::PostProcess(s) => b.modal matches Modal::PostProcess(t)
            && t.cursor == s.cursor && t.clip_path == s.clip_path
            && t.rows@ == s.rows@.update(s.cursor as int, EffectRow { value: inc_value(s.rows@[s.cursor as int].value), ..s.rows@[s.cursor as int] }),
        _ => b.modal == a.modal,
    }
}

/// The state after `pp_dec`.
pub open spec fn after_pp_dec(a: App, b: App) -> bool {
    &&& same_but_modal(a, b)
    &&& match a.modal {
        Modal::PostProcess(s) => b.modal matches Modal::PostProcess(t)
            && t.cursor == s.cursor && t.clip_path == s.clip_path
            && t.rows@ == s.rows@.update(s.cursor as int, EffectRow { value: dec_value(s.rows@[s.cursor as int].value), ..s.rows@[s.cursor as int] }),
        _ => b.modal == a.modal,
    }
}

/// The state after `compress_nav_down`.
pub open spec fn after_compress_nav_down(a: App, b: App) -> bool {
    &&& same_but_modal(a, b)
    &&& match a.modal {
        Modal::Compress(s) => b.modal matches Modal::Compress(t)
            && t.codec_idx == s.codec_idx && t.quality_idx == s.quality_idx
            && t.trim_start == s.trim_start && t.trim_end == s.trim_end && t.clip_path == s.clip_path
            && t.field == next_field(s.field),
        _ => b.modal == a.modal,
    }
}

/// The state after `compress_nav_up`.
pub open spec fn after_compress_nav_up(a: App, b: App) -> bool {
    &&& same_but_modal(a, b)
    &&& match a.modal {
        Modal::Compress(s) => b.modal matches Modal::Compress(t)
            && t.codec_idx == s.codec_idx && t.quality_idx == s.quality_idx
            && t.trim_start == s.trim_start && t.trim_end == s.trim_end && t.clip_path == s.clip_path
            && t.field == prev_field(s.field),
        _ => b.modal == a.modal,
    }
}

/// The state after `compress_cycle_left`.
pub open spec fn after_compress_cycle_left(a: App, b: App) -> bool {
    &&& same_but_modal(a, b)
    &&& match a.modal {
        Modal::Compress(s) => b.modal matches Modal::Compress(t)
            && t.field == s.field && t.trim_start == s.trim_start && t.trim_end == s.trim_end && t.clip_path == s.clip_path
            && t.codec_idx == if s.field == CompressField::Codec { if s.codec_idx == 0 { (CODEC_COUNT - 1) as usize } else { (s.codec_idx - 1) as usize } } else { s.codec_idx }
            && t.quality_idx == if s.field == CompressField::Quality { if s.quality_idx == 0 { (QUALITY_COUNT - 1) as usize } else { (s.quality_idx - 1) as usize } } else { s.quality_idx },
        _ => b.modal == a.modal,
    }
}

/// The state after `compress_cycle_right`.
pub open spec fn after_compress_cycle_right(a: App, b: App) -> bool {
    &&& same_but_modal(a, b)
    &&& match a.modal {
        Modal::Compress(s) => b.modal matches Modal::Compress(t)
            && t.field == s.field && t.trim_start == s.trim_start && t.trim_end == s.trim_end && t.clip_path == s.clip_path
            && t.codec_idx == if s.field == CompressField::Codec { ((s.codec_idx + 1) % (CODEC_COUNT as int)) as usize } else { s.codec_idx }
            && t.quality_idx == if s.field == CompressField::Quality { ((s.quality_idx + 1) % (QUALITY_COUNT as int)) as usize } else { s.quality_idx },
        _ => b.modal == a.modal,
    }
}

/// The state after `compress_type_char`.
pub open spec fn after_compress_type_char(a: App, b: App, c: char) -> bool {
    &&& same_but_modal(a, b)
    &&& match a.modal {
        Modal::Compress(s) => b.modal matches Modal::Compress(t)
            && t.field == s.field && t.codec_idx == s.codec_idx && t.quality_idx == s.quality_idx && t.clip_path == s.clip_path
            && ({
                let ok = ('0' <= c && c <= '9') || c == ':' || c == '.';
                &&& t.trim_start@ == if ok && s.field == CompressField::TrimStart { s.trim_start@.push(c) } else { s.trim_start@ }
                &&& t.trim_end@ == if ok && s.field == CompressField::TrimEnd { s.trim_end@.push(c) } else { s.trim_end@ }
            }),
        _ => b.modal == a.modal,
    }
}

/// The state after `compress_backspace`.
pub open spec fn after_compress_backspace(a: App, b: App) -> bool {
    &&& same_but_modal(a, b)
    &&& match a.modal {
        Modal::Compress(s) => b.modal matches Modal::Compress(t)
            && t.field == s.field && t.codec_idx == s.codec_idx && t.quality_idx == s.quality_idx && t.clip_path == s.clip_path
            && t.trim_start@ == if s.field == CompressField::TrimStart && s.trim_start@.len() > 0 { s.trim_start@.drop_last() } else { s.trim_start@ }
            && t.trim_end@ == if s.field == CompressField::TrimEnd && s.trim_end@.len() > 0 { s.trim_end@.drop_last() } else { s.trim_end@ },
        _ => b.modal == a.modal,
    }
}

/// The state after `share_expiry_next`.
pub open spec fn after_share_expiry_next(a: App, b: App) -> bool {
    &&& same_but_modal(a, b)
    &&& match a.modal {
        Modal::Share(s) => b.modal matches Modal::Share(t) && t.clip == s.clip
            && t.expiry_idx == (s.expiry_idx + 1) % (EXPIRY_COUNT as int),
        _ => b.modal == a.modal,
    }
}

/// The state after `share_expiry_prev`.
pub open spec fn after_share_expiry_prev(a: App, b: App) -> bool {
    &&& same_but_modal(a, b)
    &&& match a.modal {
        Modal::Share(s) => b.modal matches Modal::Share(t) && t.clip == s.clip
            && t.expiry_idx == if s.expiry_idx == 0 { (EXPIRY_COUNT - 1) as usize } else { (s.expiry_idx - 1) as usize },
        _ => b.modal == a.modal,
    }
}

/// The state after `on_click`, which returned `changed`.
pub open spec fn after_on_click(a: App, b: App, col: u16, row: u16, changed: bool) -> bool {
    &&& same_but_selection(a, b)
    &&& !(a.modal is Closed) ==> !changed && b.focus == a.focus
        && b.job_selected == a.job_selected
        && b.clip_selected == a.clip_selected
    &&& a.modal is Closed ==> {
        let jr = a.hit.job_list;
        let cr = a.hit.clip_list;
        if in_rect(jr, col, row) {
            let inner = if row > jr.y { row - (jr.y + 1) } else { 0 };
            &&& changed
            &&& b.focus == Focus::Jobs
            &&& b.job_selected == if inner < a.jobs@.len() { Some(inner as usize) } else { a.job_selected }
            &&& b.clip_selected == a.clip_selected
        } else if in_rect(cr, col, row) {
            let inner = if row > cr.y { row - (cr.y + 1) } else { 0 };
            &&& changed
            &&& b.focus == Focus::Clips
            &&& b.clip_selected == if inner < a.clips@.len() { Some(inner as usize) } else { a.clip_selected }
            &&& b.job_selected == a.job_selected
        } else {
            &&& !changed
            &&& b.focus == a.focus
            &&& b.job_selected == a.job_selected
            &&& b.clip_selected == a.clip_selected
        }
    }
}

/// The state after `on_scroll`.
pub open spec fn after_on_scroll(a: App, b: App, col: u16, row: u16, down: bool) -> bool {
    &&& same_but_selection(a, b)
    &&& ({
        let f = if in_rect(a.hit.job_list, col, row) {
            Some(Focus::Jobs)
        } else if in_rect(a.hit.clip_list, col, row) {
            Some(Focus::Clips)
        } else {
            None
        };
        match f {
            None => b.focus == a.focus && b.job_selected == a.job_selected && b.clip_selected == a.clip_selected,
            Some(Focus::Jobs) => b.focus == Focus::Jobs && b.clip_selected == a.clip_selected
                && b.job_selected == if a.jobs@.len() == 0 { a.job_selected }
                    else if down { Some(next_index(a.job_selected, a.jobs@.len())) }
                    else { Some(prev_index(a.job_selected, a.jobs@.len())) },
            Some(Focus::Clips) => b.focus == Focus::Clips && b.job_selected == a.job_selected
                && b.clip_selected == if a.clips@.len() == 0 { a.clip_selected }
                    else if down { Some(next_index(a.clip_selected, a.clips@.len())) }
                    else { Some(prev_index(a.clip_selected, a.clips@.len())) },
        }
    })
}

/// The state after `select_next`.
pub open spec fn after_select_next(a: App, b: App) -> bool {
    &&& same_but_selection(a, b)
    &&& b.focus == a.focus
    &&& a.focus == Focus::Jobs ==> b.clip_selected == a.clip_selected
        && b.job_selected == if a.jobs@.len() == 0 { a.job_selected } else { Some(next_index(a.job_selected, a.jobs@.len())) }
    &&& a.focus == Focus::Clips ==> b.job_selected == a.job_selected
        && b.clip_selected == if a.clips@.len() == 0 { a.clip_selected } else { Some(next_index(a.clip_selected, a.clips@.len())) }
}

/// The state after `select_prev`.
pub open spec fn after_select_prev(a: App, b: App) -> bool {
    &&& same_but_selection(a, b)
    &&& b.focus == a.focus
    &&& a.focus == Focus::Jobs ==> b.clip_selected == a.clip_selected
        && b.job_selected == if a.jobs@.len() == 0 { a.job_selected } else { Some(prev_index(a.job_selected, a.jobs@.len())) }
    &&& a.focus == Focus::Clips ==> b.job_selected == a.job_selected
        && b.clip_selected == if a.clips@.len() == 0 { a.clip_selected } else { Some(prev_index(a.clip_selected, a.clips@.len())) }
}

/// The state after `toggle_focus`.
pub open spec fn after_toggle_focus(a: App, b: App) -> bool {
    &&& same_but_selection(a, b)
    &&& b.focus == match a.focus {
        Focus::Jobs => Focus::Clips,
        Focus::Clips => Focus::Jobs,
    }
    &&& b.job_selected == a.job_selected
    &&& b.clip_selected == a.clip_selected
    &&& b.jobs == a.jobs
    &&& b.clips == a.clips
}

fn find_job(jobs: &Vec<Job>, id: u128) -> (r: Option<usize>)
    ensures
        match r {
            Some(i) => crate::queue::index_of_id(jobs@, id) == Some(i as int) && i < jobs@.len(),
            None => crate::queue::index_of_id(jobs@, id) is None,
        },
{
    let mut i: usize = 0;
    while i < jobs.len()
        invariant
            i <= jobs.len(),
            forall|k: int| 0 <= k < i ==> (#[trigger] jobs@[k]).id != id,
        decreases jobs.len() - i,
    {
        if jobs[i].id == id {
            proof {
                crate::queue::lemma_index_of_id_unique(jobs@, id, i as int);
            }
            return Some(i);
        }
        i += 1;
    }
    proof {
        crate::queue::lemma_index_of_id_none(jobs@, id);
    }
    None
}

pub open spec fn next_field(f: CompressField) -> CompressField {
    match f {
        CompressField::Codec => CompressField::Quality,
        CompressField::Quality => CompressField::TrimStart,
        CompressField::TrimStart => CompressField::TrimEnd,
        CompressField::TrimEnd => CompressField::Codec,
    }
}

pub open spec fn prev_field(f: CompressField) -> CompressField {
    match f {
        CompressField::Codec => CompressField::TrimEnd,
        CompressField::Quality => CompressField::Codec,
        CompressField::TrimStart => CompressField::Quality,
        CompressField::TrimEnd => CompressField::TrimStart,
    }
}

/// The effects of the enabled rows, in row order.
pub open spec fn row_effects(rows: Seq<EffectRow>) -> Seq<Effect>
    decreases rows.len(),
{
    if rows.len() == 0 {
        Seq::empty()
    } else {
        row_effects(rows.drop_last()) + match row_effect(rows.last()) {
            Some(e) => seq![e],
            None => Seq::empty(),
        }
    }
}

proof fn lemma_succ_mod(i: int, n: int)
    requires
        0 <= i,
        n > 0,
    ensures
        (i % n + 1) % n == (i + 1) % n,
{
    vstd::arithmetic::div_mod::lemma_add_mod_noop(i, 1, n);
    if n > 1 {
        vstd::arithmetic::div_mod::lemma_small_mod(1, n as nat);
    } else {
        assert((i % n + 1) % n == 0 && (i + 1) % n == 0) by (nonlinear_arith)
            requires
                n == 1,
        ;
    }
}

/// The text without its last character.
fn drop_last_char(s: &str) -> (r: String)
    ensures
        r@ == if s@.len() > 0 { s@.drop_last() } else { s@ },
{
    let v = crate::text::chars_of(s);
    let mut r = String::new();
    if v.len() == 0 {
        return r;
    }
    let mut i: usize = 0;
    while i < v.len() - 1
        invariant
            v@ == s@,
            v.len() > 0,
            i <= v.len() - 1,
            r@ == v@.take(i as int),
        decreases v.len() - 1 - i,
    {
        push_char(&mut r, v[i]);
        i += 1;
        assert(v@.take(i as int) == v@.take((i - 1) as int).push(v@[i - 1]));
    }
    assert(v@.take((v.len() - 1) as int) == v@.drop_last());
    r
}


// ── Laws ─────────────────────────────────────────────────────────────────────

/// Moving down then up (or up then down) in a list returns to the same row.
pub proof fn law_select_round_trip(i: usize, n: nat)
    requires
        i < n,
        n <= usize::MAX,
    ensures
        prev_index(Some(next_index(Some(i), n)), n) == i,
        next_index(Some(prev_index(Some(i), n)), n) == i,
        next_index(Some(i), n) < n,
        prev_index(Some(i), n) < n,
{
    if i + 1 < n {
        vstd::arithmetic::div_mod::lemma_small_mod((i + 1) as nat, n);
    } else {
        vstd::arithmetic::div_mod::lemma_mod_self_0(n as int);
    }
    if i > 0 {
        vstd::arithmetic::div_mod::lemma_small_mod(i as nat, n);
    } else {
        vstd::arithmetic::div_mod::lemma_mod_self_0(n as int);
    }
}

/// The row reached from row `i` of a list of `n` rows after `k` steps down.
pub open spec fn steps_down(i: usize, n: nat, k: nat) -> usize
    decreases k,
{
    if k == 0 {
        i
    } else {
        next_index(Some(steps_down(i, n, (k - 1) as nat)), n)
    }
}

/// Moving down through a list of `n` rows visits every row in turn: `k` steps
/// down from row `i` reach row `(i + k) mod n`, so after `n` steps the
/// selection is back at `i`.
pub proof fn law_select_cycles(i: usize, n: nat, k: nat)
    requires
        i < n,
        n <= usize::MAX,
        k <= n,
    ensures
        steps_down(i, n, k) == (i + k) % (n as int),
    decreases k,
{
    if k == 0 {
        vstd::arithmetic::div_mod::lemma_small_mod(i as nat, n);
    } else {
        law_select_cycles(i, n, (k - 1) as nat);
        lemma_succ_mod((i + k - 1) as int, n as int);
        vstd::arithmetic::div_mod::lemma_mod_bound((i + k - 1) as int, n as int);
    }
}

/// Tab twice gives back the focus it started from.
pub proof fn law_toggle_focus_twice(f: Focus)
    ensures
        ({
            let g = match f {
                Focus::Jobs => Focus::Clips,
                Focus::Clips => Focus::Jobs,
            };
            match g {
                Focus::Jobs => Focus::Clips,
                Focus::Clips => Focus::Jobs,
            }
        }) == f,
{
}

/// The compress dialog's fields form a cycle: down then up, or up then down,
/// returns to the same field, and four steps down visit all four.
pub proof fn law_compress_fields_cycle(f: CompressField)
    ensures
        prev_field(next_field(f)) == f,
        next_field(prev_field(f)) == f,
        next_field(next_field(next_field(next_field(f)))) == f,
{
}

/// Cycling the codec (or quality, or expiry) right then left returns to the
/// same choice.
pub proof fn law_cycle_choices_round_trip(i: usize, n: usize)
    requires
        i < n,
    ensures
        ({
            let r = ((i + 1) % (n as int)) as usize;
            (if r == 0 { (n - 1) as usize } else { (r - 1) as usize }) == i
        }),
{
    if i + 1 < n {
        vstd::arithmetic::div_mod::lemma_small_mod((i + 1) as nat, n as nat);
    } else {
        vstd::arithmetic::div_mod::lemma_mod_self_0(n as int);
    }
}

/// An effect value never leaves its bounds, and a step up followed by a step
/// down restores a value that was a full step inside them.
pub proof fn law_effect_value_steps(v: EffectValue)
    requires
        value_wf(v),
    ensures
        value_wf(inc_value(v)),
        value_wf(dec_value(v)),
        ({
            let (val, min, max, step) = match v {
                EffectValue::Hundredths { val, min, max, step } => (val, min, max, step),
                EffectValue::Int { val, min, max, step } => (val, min, max, step),
            };
            min + step < val && val + step < max ==> dec_value(inc_value(v)) == v && inc_value(dec_value(v)) == v
        }),
{
}

/// Toggling the same post-process row twice leaves the rows as they were.
pub proof fn law_toggle_twice(rows: Seq<EffectRow>, c: int)
    requires
        0 <= c < rows.len(),
    ensures
        ({
            let once = rows.update(c, EffectRow { enabled: !rows[c].enabled, ..rows[c] });
            once.update(c, EffectRow { enabled: !once[c].enabled, ..once[c] }) == rows
        }),
{
    let once = rows.update(c, EffectRow { enabled: !rows[c].enabled, ..rows[c] });
    assert(once.update(c, EffectRow { enabled: !once[c].enabled, ..once[c] }) =~= rows);
}

/// The job list after `upsert_job`.
pub open spec fn after_upsert(s: Seq<Job>, j: Job) -> Seq<Job> {
    match crate::queue::index_of_id(s, j.id) {
        Some(i) => s.update(i, j),
        None => s.push(j),
    }
}

/// The dashboard shows the latest state of a job under its id, and hearing
/// of the same job twice changes nothing more.
pub proof fn law_upsert_shows_latest(s: Seq<Job>, j: Job)
    ensures
        crate::queue::index_of_id(after_upsert(s, j), j.id) matches Some(i) && after_upsert(s, j)[i] == j,
        after_upsert(after_upsert(s, j), j) == after_upsert(s, j),
{
    crate::queue::lemma_index_of_id(s, j.id);
    let t = after_upsert(s, j);
    match crate::queue::index_of_id(s, j.id) {
        Some(i) => {
            assert forall|k: int| 0 <= k < i implies (#[trigger] t[k]).id != j.id by {
                assert(t[k] == s[k]);
            }
            crate::queue::lemma_index_of_id_unique(t, j.id, i);
            assert(t.update(i, j) =~= t);
        },
        None => {
            assert forall|k: int| 0 <= k < s.len() implies (#[trigger] t[k]).id != j.id by {
                assert(t[k] == s[k]);
            }
            crate::queue::lemma_index_of_id_unique(t, j.id, s.len() as int);
            assert(t.update(s.len() as int, j) =~= t);
        },
    }
}

/// The effect of one row given its enabled flag.
pub open spec fn effect_if(enabled: bool, e: Effect) -> Seq<Effect> {
    if enabled { seq![e] } else { Seq::empty() }
}

/// Every enabled row of the post-process dialog contributes its own effect:
/// a Saturation or Sharpen row its strength in hundredths, an Interpolate row
/// its frame rate, a MotionBlur row its shutter angle; a disabled row
/// contributes nothing.
pub proof fn law_enabled_rows_give_their_effects(r: EffectRow)
    ensures
        !r.enabled ==> row_effect(r) is None,
        r.enabled && r.label@ == "Saturation"@ ==> (r.value matches EffectValue::Hundredths { val, .. }
            ==> row_effect(r) == Some(Effect::Saturation(val))),
        r.enabled && r.label@ == "Sharpen"@ ==> (r.value matches EffectValue::Hundredths { val, .. }
            ==> row_effect(r) == Some(Effect::Sharpen(val))),
        r.enabled && r.label@ == "Interpolate"@ ==> (r.value matches EffectValue::Int { val, .. }
            ==> row_effect(r) == Some(Effect::Interpolate { target_fps: val })),
        r.enabled && r.label@ == "MotionBlur"@ ==> (r.value matches EffectValue::Int { val, .. }
            ==> row_effect(r) == Some(Effect::MotionBlur { shutter_angle: val })),
{
    reveal_strlit("Saturation");
    reveal_strlit("Sharpen");
    reveal_strlit("Interpolate");
    reveal_strlit("MotionBlur");
    assert("Sharpen"@ != "Saturation"@) by {
        assert("Sharpen"@[1] != "Saturation"@[1]);
    }
    assert("MotionBlur"@ != "Interpolate"@) by {
        assert("MotionBlur"@[0] != "Interpolate"@[0]);
    }
}

/// What the post-process dialog sends for its four rows (Saturation, Sharpen,
/// Interpolate, MotionBlur, whatever their values): the effect of each enabled
/// row, in row order, and nothing of the disabled ones.
pub proof fn law_dialog_sends_each_enabled_row(rows: Seq<EffectRow>)
    requires
        rows.len() == 4,
        rows[0].label@ == "Saturation"@ && rows[0].value is Hundredths,
        rows[1].label@ == "Sharpen"@ && rows[1].value is Hundredths,
        rows[2].label@ == "Interpolate"@ && rows[2].value is Int,
        rows[3].label@ == "MotionBlur"@ && rows[3].value is Int,
    ensures
        row_effects(rows) == effect_if(rows[0].enabled, Effect::Saturation(rows[0].value->Hundredths_val))
            + effect_if(rows[1].enabled, Effect::Sharpen(rows[1].value->Hundredths_val))
            + effect_if(rows[2].enabled, Effect::Interpolate { target_fps: rows[2].value->Int_val })
            + effect_if(rows[3].enabled, Effect::MotionBlur { shutter_angle: rows[3].value->Int_val }),
{
    reveal_with_fuel(row_effects, 5);
    law_enabled_rows_give_their_effects(rows[0]);
    law_enabled_rows_give_their_effects(rows[1]);
    law_enabled_rows_give_their_effects(rows[2]);
    law_enabled_rows_give_their_effects(rows[3]);
    assert(rows.drop_last().drop_last().drop_last().drop_last() =~= Seq::<EffectRow>::empty());
    assert(rows.drop_last().drop_last().drop_last() =~= seq![rows[0]]);
    assert(rows.drop_last().drop_last() =~= seq![rows[0], rows[1]]);
    assert(rows.drop_last() =~= seq![rows[0], rows[1], rows[2]]);
    assert(row_effects(rows) =~= effect_if(rows[0].enabled, Effect::Saturation(rows[0].value->Hundredths_val))
            + effect_if(rows[1].enabled, Effect::Sharpen(rows[1].value->Hundredths_val))
            + effect_if(rows[2].enabled, Effect::Interpolate { target_fps: rows[2].value->Int_val })
            + effect_if(rows[3].enabled, Effect::MotionBlur { shutter_angle: rows[3].value->Int_val }));
}

} // verus!
