//! The first-run setup wizard: its steps, the answers it collects, and what
//! each key press and click does.  Drawing is done by the program around this
//! library; text fields are edited a character at a time, the cursor counting
//! characters.
use vstd::prelude::*;
use crate::text::{trim, chars_of, owned, string_from_chars, trim_chars};
use crate::tui::app::{Rect, in_rect, rect_contains, rect_fits};
use crate::tui::keys::{Key, MouseKind};
use crate::setup::{ObsChoice, SetupOptions};

verus! {

// ── Step definitions ──────────────────────────────────────────────────────────

#[derive(Debug, Clone, Copy, PartialEq, Eq, Structural)]
pub enum Step {
    Welcome,
    ObsChoice,
    /// Only when the user chose "existing".
    ObsPath,
    OutputDir,
    BufferDuration,
    CaptureSource,
    Autostart,
    Confirm,
}

pub open spec fn step_label(s: Step) -> Seq<char> {
    match s {
        Step::Welcome => "Welcome"@,
        Step::ObsChoice => "OBS"@,
        Step::ObsPath => "OBS Path"@,
        Step::OutputDir => "Output"@,
        Step::BufferDuration => "Buffer"@,
        Step::CaptureSource => "Capture"@,
        Step::Autostart => "Autostart"@,
        Step::Confirm => "Confirm"@,
    }
}

impl Step {
    pub fn label(self) -> (s: &'static str)
        ensures
            s@ == step_label(self),
    {
        match self {
            Step::Welcome => "Welcome",
            Step::ObsChoice => "OBS",
            Step::ObsPath => "OBS Path",
            Step::OutputDir => "Output",
            Step::BufferDuration => "Buffer",
            Step::CaptureSource => "Capture",
            Step::Autostart => "Autostart",
            Step::Confirm => "Confirm",
        }
    }
}

// ── State ─────────────────────────────────────────────────────────────────────

/// Clickable areas stored after each draw.
#[derive(Debug, Clone, Copy)]
pub struct HitRects {
    /// Radio option rows for the current step (up to 4).
    pub radio: [Option<Rect>; 4],
    /// "Next" / confirm area.
    pub next: Option<Rect>,
}

pub open spec fn opt_rect_fits(r: Option<Rect>) -> bool {
    match r {
        Some(x) => rect_fits(x),
        None => true,
    }
}

pub struct State {
    pub step: Step,
    /// 0 = download, 1 = existing, 2 = skip.
    pub obs_radio: usize,
    pub obs_path: Vec<char>,
    pub obs_detected: Option<String>,
    pub output_dir: Vec<char>,
    pub buffer_secs: u32,
    /// 0 = game, 1 = display.
    pub capture_radio: usize,
    pub autostart: bool,
    /// Cursor position in the text field of the current step.
    pub cursor: usize,
    /// Error message shown under the path field.
    pub error: Option<String>,
    pub hit: HitRects,
}

/// The message shown when the OBS path is left empty.
pub open spec fn empty_path_message() -> Seq<char> {
    "Please enter a path to obs64.exe."@
}

/// What a key or a click asks the wizard to do.
#[derive(Debug, Clone, Copy, PartialEq, Eq, Structural)]
pub enum KeyAction {
    Next,
    Prev,
    Quit,
    Done,
    None_,
}

pub open spec fn detected_or_empty(d: Option<String>) -> Seq<char> {
    match d {
        Some(p) => p@,
        None => Seq::empty(),
    }
}

pub open spec fn next_step_of(s: Step, obs_radio: usize) -> Step {
    match s {
        Step::Welcome => Step::ObsChoice,
        Step::ObsChoice => if obs_radio == 1 { Step::ObsPath } else { Step::OutputDir },
        Step::ObsPath => Step::OutputDir,
        Step::OutputDir => Step::BufferDuration,
        Step::BufferDuration => Step::CaptureSource,
        Step::CaptureSource => Step::Autostart,
        Step::Autostart => Step::Confirm,
        Step::Confirm => Step::Confirm,
    }
}

pub open spec fn prev_step_of(s: Step, obs_radio: usize) -> Step {
    match s {
        Step::Welcome => Step::Welcome,
        Step::ObsChoice => Step::Welcome,
        Step::ObsPath => Step::ObsChoice,
        Step::OutputDir => if obs_radio == 1 { Step::ObsPath } else { Step::ObsChoice },
        Step::BufferDuration => Step::OutputDir,
        Step::CaptureSource => Step::BufferDuration,
        Step::Autostart => Step::CaptureSource,
        Step::Confirm => Step::Autostart,
    }
}

/// The steps shown in the progress bar.
pub open spec fn visible_steps_of(obs_radio: usize) -> Seq<Step> {
    if obs_radio == 1 {
        seq![Step::ObsChoice, Step::ObsPath, Step::OutputDir, Step::BufferDuration, Step::CaptureSource, Step::Autostart, Step::Confirm]
    } else {
        seq![Step::ObsChoice, Step::OutputDir, Step::BufferDuration, Step::CaptureSource, Step::Autostart, Step::Confirm]
    }
}

/// The text fields and everything but the given fields are left alone.
pub open spec fn same_answers(a: State, b: State) -> bool {
    &&& a.obs_radio == b.obs_radio
    &&& a.obs_path@ == b.obs_path@
    &&& a.obs_detected == b.obs_detected
    &&& a.output_dir@ == b.output_dir@
    &&& a.buffer_secs == b.buffer_secs
    &&& a.capture_radio == b.capture_radio
    &&& a.autostart == b.autostart
}

impl State {
    /// The wizard's standing conditions: the cursor inside the field it edits,
    /// choices in range, hit areas on screen.
    pub open spec fn wf(&self) -> bool {
        &&& self.step == Step::ObsPath ==> self.cursor <= self.obs_path@.len()
        &&& self.step == Step::OutputDir ==> self.cursor <= self.output_dir@.len()
        &&& 15 <= self.buffer_secs <= 600
        &&& self.capture_radio <= 1
        &&& forall|i: int| 0 <= i < 4 ==> opt_rect_fits(#[trigger] self.hit.radio@[i])
        &&& opt_rect_fits(self.hit.next)
        &&& self.step == Step::CaptureSource ==> self.hit.radio@[2] is None && self.hit.radio@[3] is None
    }

    /// The wizard at its first screen.  `detected` is the OBS executable
    /// found on this machine, `output_dir` the suggested clip folder.
    pub fn new(detected: Option<String>, output_dir: String) -> (s: Self)
        ensures
            s.wf(),
            s.step == Step::Welcome,
            s.obs_radio == (if detected is Some { 1usize } else { 0usize }),
            s.obs_path@ == detected_or_empty(detected),
            s.obs_detected == detected,
            s.output_dir@ == output_dir@,
            s.buffer_secs == 30,
            s.capture_radio == 0,
            s.autostart,
            s.cursor == 0,
            s.error is None,
    {
        let obs_radio: usize = if detected.is_some() { 1 } else { 0 };
        let obs_path = match &detected {
            Some(p) => chars_of(p.as_str()),
            None => Vec::new(),
        };
        State {
            step: Step::Welcome,
            obs_radio,
            obs_path,
            obs_detected: detected,
            output_dir: chars_of(output_dir.as_str()),
            buffer_secs: 30,
            capture_radio: 0,
            autostart: true,
            cursor: 0,
            error: None,
            hit: HitRects { radio: [None, None, None, None], next: None },
        }
    }

    pub fn next_step(&mut self)
        requires
            old(self).wf(),
        ensures
            final(self).step == next_step_of(old(self).step, old(self).obs_radio),
            final(self).cursor == 0,
            final(self).error is None,
            same_answers(*final(self), *old(self)),
            final(self).hit.radio == old(self).hit.radio,
            final(self).hit.next == old(self).hit.next,
            final(self).wf() || (final(self).step == Step::CaptureSource && !(final(self).hit.radio@[2] is None && final(self).hit.radio@[3] is None)),
    {
        self.step = match self.step {
            Step::Welcome => Step::ObsChoice,
            Step::ObsChoice => if self.obs_radio == 1 { Step::ObsPath } else { Step::OutputDir },
            Step::ObsPath => Step::OutputDir,
            Step::OutputDir => Step::BufferDuration,
            Step::BufferDuration => Step::CaptureSource,
            Step::CaptureSource => Step::Autostart,
            Step::Autostart => Step::Confirm,
            Step::Confirm => Step::Confirm,
        };
        self.cursor = 0;
        self.error = None;
    }

    pub fn prev_step(&mut self)
        requires
            old(self).wf(),
        ensures
            final(self).step == prev_step_of(old(self).step, old(self).obs_radio),
            final(self).cursor == 0,
            final(self).error is None,
            same_answers(*final(self), *old(self)),
            final(self).hit.radio == old(self).hit.radio,
            final(self).hit.next == old(self).hit.next,
            final(self).wf() || (final(self).step == Step::CaptureSource && !(final(self).hit.radio@[2] is None && final(self).hit.radio@[3] is None)),
    {
        self.step = match self.step {
            Step::Welcome => Step::Welcome,
            Step::ObsChoice => Step::Welcome,
            Step::ObsPath => Step::ObsChoice,
            Step::OutputDir => if self.obs_radio == 1 { Step::ObsPath } else { Step::ObsChoice },
            Step::BufferDuration => Step::OutputDir,
            Step::CaptureSource => Step::BufferDuration,
            Step::Autostart => Step::CaptureSource,
            Step::Confirm => Step::Autostart,
        };
        self.cursor = 0;
        self.error = None;
    }

    /// Records the clickable areas of the frame just drawn.
    pub fn set_hit_rects(&mut self, radio: [Option<Rect>; 4], next: Option<Rect>)
        requires
            forall|i: int| 0 <= i < 4 ==> opt_rect_fits(#[trigger] radio@[i]),
            opt_rect_fits(next),
            old(self).step == Step::CaptureSource ==> radio@[2] is None && radio@[3] is None,
            old(self).step == Step::ObsPath ==> old(self).cursor <= old(self).obs_path@.len(),
            old(self).step == Step::OutputDir ==> old(self).cursor <= old(self).output_dir@.len(),
            15 <= old(self).buffer_secs <= 600,
            old(self).capture_radio <= 1,
        ensures
            final(self).wf(),
            final(self).hit.radio == radio,
            final(self).hit.next == next,
            final(self).step == old(self).step,
            final(self).cursor == old(self).cursor,
            same_answers(*final(self), *old(self)),
    {
        self.hit = HitRects { radio, next };
    }

    /// The answers collected.
    pub fn to_options(&self) -> (o: SetupOptions)
        ensures
            match o.obs {
                ObsChoice::Existing(p) => self.obs_radio == 1 && p@ == self.obs_path@,
                ObsChoice::Skip => self.obs_radio == 2,
                ObsChoice::Download => self.obs_radio != 1 && self.obs_radio != 2,
            },
            o.output_dir@ == self.output_dir@,
            o.buffer_secs == self.buffer_secs,
            o.capture_source@ == if self.capture_radio == 1 { "display"@ } else { "game"@ },
            o.autostart == self.autostart,
    {
        let obs = if self.obs_radio == 1 {
            ObsChoice::Existing(string_from_chars(&self.obs_path))
        } else if self.obs_radio == 2 {
            ObsChoice::Skip
        } else {
            ObsChoice::Download
        };
        SetupOptions {
            obs,
            output_dir: string_from_chars(&self.output_dir),
            buffer_secs: self.buffer_secs,
            capture_source: if self.capture_radio == 1 { owned("display") } else { owned("game") },
            autostart: self.autostart,
        }
    }

    pub fn visible_steps(&self) -> (v: Vec<Step>)
        ensures
            v@ == visible_steps_of(self.obs_radio),
    {
        let mut steps: Vec<Step> = Vec::new();
        steps.push(Step::ObsChoice);
        if self.obs_radio == 1 {
            steps.push(Step::ObsPath);
        }
        steps.push(Step::OutputDir);
        steps.push(Step::BufferDuration);
        steps.push(Step::CaptureSource);
        steps.push(Step::Autostart);
        steps.push(Step::Confirm);
        assert(steps@ =~= visible_steps_of(self.obs_radio));
        steps
    }

    /// (1-based position of the current step among the visible ones — 1 when
    /// it is not among them —, number of visible steps).
    pub fn step_index(&self) -> (r: (usize, usize))
        ensures
            r.1 == visible_steps_of(self.obs_radio).len(),
            ({
                let v = visible_steps_of(self.obs_radio);
                if v.contains(self.step) {
                    1 <= r.0 <= r.1 && v[r.0 - 1] == self.step && forall|k: int| 0 <= k < r.0 - 1 ==> v[k] != self.step
                } else {
                    r.0 == 1
                }
            }),
    {
        let steps = self.visible_steps();
        let mut i: usize = 0;
        while i < steps.len()
            invariant
                i <= steps.len(),
                steps@ == visible_steps_of(self.obs_radio),
                forall|k: int| 0 <= k < i ==> steps@[k] != self.step,
            decreases steps.len() - i,
        {
            if steps[i] == self.step {
                return (i + 1, steps.len());
            }
            i += 1;
        }
        (1, steps.len())
    }
}

// ── Key handling ──────────────────────────────────────────────────────────────

/// Inserts a character at the cursor and moves the cursor past it.
fn type_char(field: &mut Vec<char>, cursor: &mut usize, c: char)
    requires
        *old(cursor) <= old(field)@.len(),
    ensures
        final(field)@ == old(field)@.insert(*old(cursor) as int, c),
        *final(cursor) == *old(cursor) + 1,
        *final(cursor) <= final(field)@.len(),
{
    field.insert(*cursor, c);
    let n: usize = field.len();
    assert(*cursor < n);
    *cursor = *cursor + 1;
}

/// Deletes the character before the cursor.
fn backspace(field: &mut Vec<char>, cursor: &mut usize)
    requires
        *old(cursor) <= old(field)@.len(),
    ensures
        *old(cursor) > 0 ==> final(field)@ == old(field)@.remove(*old(cursor) - 1) && *final(cursor) == *old(cursor) - 1,
        *old(cursor) == 0 ==> final(field)@ == old(field)@ && *final(cursor) == 0,
        *final(cursor) <= final(field)@.len(),
{
    if *cursor > 0 {
        *cursor = *cursor - 1;
        let _gone = field.remove(*cursor);
    }
}

/// The effect of a key on a text field.
pub open spec fn edited(field: Seq<char>, cursor: usize, key: Key) -> (Seq<char>, usize) {
    match key {
        Key::Char(c) => (field.insert(cursor as int, c), (cursor + 1) as usize),
        Key::Backspace => if cursor > 0 {
            (field.remove(cursor - 1), (cursor - 1) as usize)
        } else {
            (field, cursor)
        },
        Key::Left => if cursor > 0 {
            (field, (cursor - 1) as usize)
        } else {
            (field, cursor)
        },
        Key::Right => if cursor < field.len() {
            (field, (cursor + 1) as usize)
        } else {
            (field, cursor)
        },
        _ => (field, cursor),
    }
}

/// The action of a key at each step (see the help line of each step): `←`
/// goes back wherever the help line offers it.  On the two text steps every
/// character key is typed into the field, `q` included, since a path may hold
/// any character; those steps are left with Esc or `↑` (back) instead, and
/// their help lines do not offer `q`.
pub open spec fn key_action_of(step: Step, key: Key, cursor: usize, path: Seq<char>, out_len: nat) -> KeyAction {
    match step {
        Step::Welcome => match key {
            Key::Enter | Key::Right => KeyAction::Next,
            Key::Char('q') | Key::Esc => KeyAction::Quit,
            _ => KeyAction::None_,
        },
        Step::ObsChoice => match key {
            Key::Enter | Key::Right => KeyAction::Next,
            Key::Left => KeyAction::Prev,
            Key::Char('q') | Key::Esc => KeyAction::Quit,
            _ => KeyAction::None_,
        },
        Step::ObsPath => match key {
            Key::Enter => if trim(path).len() == 0 { KeyAction::None_ } else { KeyAction::Next },
            Key::Right => if cursor < path.len() { KeyAction::None_ } else { KeyAction::Next },
            Key::Up | Key::Esc => KeyAction::Prev,
            _ => KeyAction::None_,
        },
        Step::OutputDir => match key {
            Key::Enter => KeyAction::Next,
            Key::Up | Key::Esc => KeyAction::Prev,
            _ => KeyAction::None_,
        },
        Step::BufferDuration => match key {
            Key::Enter => KeyAction::Next,
            Key::Left => KeyAction::Prev,
            Key::Char('q') | Key::Esc => KeyAction::Quit,
            _ => KeyAction::None_,
        },
        Step::CaptureSource => match key {
            Key::Enter | Key::Right => KeyAction::Next,
            Key::Left => KeyAction::Prev,
            Key::Char('q') | Key::Esc => KeyAction::Quit,
            _ => KeyAction::None_,
        },
        Step::Autostart => match key {
            Key::Enter => KeyAction::Next,
            Key::Left => KeyAction::Prev,
            Key::Char('q') | Key::Esc => KeyAction::Quit,
            _ => KeyAction::None_,
        },
        Step::Confirm => match key {
            Key::Enter => KeyAction::Done,
            Key::Left | Key::Char('b') => KeyAction::Prev,
            Key::Char('q') | Key::Esc => KeyAction::Quit,
            _ => KeyAction::None_,
        },
    }
}

pub open spec fn is_up(k: Key) -> bool {
    k == Key::Up || k == Key::Char('k')
}

pub open spec fn is_down(k: Key) -> bool {
    k == Key::Down || k == Key::Char('j')
}

/// Handles one key press at the current step.  The step itself changes only
/// when the caller applies the returned `Next` or `Prev`.
pub fn handle_key(state: &mut State, key: Key) -> (a: KeyAction)
    requires
        old(state).wf(),
    ensures
        final(state).wf(),
        final(state).step == old(state).step,
        final(state).hit.radio == old(state).hit.radio,
        final(state).hit.next == old(state).hit.next,
        a == key_action_of(old(state).step, key, old(state).cursor, old(state).obs_path@, old(state).output_dir@.len()),
        final(state).obs_detected == old(state).obs_detected,
        // OBS choice: up/down move within the three options; confirming a
        // choice other than "existing" resets the path to the detected one.
        old(state).step == Step::ObsChoice ==> {
            &&& final(state).obs_radio == if is_up(key) && old(state).obs_radio > 0 {
                (old(state).obs_radio - 1) as usize
            } else if is_down(key) && old(state).obs_radio < 2 {
                (old(state).obs_radio + 1) as usize
            } else {
                old(state).obs_radio
            }
            &&& final(state).obs_path@ == if (key == Key::Enter || key == Key::Right) && old(state).obs_radio != 1 {
                detected_or_empty(old(state).obs_detected)
            } else {
                old(state).obs_path@
            }
            &&& final(state).output_dir@ == old(state).output_dir@
            &&& final(state).buffer_secs == old(state).buffer_secs
            &&& final(state).capture_radio == old(state).capture_radio
            &&& final(state).autostart == old(state).autostart
        },
        // Text fields: typing inserts at the cursor, backspace deletes before
        // it, left/right move it; an empty path is refused with a message.
        old(state).step == Step::ObsPath ==> {
            &&& (final(state).obs_path@, final(state).cursor) == edited(old(state).obs_path@, old(state).cursor, key)
            &&& key == Key::Enter && trim(old(state).obs_path@).len() == 0 ==> (final(state).error matches Some(m) && m@ == empty_path_message())
            &&& !(key == Key::Enter && trim(old(state).obs_path@).len() == 0) ==> final(state).error == old(state).error
            &&& same_answers(*final(state), State { obs_path: final(state).obs_path, ..*old(state) })
        },
        old(state).step == Step::OutputDir ==> {
            &&& (final(state).output_dir@, final(state).cursor) == edited(old(state).output_dir@, old(state).cursor, key)
            &&& final(state).error == old(state).error
            &&& same_answers(*final(state), State { output_dir: final(state).output_dir, ..*old(state) })
        },
        // Outside the text fields the cursor and the message stay as they are.
        old(state).step != Step::ObsPath && old(state).step != Step::OutputDir ==> {
            &&& final(state).cursor == old(state).cursor
            &&& final(state).error == old(state).error
        },
        // Buffer: 15-second steps between 15 and 600 (up/right raise it,
        // down lowers it; left goes back).
        old(state).step == Step::BufferDuration ==> {
            &&& final(state).buffer_secs == if is_up(key) || key == Key::Right {
                if old(state).buffer_secs + 15 < 600 { (old(state).buffer_secs + 15) as u32 } else { 600u32 }
            } else if is_down(key) {
                if old(state).buffer_secs >= 30 { (old(state).buffer_secs - 15) as u32 } else { 15u32 }
            } else {
                old(state).buffer_secs
            }
            &&& same_answers(*final(state), State { buffer_secs: final(state).buffer_secs, ..*old(state) })
        },
        old(state).step == Step::CaptureSource ==> {
            &&& final(state).capture_radio == if is_up(key) || is_down(key) { (1 - old(state).capture_radio) as usize } else { old(state).capture_radio }
            &&& same_answers(*final(state), State { capture_radio: final(state).capture_radio, ..*old(state) })
        },
        old(state).step == Step::Autostart ==> {
            &&& final(state).autostart == if is_up(key) || is_down(key) || key == Key::Right || key == Key::Char(' ') {
                !old(state).autostart
            } else {
                old(state).autostart
            }
            &&& same_answers(*final(state), State { autostart: final(state).autostart, ..*old(state) })
        },
        (old(state).step == Step::Welcome || old(state).step == Step::Confirm) ==> same_answers(*final(state), *old(state)),
{
    match state.step {
        Step::Welcome => match key {
            Key::Enter | Key::Right => KeyAction::Next,
            Key::Char('q') | Key::Esc => KeyAction::Quit,
            _ => KeyAction::None_,
        },
        Step::ObsChoice => match key {
            Key::Up | Key::Char('k') => {
                if state.obs_radio > 0 {
                    state.obs_radio = state.obs_radio - 1;
                }
                KeyAction::None_
            },
            Key::Down | Key::Char('j') => {
                if state.obs_radio < 2 {
                    state.obs_radio = state.obs_radio + 1;
                }
                KeyAction::None_
            },
            Key::Enter | Key::Right => {
                // If switching away from "existing", reset path to detected
                if state.obs_radio != 1 {
                    state.obs_path = match &state.obs_detected {
                        Some(p) => chars_of(p.as_str()),
                        None => Vec::new(),
                    };
                }
                KeyAction::Next
            },
            Key::Left => KeyAction::Prev,
            Key::Char('q') | Key::Esc => KeyAction::Quit,
            _ => KeyAction::None_,
        },
        Step::ObsPath => match key {
            Key::Char(c) => {
                type_char(&mut state.obs_path, &mut state.cursor, c);
                KeyAction::None_
            },
            Key::Backspace => {
                backspace(&mut state.obs_path, &mut state.cursor);
                KeyAction::None_
            },
            Key::Left => {
                if state.cursor > 0 {
                    state.cursor = state.cursor - 1;
                }
                KeyAction::None_
            },
            Key::Right => {
                if state.cursor < state.obs_path.len() {
                    state.cursor = state.cursor + 1;
                    KeyAction::None_
                } else {
                    KeyAction::Next
                }
            },
            Key::Enter => {
                let t = trim_chars(&state.obs_path);
                if t.len() == 0 {
                    state.error = Some(owned("Please enter a path to obs64.exe."));
                    KeyAction::None_
                } else {
                    KeyAction::Next
                }
            },
            Key::Up | Key::Esc => KeyAction::Prev,
            _ => KeyAction::None_,
        },
        Step::OutputDir => match key {
            Key::Char(c) => {
                type_char(&mut state.output_dir, &mut state.cursor, c);
                KeyAction::None_
            },
            Key::Backspace => {
                backspace(&mut state.output_dir, &mut state.cursor);
                KeyAction::None_
            },
            Key::Left => {
                if state.cursor > 0 {
                    state.cursor = state.cursor - 1;
                }
                KeyAction::None_
            },
            Key::Right => {
                if state.cursor < state.output_dir.len() {
                    state.cursor = state.cursor + 1;
                }
                KeyAction::None_
            },
            Key::Enter => KeyAction::Next,
            Key::Up | Key::Esc => KeyAction::Prev,
            _ => KeyAction::None_,
        },
        Step::BufferDuration => match key {
            Key::Up | Key::Char('k') | Key::Right => {
                state.buffer_secs = if state.buffer_secs + 15 < 600 { state.buffer_secs + 15 } else { 600 };
                KeyAction::None_
            },
            Key::Down | Key::Char('j') => {
                state.buffer_secs = if state.buffer_secs >= 30 { state.buffer_secs - 15 } else { 15 };
                KeyAction::None_
            },
            Key::Enter => KeyAction::Next,
            Key::Left => KeyAction::Prev,
            Key::Char('q') | Key::Esc => KeyAction::Quit,
            _ => KeyAction::None_,
        },
        Step::CaptureSource => match key {
            Key::Up | Key::Char('k') | Key::Down | Key::Char('j') => {
                state.capture_radio = 1 - state.capture_radio;
                KeyAction::None_
            },
            Key::Enter | Key::Right => KeyAction::Next,
            Key::Left => KeyAction::Prev,
            Key::Char('q') | Key::Esc => KeyAction::Quit,
            _ => KeyAction::None_,
        },
        Step::Autostart => match key {
            Key::Up | Key::Char('k') | Key::Down | Key::Char('j') | Key::Right | Key::Char(' ') => {
                state.autostart = !state.autostart;
                KeyAction::None_
            },
            Key::Enter => KeyAction::Next,
            Key::Left => KeyAction::Prev,
            Key::Char('q') | Key::Esc => KeyAction::Quit,
            _ => KeyAction::None_,
        },
        Step::Confirm => match key {
            Key::Enter => KeyAction::Done,
            Key::Left | Key::Char('b') => KeyAction::Prev,
            Key::Char('q') | Key::Esc => KeyAction::Quit,
            _ => KeyAction::None_,
        },
    }
}

// ── Mouse handling ────────────────────────────────────────────────────────────

/// The first radio option under the point.
pub open spec fn radio_hit(radio: Seq<Option<Rect>>, col: u16, row: u16) -> Option<int> {
    if radio[0] matches Some(r) && in_rect(r, col, row) {
        Some(0)
    } else if radio[1] matches Some(r) && in_rect(r, col, row) {
        Some(1)
    } else if radio[2] matches Some(r) && in_rect(r, col, row) {
        Some(2)
    } else if radio[3] matches Some(r) && in_rect(r, col, row) {
        Some(3)
    } else {
        None
    }
}

/// A left click on a radio option selects it (clicking the selected option
/// again advances); on the "next" area it advances, or finishes on Confirm.
pub fn handle_mouse(state: &mut State, kind: MouseKind, col: u16, row: u16) -> (a: KeyAction)
    requires
        old(state).wf(),
    ensures
        final(state).wf(),
        final(state).step == old(state).step,
        final(state).cursor == old(state).cursor,
        final(state).hit.radio == old(state).hit.radio,
        final(state).hit.next == old(state).hit.next,
        final(state).obs_path@ == old(state).obs_path@,
        final(state).output_dir@ == old(state).output_dir@,
        final(state).buffer_secs == old(state).buffer_secs,
        kind != MouseKind::LeftDown ==> a == KeyAction::None_ && same_answers(*final(state), *old(state)),
        kind == MouseKind::LeftDown ==> match radio_hit(old(state).hit.radio@, col, row) {
            Some(i) => match old(state).step {
                Step::ObsChoice => final(state).obs_radio == i
                    && a == (if old(state).obs_radio == i { KeyAction::Next } else { KeyAction::None_ })
                    && final(state).capture_radio == old(state).capture_radio && final(state).autostart == old(state).autostart,
                Step::CaptureSource => final(state).capture_radio == i
                    && a == (if old(state).capture_radio == i { KeyAction::Next } else { KeyAction::None_ })
                    && final(state).obs_radio == old(state).obs_radio && final(state).autostart == old(state).autostart,
                Step::Autostart => final(state).autostart == (i == 0) && a == KeyAction::None_
                    && final(state).obs_radio == old(state).obs_radio && final(state).capture_radio == old(state).capture_radio,
                _ => a == KeyAction::None_ && same_answers(*final(state), *old(state)),
            },
            None => same_answers(*final(state), *old(state)) && a == match old(state).hit.next {
                Some(r) => if in_rect(r, col, row) {
                    if old(state).step == Step::Confirm { KeyAction::Done } else { KeyAction::Next }
                } else {
                    KeyAction::None_
                },
                None => KeyAction::None_,
            },
        },
{
    if kind != MouseKind::LeftDown {
        return KeyAction::None_;
    }
    let mut i: usize = 0;
    while i < 4
        invariant
            i <= 4,
            kind == MouseKind::LeftDown,
            state.wf(),
            *state == *old(state),
            forall|k: int| 0 <= k < i ==> !(#[trigger] state.hit.radio@[k] matches Some(r) && in_rect(r, col, row)),
        decreases 4 - i,
    {
        let hit = match state.hit.radio[i] {
            Some(r) => {
                assert(opt_rect_fits(state.hit.radio@[i as int]));
                rect_contains(r, col, row)
            },
            None => false,
        };
        if hit {
            assert(radio_hit(state.hit.radio@, col, row) == Some(i as int));
            match state.step {
                Step::ObsChoice => {
                    let was = state.obs_radio;
                    state.obs_radio = i;
                    // Clicking the selected option again advances
                    if was == i {
                        return KeyAction::Next;
                    }
                },
                Step::CaptureSource => {
                    let was = state.capture_radio;
                    state.capture_radio = i;
                    if was == i {
                        return KeyAction::Next;
                    }
                },
                Step::Autostart => {
                    state.autostart = i == 0;
                },
                _ => {},
            }
            return KeyAction::None_;
        }
        i += 1;
    }
    assert(radio_hit(state.hit.radio@, col, row) is None);
    match state.hit.next {
        Some(r) => {
            if rect_contains(r, col, row) {
                return match state.step {
                    Step::Confirm => KeyAction::Done,
                    _ => KeyAction::Next,
                };
            }
        },
        None => {},
    }
    KeyAction::None_
}

// ── Laws ─────────────────────────────────────────────────────────────────────

/// Going forward then back returns to the same step, for every step but
/// Confirm (which `next` leaves in place); the OBS path step takes part only
/// when the user chose an existing install, the one case in which it is shown.
pub proof fn law_next_then_prev(s: Step, obs_radio: usize)
    requires
        s != Step::Confirm,
        s == Step::ObsPath ==> obs_radio == 1,
    ensures
        prev_step_of(next_step_of(s, obs_radio), obs_radio) == s,
{
}

/// Every step after the welcome screen is reached by `next` from the one the
/// progress bar shows before it, and the last visible step is Confirm.
pub proof fn law_visible_steps_follow_next(obs_radio: usize)
    ensures
        ({
            let v = visible_steps_of(obs_radio);
            &&& v.last() == Step::Confirm
            &&& forall|k: int| 0 <= k < v.len() - 1 ==> next_step_of(#[trigger] v[k], obs_radio) == v[k + 1]
            &&& next_step_of(Step::Welcome, obs_radio) == v[0]
        }),
{
}

} // verus!
