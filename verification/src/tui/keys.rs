//! What each key, mouse event and daemon message does to the TUI.
use vstd::prelude::*;
use crate::tui::app::{
    App, CompressField, Focus, Modal, after_upsert, non_empty_of, after_on_click, after_on_scroll,
    after_toggle_focus, after_select_next, after_select_prev, after_open_post_process, after_open_compress,
    after_open_share, after_close_modal, after_pp_nav_down, after_pp_nav_up, after_pp_toggle, after_pp_inc,
    after_pp_dec, after_compress_nav_down, after_compress_nav_up, after_compress_cycle_left,
    after_compress_cycle_right, after_compress_backspace, after_compress_type_char, after_share_expiry_next,
    after_share_expiry_prev,
};
use crate::ipc::{ClientMessage, ServerMessage};
use crate::job::{Job, JobKind, JobStatus};

verus! {

/// A key press, as the terminal reports it.
#[derive(Clone, Copy, Debug, PartialEq, Eq, Structural)]
pub enum Key {
    Char(char),
    Tab,
    Up,
    Down,
    Left,
    Right,
    Enter,
    Esc,
    Backspace,
    Other,
}

/// Which dialog is open.
#[derive(Clone, Copy, Debug, PartialEq, Eq, Structural)]
pub enum ModalKind {
    Closed,
    PostProcess,
    Compress,
    Share,
}

pub open spec fn modal_kind(m: Modal) -> ModalKind {
    match m {
        Modal::Closed => ModalKind::Closed,
        Modal::PostProcess(_) => ModalKind::PostProcess,
        Modal::Compress(_) => ModalKind::Compress,
        Modal::Share(_) => ModalKind::Share,
    }
}

/// Whether the compress dialog's cursor is on a trim field.
pub open spec fn on_trim_field(m: Modal) -> bool {
    m matches Modal::Compress(s) && (s.field == CompressField::TrimStart || s.field == CompressField::TrimEnd)
}

/// What a key means where it is pressed.
#[derive(Clone, Copy, Debug, PartialEq, Eq, Structural)]
pub enum Command {
    Quit,
    ToggleFocus,
    SelectNext,
    SelectPrev,
    CancelJob,
    OpenPostProcess,
    OpenCompress,
    OpenShare,
    CloseModal,
    PpDown,
    PpUp,
    PpToggle,
    PpInc,
    PpDec,
    PpConfirm,
    CompressDown,
    CompressUp,
    CompressLeft,
    CompressRight,
    CompressBackspace,
    CompressType(char),
    CompressConfirm,
    ShareNext,
    SharePrev,
    ShareConfirm,
    /// Forget the share link of the clip under the cursor (or in the open
    /// share dialog).
    DeleteShare,
    Ignore,
}

/// The key map of the TUI (see the help line of each view).
pub open spec fn key_command(k: ModalKind, focus: Focus, on_trim: bool, key: Key) -> Command {
    match k {
        ModalKind::Closed => match key {
            Key::Char('q') | Key::Esc => Command::Quit,
            Key::Tab => Command::ToggleFocus,
            Key::Down | Key::Char('j') => Command::SelectNext,
            Key::Up | Key::Char('k') => Command::SelectPrev,
            Key::Char('c') => if focus == Focus::Jobs { Command::CancelJob } else { Command::Ignore },
            Key::Char('p') => if focus == Focus::Clips { Command::OpenPostProcess } else { Command::Ignore },
            Key::Char('x') => if focus == Focus::Clips { Command::OpenCompress } else { Command::Ignore },
            Key::Char('s') => if focus == Focus::Clips { Command::OpenShare } else { Command::Ignore },
            Key::Char('d') => if focus == Focus::Clips { Command::DeleteShare } else { Command::Ignore },
            _ => Command::Ignore,
        },
        ModalKind::PostProcess => match key {
            Key::Esc => Command::CloseModal,
            Key::Down | Key::Char('j') => Command::PpDown,
            Key::Up | Key::Char('k') => Command::PpUp,
            Key::Char(' ') => Command::PpToggle,
            Key::Right | Key::Char('+') | Key::Char('l') => Command::PpInc,
            Key::Left | Key::Char('-') | Key::Char('h') => Command::PpDec,
            Key::Enter => Command::PpConfirm,
            _ => Command::Ignore,
        },
        ModalKind::Compress => match key {
            Key::Esc => Command::CloseModal,
            Key::Down | Key::Tab => Command::CompressDown,
            Key::Up => Command::CompressUp,
            Key::Left => Command::CompressLeft,
            Key::Right => Command::CompressRight,
            Key::Backspace => if on_trim { Command::CompressBackspace } else { Command::Ignore },
            Key::Char(c) => if on_trim { Command::CompressType(c) } else { Command::Ignore },
            Key::Enter => Command::CompressConfirm,
            _ => Command::Ignore,
        },
        ModalKind::Share => match key {
            Key::Esc => Command::CloseModal,
            Key::Left => Command::SharePrev,
            Key::Right => Command::ShareNext,
            Key::Enter => Command::ShareConfirm,
            Key::Char('d') => Command::DeleteShare,
            _ => Command::Ignore,
        },
    }
}

pub fn command_for(app: &App, key: Key) -> (c: Command)
    ensures
        c == key_command(modal_kind(app.modal), app.focus, on_trim_field(app.modal), key),
{
    match &app.modal {
        Modal::Closed => match key {
            Key::Char('q') | Key::Esc => Command::Quit,
            Key::Tab => Command::ToggleFocus,
            Key::Down | Key::Char('j') => Command::SelectNext,
            Key::Up | Key::Char('k') => Command::SelectPrev,
            Key::Char('c') => if app.focus == Focus::Jobs { Command::CancelJob } else { Command::Ignore },
            Key::Char('p') => if app.focus == Focus::Clips { Command::OpenPostProcess } else { Command::Ignore },
            Key::Char('x') => if app.focus == Focus::Clips { Command::OpenCompress } else { Command::Ignore },
            Key::Char('s') => if app.focus == Focus::Clips { Command::OpenShare } else { Command::Ignore },
            Key::Char('d') => if app.focus == Focus::Clips { Command::DeleteShare } else { Command::Ignore },
            _ => Command::Ignore,
        },
        Modal::PostProcess(_) => match key {
            Key::Esc => Command::CloseModal,
            Key::Down | Key::Char('j') => Command::PpDown,
            Key::Up | Key::Char('k') => Command::PpUp,
            Key::Char(' ') => Command::PpToggle,
            Key::Right | Key::Char('+') | Key::Char('l') => Command::PpInc,
            Key::Left | Key::Char('-') | Key::Char('h') => Command::PpDec,
            Key::Enter => Command::PpConfirm,
            _ => Command::Ignore,
        },
        Modal::Compress(s) => {
            let on_trim = s.field == CompressField::TrimStart || s.field == CompressField::TrimEnd;
            match key {
                Key::Esc => Command::CloseModal,
                Key::Down | Key::Tab => Command::CompressDown,
                Key::Up => Command::CompressUp,
                Key::Left => Command::CompressLeft,
                Key::Right => Command::CompressRight,
                Key::Backspace => if on_trim { Command::CompressBackspace } else { Command::Ignore },
                Key::Char(c) => if on_trim { Command::CompressType(c) } else { Command::Ignore },
                Key::Enter => Command::CompressConfirm,
                _ => Command::Ignore,
            }
        },
        Modal::Share(_) => match key {
            Key::Esc => Command::CloseModal,
            Key::Left => Command::SharePrev,
            Key::Right => Command::ShareNext,
            Key::Enter => Command::ShareConfirm,
            Key::Char('d') => Command::DeleteShare,
            _ => Command::Ignore,
        },
    }
}

/// What the program does after a key.
#[derive(Debug, Clone)]
pub enum KeyOutcome {
    /// Keep running.
    Continue,
    /// Leave the TUI.
    Quit,
    /// Send this request to the daemon, then keep running.
    Send(ClientMessage),
}

/// Handles one key press: updates the state, and says whether to quit or
/// what to send to the daemon.  A confirmed dialog is closed; the post-process
/// dialog sends nothing when no effect is enabled.
/// What a command does to the dashboard.
pub open spec fn command_effect(c: Command, a: App, b: App) -> bool {
    match c {
        Command::Quit | Command::CancelJob | Command::Ignore => b == a,
        Command::ToggleFocus => after_toggle_focus(a, b),
        Command::SelectNext => after_select_next(a, b),
        Command::SelectPrev => after_select_prev(a, b),
        Command::OpenPostProcess => after_open_post_process(a, b),
        Command::OpenCompress => after_open_compress(a, b),
        Command::OpenShare => after_open_share(a, b),
        Command::CloseModal | Command::PpConfirm | Command::CompressConfirm | Command::ShareConfirm => after_close_modal(a, b),
        Command::PpDown => after_pp_nav_down(a, b),
        Command::PpUp => after_pp_nav_up(a, b),
        Command::PpToggle => after_pp_toggle(a, b),
        Command::PpInc => after_pp_inc(a, b),
        Command::PpDec => after_pp_dec(a, b),
        Command::CompressDown => after_compress_nav_down(a, b),
        Command::CompressUp => after_compress_nav_up(a, b),
        Command::CompressLeft => after_compress_cycle_left(a, b),
        Command::CompressRight => after_compress_cycle_right(a, b),
        Command::CompressBackspace => after_compress_backspace(a, b),
        Command::CompressType(ch) => after_compress_type_char(a, b, ch),
        Command::ShareNext => after_share_expiry_next(a, b),
        Command::SharePrev => after_share_expiry_prev(a, b),
        // From the share dialog, a shared clip's link is dropped and the
        // dialog closes; otherwise nothing changes.
        Command::DeleteShare => if a.modal matches Modal::Share(s) && s.clip.share_url is Some {
            after_close_modal(a, b)
        } else {
            b == a
        },
    }
}

/// The clip whose share link `d` drops: the one in the share dialog, or else
/// the selected clip; only a clip that has a link.
pub open spec fn share_to_delete(a: App) -> Option<Seq<char>> {
    match a.modal {
        Modal::Share(s) => if s.clip.share_url is Some { Some(s.clip.path@) } else { None },
        _ => match a.clip_selected {
            Some(i) => if i < a.clips@.len() && a.clips@[i as int].share_url is Some {
                Some(a.clips@[i as int].path@)
            } else {
                None
            },
            None => None,
        },
    }
}

/// Applies a key: the dashboard changes as its command says, and a request
/// for the daemon is returned when the command makes one.
pub fn handle_key(app: &mut App, key: Key) -> (r: KeyOutcome)
    requires
        old(app).wf(),
    ensures
        final(app).wf(),
        ({
            let c = key_command(modal_kind(old(app).modal), old(app).focus, on_trim_field(old(app).modal), key);
            &&& command_effect(c, *old(app), *final(app))
            &&& (r is Quit <==> c == Command::Quit)
            &&& c == Command::CancelJob ==> match old(app).job_selected {
                Some(i) if i < old(app).jobs@.len() => r matches KeyOutcome::Send(ClientMessage::Cancel { id }) && id == old(app).jobs@[i as int].id,
                _ => r is Continue,
            }
            &&& c == Command::ShareConfirm ==> (match old(app).modal {
                Modal::Share(s) => r matches KeyOutcome::Send(ClientMessage::Share { clip_path, expiry })
                    && clip_path@ == s.clip.path@ && expiry@ == crate::share::expiry_key(s.expiry_idx as int),
                _ => false,
            })
            &&& c == Command::PpConfirm ==> (match old(app).modal {
                Modal::PostProcess(s) => if crate::tui::app::row_effects(s.rows@).len() == 0 {
                    r is Continue
                } else {
                    r matches KeyOutcome::Send(ClientMessage::PostProcess { clip_path, effects })
                        && clip_path@ == s.clip_path@ && effects@ == crate::tui::app::row_effects(s.rows@)
                },
                _ => false,
            })
            &&& c == Command::CompressConfirm ==> (match old(app).modal {
                Modal::Compress(s) => r matches KeyOutcome::Send(ClientMessage::Compress { clip_path, options })
                    && clip_path@ == s.clip_path@ && options.codec == crate::tui::app::codec_at(s.codec_idx as int)
                    && options.quality == crate::tui::app::quality_at(s.quality_idx as int)
                    && (match options.trim_start {
                        Some(t) => non_empty_of(s.trim_start@) == Some(t@),
                        None => non_empty_of(s.trim_start@) is None,
                    })
                    && (match options.trim_end {
                        Some(t) => non_empty_of(s.trim_end@) == Some(t@),
                        None => non_empty_of(s.trim_end@) is None,
                    }),
                _ => false,
            })
            &&& c == Command::DeleteShare ==> match share_to_delete(*old(app)) {
                Some(p) => r matches KeyOutcome::Send(ClientMessage::DeleteShare { clip_path }) && clip_path@ == p,
                None => r is Continue,
            }
            &&& !(c == Command::Quit || c == Command::CancelJob || c == Command::PpConfirm || c == Command::CompressConfirm || c == Command::ShareConfirm || c == Command::DeleteShare) ==> r is Continue
            // Esc in an open dialog closes it and sends nothing.
            &&& key == Key::Esc && !(old(app).modal is Closed) ==> r is Continue && final(app).modal is Closed
        }),
{
    let c = command_for(app, key);
    match c {
        Command::Quit => KeyOutcome::Quit,
        Command::ToggleFocus => {
            app.toggle_focus();
            KeyOutcome::Continue
        },
        Command::SelectNext => {
            app.select_next();
            KeyOutcome::Continue
        },
        Command::SelectPrev => {
            app.select_prev();
            KeyOutcome::Continue
        },
        Command::CancelJob => match app.selected_job_id() {
            Some(id) => KeyOutcome::Send(ClientMessage::Cancel { id }),
            None => KeyOutcome::Continue,
        },
        Command::OpenPostProcess => {
            app.open_post_process();
            KeyOutcome::Continue
        },
        Command::OpenCompress => {
            app.open_compress();
            KeyOutcome::Continue
        },
        Command::OpenShare => {
            app.open_share();
            KeyOutcome::Continue
        },
        Command::CloseModal => {
            app.close_modal();
            KeyOutcome::Continue
        },
        Command::PpDown => {
            app.pp_nav_down();
            KeyOutcome::Continue
        },
        Command::PpUp => {
            app.pp_nav_up();
            KeyOutcome::Continue
        },
        Command::PpToggle => {
            app.pp_toggle();
            KeyOutcome::Continue
        },
        Command::PpInc => {
            app.pp_inc();
            KeyOutcome::Continue
        },
        Command::PpDec => {
            app.pp_dec();
            KeyOutcome::Continue
        },
        Command::PpConfirm => {
            let r = match app.pp_confirm() {
                Some((clip_path, effects)) => KeyOutcome::Send(ClientMessage::PostProcess { clip_path, effects }),
                None => KeyOutcome::Continue,
            };
            app.close_modal();
            r
        },
        Command::CompressDown => {
            app.compress_nav_down();
            KeyOutcome::Continue
        },
        Command::CompressUp => {
            app.compress_nav_up();
            KeyOutcome::Continue
        },
        Command::CompressLeft => {
            app.compress_cycle_left();
            KeyOutcome::Continue
        },
        Command::CompressRight => {
            app.compress_cycle_right();
            KeyOutcome::Continue
        },
        Command::CompressBackspace => {
            app.compress_backspace();
            KeyOutcome::Continue
        },
        Command::CompressType(ch) => {
            app.compress_type_char(ch);
            KeyOutcome::Continue
        },
        Command::CompressConfirm => {
            let r = match app.compress_confirm() {
                Some((clip_path, options)) => KeyOutcome::Send(ClientMessage::Compress { clip_path, options }),
                None => KeyOutcome::Continue,
            };
            app.close_modal();
            r
        },
        Command::ShareNext => {
            app.share_expiry_next();
            KeyOutcome::Continue
        },
        Command::SharePrev => {
            app.share_expiry_prev();
            KeyOutcome::Continue
        },
        Command::ShareConfirm => {
            let r = match app.share_confirm() {
                Some((clip_path, expiry)) => KeyOutcome::Send(ClientMessage::Share { clip_path, expiry }),
                None => KeyOutcome::Continue,
            };
            app.close_modal();
            r
        },
        Command::DeleteShare => {
            let in_dialog = match &app.modal {
                Modal::Share(s) => match &s.clip.share_url {
                    Some(_) => Some(s.clip.path.clone()),
                    None => None,
                },
                _ => None,
            };
            match in_dialog {
                Some(clip_path) => {
                    app.close_modal();
                    KeyOutcome::Send(ClientMessage::DeleteShare { clip_path })
                },
                None => match &app.modal {
                    Modal::Share(_) => KeyOutcome::Continue,
                    _ => match app.selected_clip() {
                        Some(c) => match &c.share_url {
                            Some(_) => KeyOutcome::Send(ClientMessage::DeleteShare { clip_path: c.path.clone() }),
                            None => KeyOutcome::Continue,
                        },
                        None => KeyOutcome::Continue,
                    },
                },
            }
        },
        Command::Ignore => KeyOutcome::Continue,
    }
}

/// A mouse event, as the terminal reports it.
#[derive(Clone, Copy, Debug, PartialEq, Eq, Structural)]
pub enum MouseKind {
    LeftDown,
    ScrollDown,
    ScrollUp,
    Other,
}

/// Left clicks select, the wheel moves the selection of the list under it.
/// Applies a click or a turn of the wheel to the dashboard.
pub fn handle_mouse(app: &mut App, kind: MouseKind, col: u16, row: u16)
    requires
        old(app).wf(),
    ensures
        final(app).wf(),
        match kind {
            MouseKind::LeftDown => exists|changed: bool| after_on_click(*old(app), *final(app), col, row, changed),
            MouseKind::ScrollDown => after_on_scroll(*old(app), *final(app), col, row, true),
            MouseKind::ScrollUp => after_on_scroll(*old(app), *final(app), col, row, false),
            MouseKind::Other => *final(app) == *old(app),
        },
{
    match kind {
        MouseKind::LeftDown => {
            let changed = app.on_click(col, row);
            assert(after_on_click(*old(app), *app, col, row, changed));
        },
        MouseKind::ScrollDown => app.on_scroll(col, row, true),
        MouseKind::ScrollUp => app.on_scroll(col, row, false),
        MouseKind::Other => {},
    }
}

/// What the program does after a daemon message, besides the state update.
#[derive(Debug, Clone)]
pub enum MessageOutcome {
    Nothing,
    /// A share finished: put its URL on the clipboard.
    CopyToClipboard(String),
    /// The daemon reported an error.
    Warn(String),
}

/// The URL of a finished share job.
pub open spec fn finished_share_url(j: Job) -> Option<Seq<char>> {
    if j.kind is Share && j.status is Done {
        match j.share_url {
            Some(u) => Some(u@),
            None => None,
        }
    } else {
        None
    }
}

/// Applies a daemon message to the state.
/// The job list after hearing of each of `js` in turn.
pub open spec fn upsert_all(s: Seq<Job>, js: Seq<Job>) -> Seq<Job>
    decreases js.len(),
{
    if js.len() == 0 {
        s
    } else {
        upsert_all(after_upsert(s, js[0]), js.drop_first())
    }
}

pub fn handle_server_message(app: &mut App, msg: ServerMessage) -> (r: MessageOutcome)
    requires
        old(app).wf(),
    ensures
        final(app).wf(),
        final(app).focus == old(app).focus,
        match msg {
            ServerMessage::Snapshot { jobs } => final(app).jobs@ == upsert_all(old(app).jobs@, jobs@)
                && final(app).clips == old(app).clips && r is Nothing,
            ServerMessage::JobUpdate { job } => final(app).jobs@ == after_upsert(old(app).jobs@, job)
                && final(app).clips == old(app).clips && match finished_share_url(job) {
                Some(u) => r matches MessageOutcome::CopyToClipboard(s) && s@ == u,
                None => r is Nothing,
            },
            ServerMessage::ClipLibrary { clips } => final(app).clips == clips && r is Nothing,
            ServerMessage::ClipUpdated { clips } => final(app).clips == clips && r is Nothing,
            ServerMessage::UpdateAvailable { version } => final(app).update_available == Some(version) && r is Nothing,
            ServerMessage::Error { message } => r matches MessageOutcome::Warn(m) && m == message,
            _ => r is Nothing,
        },
{
    match msg {
        ServerMessage::Snapshot { jobs } => {
            let ghost target = upsert_all(app.jobs@, jobs@);
            let mut jobs = jobs;
            while jobs.len() > 0
                invariant
                    app.wf(),
                    app.focus == old(app).focus,
                    app.clips == old(app).clips,
                    upsert_all(app.jobs@, jobs@) == target,
                decreases jobs.len(),
            {
                let ghost before = jobs@;
                let j = jobs.remove(0);
                assert(jobs@ == before.drop_first());
                app.upsert_job(j);
            }
            MessageOutcome::Nothing
        },
        ServerMessage::JobUpdate { job } => {
            let url = if matches!(job.kind, JobKind::Share { .. }) && matches!(job.status, JobStatus::Done) {
                match &job.share_url {
                    Some(u) => Some(u.clone()),
                    None => None,
                }
            } else {
                None
            };
            app.upsert_job(job);
            match url {
                Some(u) => MessageOutcome::CopyToClipboard(u),
                None => MessageOutcome::Nothing,
            }
        },
        ServerMessage::ClipLibrary { clips } => {
            app.set_clips(clips);
            MessageOutcome::Nothing
        },
        ServerMessage::ClipUpdated { clips } => {
            app.set_clips(clips);
            MessageOutcome::Nothing
        },
        ServerMessage::UpdateAvailable { version } => {
            app.update_available = Some(version);
            MessageOutcome::Nothing
        },
        ServerMessage::Cancelled { .. } => MessageOutcome::Nothing,
        ServerMessage::Error { message } => MessageOutcome::Warn(message),
    }
}

/// Esc in an open dialog (post-process, compress or share) closes it and
/// sends nothing: whatever the focus or the field under the cursor, it is the
/// close command, and closing leaves no dialog open and the lists and focus
/// as they were.
pub proof fn law_esc_closes_dialogs(m: ModalKind, focus: Focus, on_trim: bool)
    requires
        m != ModalKind::Closed,
    ensures
        key_command(m, focus, on_trim, Key::Esc) == Command::CloseModal,
        forall|a: App, b: App| #[trigger] command_effect(Command::CloseModal, a, b) ==>
            b.modal is Closed && b.focus == a.focus && b.jobs@ == a.jobs@ && b.clips@ == a.clips@,
{
}

/// Enter in a dialog confirms that dialog (queueing its job), and in the
/// main view `q` and Esc quit; neither depends on the focus or the field
/// under the cursor.
pub proof fn law_enter_confirms_and_q_quits(focus: Focus, on_trim: bool)
    ensures
        key_command(ModalKind::PostProcess, focus, on_trim, Key::Enter) == Command::PpConfirm,
        key_command(ModalKind::Compress, focus, on_trim, Key::Enter) == Command::CompressConfirm,
        key_command(ModalKind::Share, focus, on_trim, Key::Enter) == Command::ShareConfirm,
        key_command(ModalKind::Closed, focus, on_trim, Key::Esc) == Command::Quit,
        key_command(ModalKind::Closed, focus, on_trim, Key::Char('q')) == Command::Quit,
{
}

} // verus!
