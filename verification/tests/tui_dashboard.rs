use rscapt::clips::Clip;
use rscapt::ipc::{ClientMessage, ServerMessage};
use rscapt::job::{CompressCodec, CompressQuality, Effect, Job, JobKind, JobStatus};
use rscapt::tui::app::{App, EffectValue, Focus, Modal, Rect};
use rscapt::tui::keys::{handle_key, handle_mouse, handle_server_message, KeyOutcome, Key, MessageOutcome, MouseKind};
use rscapt::tui::labels::{clip_info, clip_row_detail, job_info_label, job_row};

fn job(id: u128, name: &str) -> Job {
    Job::new(id, JobKind::Upscale, format!("C:\\v\\{name}"), format!("C:\\o\\{name}"), 0)
}

fn app_with_clips() -> App {
    let mut app = App::new(2);
    handle_server_message(&mut app, ServerMessage::ClipLibrary {
        clips: vec![
            Clip::from_path("C:\\o\\b.mp4".to_string(), 3 * 1_048_576),
            Clip::from_path("C:\\o\\a.mp4".to_string(), 5 * 1_048_576),
        ],
    });
    app
}

#[test]
fn jobs_are_shown_by_id_and_updated_in_place() {
    let mut app = App::new(2);
    handle_server_message(&mut app, ServerMessage::Snapshot { jobs: vec![job(1, "a.mkv"), job(2, "b.mkv")] });
    assert_eq!(app.jobs.len(), 2);
    assert_eq!(app.job_selected, Some(0));
    let mut j = job(2, "b.mkv");
    j.status = JobStatus::Running;
    j.progress = 42;
    let r = handle_server_message(&mut app, ServerMessage::JobUpdate { job: j.clone() });
    assert!(matches!(r, MessageOutcome::Nothing));
    assert_eq!(app.jobs.len(), 2);
    assert_eq!(app.jobs[1].progress, 42);
    handle_server_message(&mut app, ServerMessage::JobUpdate { job: j });
    assert_eq!(app.jobs.len(), 2);
}

#[test]
fn a_finished_share_is_copied_to_the_clipboard() {
    let mut app = App::new(2);
    let mut s = Job::new(5, JobKind::Share { expiry: "24h".to_string() }, "a".to_string(), "a".to_string(), 0);
    s.status = JobStatus::Done;
    s.share_url = Some("https://litter.catbox.moe/z.mp4".to_string());
    match handle_server_message(&mut app, ServerMessage::JobUpdate { job: s }) {
        MessageOutcome::CopyToClipboard(u) => assert_eq!(u, "https://litter.catbox.moe/z.mp4"),
        other => panic!("unexpected {:?}", other),
    }
    match handle_server_message(&mut app, ServerMessage::Error { message: "bad".to_string() }) {
        MessageOutcome::Warn(m) => assert_eq!(m, "bad"),
        other => panic!("unexpected {:?}", other),
    }
    handle_server_message(&mut app, ServerMessage::UpdateAvailable { version: "v0.3.0".to_string() });
    assert_eq!(app.update_available.as_deref(), Some("v0.3.0"));
}

#[test]
fn navigation_wraps_and_tab_switches_panels() {
    let mut app = app_with_clips();
    assert_eq!(app.focus, Focus::Jobs);
    assert!(matches!(handle_key(&mut app, Key::Tab), KeyOutcome::Continue));
    assert_eq!(app.focus, Focus::Clips);
    assert_eq!(app.clip_selected, Some(0));
    handle_key(&mut app, Key::Down);
    assert_eq!(app.clip_selected, Some(1));
    handle_key(&mut app, Key::Char('j'));
    assert_eq!(app.clip_selected, Some(0));
    handle_key(&mut app, Key::Up);
    assert_eq!(app.clip_selected, Some(1));
    assert!(matches!(handle_key(&mut app, Key::Char('q')), KeyOutcome::Quit));
}

#[test]
fn cancel_sends_the_selected_job() {
    let mut app = App::new(2);
    handle_server_message(&mut app, ServerMessage::Snapshot { jobs: vec![job(11, "a.mkv")] });
    match handle_key(&mut app, Key::Char('c')) {
        KeyOutcome::Send(ClientMessage::Cancel { id }) => assert_eq!(id, 11),
        other => panic!("unexpected {:?}", other),
    }
}

#[test]
fn post_process_dialog_sends_the_enabled_effects() {
    let mut app = app_with_clips();
    handle_key(&mut app, Key::Tab);
    handle_key(&mut app, Key::Char('p'));
    match &app.modal {
        Modal::PostProcess(s) => {
            assert_eq!(s.rows.len(), 4);
            assert_eq!(s.rows[0].value.display(), "1.30");
            assert_eq!(s.rows[2].value.display(), "120");
        }
        _ => panic!("dialog not open"),
    }
    handle_key(&mut app, Key::Right); // saturation 1.35
    handle_key(&mut app, Key::Down);
    handle_key(&mut app, Key::Down); // interpolate
    handle_key(&mut app, Key::Char(' '));
    handle_key(&mut app, Key::Char('+')); // stays at the 120 fps limit
    match &app.modal {
        Modal::PostProcess(s) => assert_eq!(s.rows[2].value.display(), "120"),
        _ => panic!("dialog not open"),
    }
    handle_key(&mut app, Key::Char('-')); // 90 fps
    match handle_key(&mut app, Key::Enter) {
        KeyOutcome::Send(ClientMessage::PostProcess { clip_path, effects }) => {
            assert_eq!(clip_path, "C:\\o\\b.mp4");
            assert_eq!(effects, vec![Effect::Saturation(135), Effect::Interpolate { target_fps: 90 }]);
        }
        other => panic!("unexpected {:?}", other),
    }
    assert!(matches!(app.modal, Modal::Closed));
}

#[test]
fn effect_values_stop_at_their_bounds() {
    let mut v = EffectValue::Int { val: 240, min: 60, max: 240, step: 30 };
    v.inc();
    assert_eq!(v, EffectValue::Int { val: 240, min: 60, max: 240, step: 30 });
    v.dec();
    v.dec();
    assert_eq!(v.display(), "180");
    let mut h = EffectValue::Hundredths { val: 55, min: 50, max: 300, step: 5 };
    h.dec();
    h.dec();
    assert_eq!(h.display(), "0.50");
}

#[test]
fn compress_dialog_cycles_and_takes_trim_times() {
    let mut app = app_with_clips();
    handle_key(&mut app, Key::Tab);
    handle_key(&mut app, Key::Down); // clip a.mp4
    handle_key(&mut app, Key::Char('x'));
    handle_key(&mut app, Key::Left); // codec wraps to AV1
    handle_key(&mut app, Key::Down); // quality field
    handle_key(&mut app, Key::Right); // Med
    handle_key(&mut app, Key::Down); // trim start
    for c in "0:0x5".chars() {
        handle_key(&mut app, Key::Char(c));
    }
    handle_key(&mut app, Key::Backspace);
    handle_key(&mut app, Key::Char('7'));
    match handle_key(&mut app, Key::Enter) {
        KeyOutcome::Send(ClientMessage::Compress { clip_path, options }) => {
            assert_eq!(clip_path, "C:\\o\\a.mp4");
            assert_eq!(options.codec, CompressCodec::Av1);
            assert_eq!(options.quality, CompressQuality::Med);
            assert_eq!(options.trim_start.as_deref(), Some("0:07"));
            assert_eq!(options.trim_end, None);
        }
        other => panic!("unexpected {:?}", other),
    }
}

#[test]
fn share_dialog_starts_at_the_default_expiry() {
    let mut app = app_with_clips();
    handle_key(&mut app, Key::Tab);
    handle_key(&mut app, Key::Char('s'));
    handle_key(&mut app, Key::Right);
    handle_key(&mut app, Key::Right);
    handle_key(&mut app, Key::Right); // wraps to 1h
    match handle_key(&mut app, Key::Enter) {
        KeyOutcome::Send(ClientMessage::Share { clip_path, expiry }) => {
            assert_eq!(clip_path, "C:\\o\\b.mp4");
            assert_eq!(expiry, "1h");
        }
        other => panic!("unexpected {:?}", other),
    }
    handle_key(&mut app, Key::Char('s'));
    assert!(matches!(handle_key(&mut app, Key::Esc), KeyOutcome::Continue));
    assert!(matches!(app.modal, Modal::Closed));
}

#[test]
fn mouse_selects_rows_and_scrolls() {
    let mut app = app_with_clips();
    handle_server_message(&mut app, ServerMessage::Snapshot { jobs: vec![job(1, "a.mkv"), job(2, "b.mkv")] });
    app.set_hit_rects(Rect { x: 0, y: 0, width: 40, height: 10 }, Rect { x: 40, y: 0, width: 40, height: 10 });
    handle_mouse(&mut app, MouseKind::LeftDown, 50, 2);
    assert_eq!(app.focus, Focus::Clips);
    assert_eq!(app.clip_selected, Some(1));
    handle_mouse(&mut app, MouseKind::LeftDown, 5, 1);
    assert_eq!(app.focus, Focus::Jobs);
    assert_eq!(app.job_selected, Some(0));
    handle_mouse(&mut app, MouseKind::ScrollDown, 5, 5);
    assert_eq!(app.job_selected, Some(1));
    handle_mouse(&mut app, MouseKind::ScrollUp, 45, 5);
    assert_eq!(app.focus, Focus::Clips);
    assert_eq!(app.clip_selected, Some(0));
}

#[test]
fn dashboard_texts() {
    let mut j = job(1, "Replay.mkv");
    let (tag, kind, text) = job_row(&j);
    assert_eq!((tag, kind.as_str(), text.as_str()), ("QUEUE ", "[Upscale]", " Replay.mkv"));
    assert_eq!(job_info_label(&j), "Waiting…  Replay.mkv");
    j.status = JobStatus::Running;
    j.progress = 7;
    assert_eq!(job_row(&j).2, " Replay.mkv   7%");
    assert_eq!(job_info_label(&j), "7%  Replay.mkv");
    j.progress = 42;
    assert_eq!(job_row(&j).2, format!(" {}{}", "Replay.mkv", format!(" {:3}%", 42)));
    j.status = JobStatus::Failed("ffmpeg exited with code 1".to_string());
    assert_eq!(job_row(&j).0, "FAIL  ");
    assert_eq!(job_info_label(&j), "Error: ffmpeg exited with code 1");
    j.status = JobStatus::Cancelled;
    assert_eq!(job_info_label(&j), "Cancelled  Replay.mkv");
    let mut c = Clip::from_path("C:\\o\\a.mp4".to_string(), 5 * 1_048_576);
    assert_eq!(clip_row_detail(&c), "  5 MB");
    assert_eq!(clip_info(&c), "a.mp4  |  5 MB");
    c.share_url = Some("https://x/a".to_string());
    assert_eq!(clip_row_detail(&c), "  5 MB 🔗");
    assert_eq!(clip_info(&c), "a.mp4  |  5 MB  |  Shared: https://x/a");
}

#[test]
fn d_drops_the_share_link_of_a_shared_clip() {
    let mut shared = Clip::from_path("C:\\o\\b.mp4".to_string(), 10);
    shared.share_url = Some("https://x/b".to_string());
    let plain = Clip::from_path("C:\\o\\a.mp4".to_string(), 10);
    let mut app = App::new(2);
    handle_server_message(&mut app, ServerMessage::ClipLibrary { clips: vec![shared, plain] });
    // On the jobs panel 'd' does nothing.
    assert!(matches!(handle_key(&mut app, Key::Char('d')), KeyOutcome::Continue));
    handle_key(&mut app, Key::Tab);
    match handle_key(&mut app, Key::Char('d')) {
        KeyOutcome::Send(ClientMessage::DeleteShare { clip_path }) => assert_eq!(clip_path, "C:\\o\\b.mp4"),
        other => panic!("unexpected {:?}", other),
    }
    // A clip without a link sends nothing.
    handle_key(&mut app, Key::Down);
    assert!(matches!(handle_key(&mut app, Key::Char('d')), KeyOutcome::Continue));
    // From the share dialog of a shared clip, 'd' drops the link and closes it.
    handle_key(&mut app, Key::Up);
    handle_key(&mut app, Key::Char('s'));
    match handle_key(&mut app, Key::Char('d')) {
        KeyOutcome::Send(ClientMessage::DeleteShare { clip_path }) => assert_eq!(clip_path, "C:\\o\\b.mp4"),
        other => panic!("unexpected {:?}", other),
    }
    assert!(matches!(app.modal, Modal::Closed));
}
