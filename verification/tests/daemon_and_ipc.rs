use rscapt::config::{default_ipc_port, default_output_dir, default_temp_dir, ipc_port_or_default, Config};
use rscapt::daemon::{build_output_path, job_event_action, manages_obs, upscale_job, JobEventAction};
use rscapt::ipc::{compress_suffix, derive_output_path, event_message, plan_dispatch, ClientMessage, Dispatch, ServerMessage};
use rscapt::job::{CompressCodec, CompressOptions, Effect, Job, JobKind, JobStatus};
use rscapt::queue::QueueEvent;

#[test]
fn upscale_output_sits_in_the_output_folder() {
    assert_eq!(
        build_output_path("C:\\Videos\\Replay 2024-05-01 20-00-00.mkv", "C:\\Videos\\Captures"),
        "C:\\Videos\\Captures\\Replay 2024-05-01 20-00-00_1440p.mkv"
    );
    assert_eq!(build_output_path("C:\\v\\clip", "D:\\out\\"), "D:\\out\\clip_1440p.");
    let j = upscale_job(9, "C:\\v\\r.mkv".to_string(), "C:\\out", 1234);
    assert_eq!((j.id, j.created_at), (9, 1234));
    assert!(j.finished_at.is_none() && j.share_url.is_none() && j.share_token.is_none());
    assert_eq!(j.output, "C:\\out\\r_1440p.mkv");
    assert_eq!(j.source, "C:\\v\\r.mkv");
    assert_eq!(j.status, JobStatus::Queued);
    assert_ne!(j.output, j.source);
}

#[test]
fn derived_outputs_sit_next_to_the_clip() {
    assert_eq!(derive_output_path("C:\\out\\clip_1440p.mp4", "pp"), "C:\\out\\clip_1440p_pp.mp4");
    assert_eq!(derive_output_path("clip.mp4", "pp"), "clip_pp.mp4");
    assert_eq!(compress_suffix(CompressCodec::H264Nvenc), "c_h264nvenc");
    assert_eq!(compress_suffix(CompressCodec::Av1), "c_libaom-av1");
    assert_eq!(compress_suffix(CompressCodec::Hevc), "c_libx265");
}

#[test]
fn requests_become_jobs() {
    match plan_dispatch(ClientMessage::PostProcess {
        clip_path: "C:\\o\\a.mp4".to_string(),
        effects: vec![Effect::Saturation(130)],
    }) {
        Dispatch::Enqueue { kind: JobKind::PostProcess { effects }, source, output } => {
            assert_eq!(effects, vec![Effect::Saturation(130)]);
            assert_eq!(source, "C:\\o\\a.mp4");
            assert_eq!(output, "C:\\o\\a_pp.mp4");
        }
        other => panic!("unexpected {:?}", other),
    }
    match plan_dispatch(ClientMessage::Compress { clip_path: "C:\\o\\a.mp4".to_string(), options: CompressOptions {
        codec: CompressCodec::HevcNvenc, ..CompressOptions::default()
    } }) {
        Dispatch::Enqueue { kind: JobKind::Compress(o), output, .. } => {
            assert_eq!(o.codec, CompressCodec::HevcNvenc);
            assert_eq!(output, "C:\\o\\a_c_hevcnvenc.mp4");
        }
        other => panic!("unexpected {:?}", other),
    }
    match plan_dispatch(ClientMessage::Share { clip_path: "C:\\o\\a.mp4".to_string(), expiry: "72h".to_string() }) {
        Dispatch::Enqueue { kind: JobKind::Share { expiry }, source, output } => {
            assert_eq!(expiry, "72h");
            assert_eq!(source, output);
        }
        other => panic!("unexpected {:?}", other),
    }
    assert!(matches!(plan_dispatch(ClientMessage::Cancel { id: 9 }), Dispatch::Cancel(9)));
    match plan_dispatch(ClientMessage::DeleteShare { clip_path: "C:\\o\\a.mp4".to_string() }) {
        Dispatch::ClearShare(p) => assert_eq!(p, "C:\\o\\a.mp4"),
        other => panic!("unexpected {:?}", other),
    }
    assert!(matches!(plan_dispatch(ClientMessage::GetJobs), Dispatch::SendJobs));
    assert!(matches!(plan_dispatch(ClientMessage::GetClips), Dispatch::SendClips));
}

#[test]
fn queue_events_are_sent_as_job_updates() {
    let j = Job::new(3, JobKind::Upscale, "a".to_string(), "b".to_string(), 0);
    match event_message(QueueEvent::JobAdded(j)) {
        ServerMessage::JobUpdate { job } => assert_eq!(job.id, 3),
        other => panic!("unexpected {:?}", other),
    }
}

#[test]
fn job_events_notify_and_update_the_library() {
    let mut j = Job::new(1, JobKind::Upscale, "C:\\v\\r.mkv".to_string(), "C:\\o\\r_1440p.mkv".to_string(), 0);
    j.status = JobStatus::Done;
    match job_event_action(&j) {
        JobEventAction::AddClip { output, title, body } => {
            assert_eq!(output, "C:\\o\\r_1440p.mkv");
            assert_eq!(title, "Upscale done");
            assert_eq!(body, "r.mkv → r_1440p.mkv");
        }
        other => panic!("unexpected {:?}", other),
    }
    j.status = JobStatus::Failed("boom".to_string());
    match job_event_action(&j) {
        JobEventAction::NotifyFailure { title, body } => {
            assert_eq!(title, "Upscale failed");
            assert_eq!(body, "r.mkv: boom");
        }
        other => panic!("unexpected {:?}", other),
    }
    j.status = JobStatus::Cancelled;
    assert!(matches!(job_event_action(&j), JobEventAction::Nothing));
    let mut s = Job::new(2, JobKind::Share { expiry: "1h".to_string() }, "C:\\o\\a.mp4".to_string(), "C:\\o\\a.mp4".to_string(), 0);
    s.status = JobStatus::Done;
    assert!(matches!(job_event_action(&s), JobEventAction::Nothing));
    s.share_url = Some("https://litter.catbox.moe/abc.mp4".to_string());
    match job_event_action(&s) {
        JobEventAction::RecordShare { source, url, title, body } => {
            assert_eq!(source, "C:\\o\\a.mp4");
            assert_eq!(url, "https://litter.catbox.moe/abc.mp4");
            assert_eq!(title, "Clip shared");
            assert_eq!(body, url);
        }
        other => panic!("unexpected {:?}", other),
    }
}

#[test]
fn default_configuration() {
    let c = Config::with_dirs(default_output_dir(Some("C:\\Users\\me\\Videos"), None), default_temp_dir("C:\\Temp"));
    assert_eq!(c.output_dir, "C:\\Users\\me\\Videos\\Captures");
    assert_eq!(c.temp_dir, "C:\\Temp\\rscapt");
    assert_eq!(c.obs_host, "127.0.0.1");
    assert_eq!(c.obs_port, 4455);
    assert_eq!(c.obs_password, "");
    assert_eq!(c.upscale_resolution, "2560x1440");
    assert_eq!(c.upscale_filter, "lanczos");
    assert_eq!(c.encoder, "h264_nvenc");
    assert_eq!(c.nvenc_quality, 18);
    assert_eq!(c.ipc_port, 19874);
    assert_eq!(default_ipc_port(), 19874);
    assert!(!c.obs_managed);
    assert_eq!(c.replay_buffer_seconds, 30);
    assert_eq!(c.capture_source, "game");
    assert!(!manages_obs(&c));
    assert_eq!(default_output_dir(None, Some("C:\\Users\\me")), "C:\\Users\\me\\Captures");
    assert_eq!(default_output_dir(None, None), ".\\Captures");
}

#[test]
fn configuration_paths_and_ports() {
    assert_eq!(Config::data_dir(Some("C:\\Users\\me\\AppData\\Roaming")), "C:\\Users\\me\\AppData\\Roaming\\rscapt");
    assert_eq!(Config::path(Some("C:\\Users\\me\\AppData\\Roaming")), "C:\\Users\\me\\AppData\\Roaming\\rscapt\\config.json");
    assert_eq!(Config::data_dir(None), ".\\rscapt");
    assert_eq!(ipc_port_or_default(None), 19874);
    assert_eq!(ipc_port_or_default(Some(7373)), 7373);
    assert_eq!(ipc_port_or_default(Some(65536 + 5)), 5);
    let mut c = Config::with_dirs("o".to_string(), "t".to_string());
    c.obs_managed = true;
    assert!(!manages_obs(&c));
    c.obs_exe_path = "C:\\obs\\obs64.exe".to_string();
    assert!(manages_obs(&c));
}
