use rscapt::config::Config;
use rscapt::job::{CompressCodec, CompressOptions, CompressQuality, Effect, Job, JobKind};
use rscapt::processor::{
    build_effects_vf, compress_args, ffmpeg_duration_text, ffmpeg_time_text, hhmmss_fields,
    parse_resolution, plan_job, post_process_args, upscale_args, JobPlan, ProgressTracker,
    ResolutionError,
};

fn strings(v: &[&str]) -> Vec<String> {
    v.iter().map(|s| s.to_string()).collect()
}

fn default_config() -> Config {
    Config::with_dirs("C:\\Videos\\Captures".to_string(), "C:\\Temp\\rscapt".to_string())
}

#[test]
fn resolution_parsing() {
    assert_eq!(parse_resolution("2560x1440"), Ok((2560, 1440)));
    assert_eq!(parse_resolution("2560"), Err(ResolutionError::NotTwoParts));
    assert_eq!(parse_resolution("1x2x3"), Err(ResolutionError::NotTwoParts));
    assert_eq!(parse_resolution("axb"), Err(ResolutionError::BadNumber));
    assert_eq!(parse_resolution("1920x"), Err(ResolutionError::BadNumber));
    assert_eq!(parse_resolution("+1920x1080"), Ok((1920, 1080)));
}

#[test]
fn upscale_arguments_for_the_default_configuration() {
    let args = upscale_args("C:\\in.mkv", "C:\\out_1440p.mkv", &default_config()).unwrap();
    assert_eq!(
        args,
        strings(&[
            "-y", "-hwaccel", "auto", "-i", "C:\\in.mkv", "-vf", "scale=2560:1440:flags=lanczos",
            "-c:v", "h264_nvenc", "-c:a", "copy", "-cq", "18", "-preset", "p4", "C:\\out_1440p.mkv",
        ])
    );
}

#[test]
fn upscale_arguments_for_a_software_encoder_and_a_bad_resolution() {
    let mut c = default_config();
    c.encoder = "libx264".to_string();
    c.nvenc_quality = 20;
    let args = upscale_args("a.mkv", "b.mkv", &c).unwrap();
    assert_eq!(
        args,
        strings(&[
            "-y", "-hwaccel", "auto", "-i", "a.mkv", "-vf", "scale=2560:1440:flags=lanczos",
            "-c:v", "libx264", "-c:a", "copy", "-crf", "20", "b.mkv",
        ])
    );
    c.upscale_resolution = "1440p".to_string();
    assert_eq!(upscale_args("a.mkv", "b.mkv", &c), Err(ResolutionError::NotTwoParts));
}

#[test]
fn effects_filter_chains() {
    assert_eq!(build_effects_vf(&vec![]), "");
    assert_eq!(build_effects_vf(&vec![Effect::Saturation(130)]), "eq=saturation=1.30");
    assert_eq!(build_effects_vf(&vec![Effect::Saturation(100)]), "");
    assert_eq!(build_effects_vf(&vec![Effect::Saturation(101)]), "");
    assert_eq!(build_effects_vf(&vec![Effect::Saturation(102)]), "eq=saturation=1.02");
    assert_eq!(build_effects_vf(&vec![Effect::Sharpen(0)]), "");
    assert_eq!(build_effects_vf(&vec![Effect::Sharpen(100)]), "unsharp=5:5:1.00:5:5:0.0");
    assert_eq!(
        build_effects_vf(&vec![Effect::Interpolate { target_fps: 120 }]),
        "minterpolate=fps=120:mi_mode=mci:mc_mode=aobmc:vsbmc=1"
    );
    assert_eq!(
        build_effects_vf(&vec![Effect::MotionBlur { shutter_angle: 180 }]),
        "minterpolate=fps=120:mi_mode=mci:mc_mode=aobmc:vsbmc=1,tmix=frames=2:weights=1,fps=60"
    );
    assert_eq!(
        build_effects_vf(&vec![
            Effect::Saturation(130),
            Effect::Interpolate { target_fps: 240 },
            Effect::MotionBlur { shutter_angle: 360 },
        ]),
        "eq=saturation=1.30,minterpolate=fps=240:mi_mode=mci:mc_mode=aobmc:vsbmc=1,tmix=frames=4:weights=1,fps=240"
    );
    // Effects apply in the order listed.
    assert_eq!(
        build_effects_vf(&vec![Effect::Saturation(150), Effect::Interpolate { target_fps: 120 }]),
        "eq=saturation=1.50,minterpolate=fps=120:mi_mode=mci:mc_mode=aobmc:vsbmc=1"
    );
    assert_eq!(
        build_effects_vf(&vec![
            Effect::Interpolate { target_fps: 90 },
            Effect::Sharpen(50),
            Effect::MotionBlur { shutter_angle: 180 },
            Effect::Saturation(80),
        ]),
        "minterpolate=fps=90:mi_mode=mci:mc_mode=aobmc:vsbmc=1,tmix=frames=2:weights=1,fps=90,unsharp=5:5:0.50:5:5:0.0,eq=saturation=0.80"
    );
    // 270 degrees at 120 fps blends 1.5 frames, rounded up to 2.
    assert_eq!(
        build_effects_vf(&vec![Effect::MotionBlur { shutter_angle: 270 }]),
        "minterpolate=fps=120:mi_mode=mci:mc_mode=aobmc:vsbmc=1,tmix=frames=2:weights=1,fps=60"
    );
}

#[test]
fn post_process_arguments() {
    assert_eq!(
        post_process_args("a.mp4", "a_pp.mp4", &vec![Effect::Saturation(130)]),
        strings(&[
            "-y", "-i", "a.mp4", "-vf", "eq=saturation=1.30", "-c:v", "h264_nvenc", "-cq", "18",
            "-preset", "p4", "-c:a", "copy", "a_pp.mp4",
        ])
    );
    assert_eq!(
        post_process_args("a.mp4", "a_pp.mp4", &vec![]),
        strings(&["-y", "-i", "a.mp4", "-c:v", "h264_nvenc", "-cq", "18", "-preset", "p4", "-c:a", "copy", "a_pp.mp4"])
    );
}

#[test]
fn compress_arguments_per_codec() {
    let mut o = CompressOptions::default();
    assert_eq!(
        compress_args("a.mp4", "o.mp4", &o),
        strings(&["-y", "-i", "a.mp4", "-c:v", "h264_nvenc", "-c:a", "copy", "-cq", "18", "-preset", "p4", "o.mp4"])
    );
    o.codec = CompressCodec::Av1;
    o.quality = CompressQuality::Low;
    o.trim_start = Some("00:00:05".to_string());
    o.trim_end = Some("00:00:20".to_string());
    assert_eq!(
        compress_args("a.mp4", "o.mp4", &o),
        strings(&[
            "-y", "-ss", "00:00:05", "-i", "a.mp4", "-to", "00:00:20", "-c:v", "libaom-av1", "-c:a", "copy",
            "-crf", "50", "-b:v", "0", "-cpu-used", "4", "o.mp4",
        ])
    );
    o.codec = CompressCodec::Hevc;
    o.quality = CompressQuality::Med;
    o.trim_start = None;
    o.trim_end = None;
    assert_eq!(
        compress_args("a.mp4", "o.mp4", &o),
        strings(&["-y", "-i", "a.mp4", "-c:v", "libx265", "-c:a", "copy", "-crf", "28", "-preset", "medium", "o.mp4"])
    );
}

#[test]
fn codec_and_quality_tables() {
    assert_eq!(CompressCodec::H264Nvenc.label(), "H.264 NVENC");
    assert_eq!(CompressCodec::HevcNvenc.ffmpeg_codec(), "hevc_nvenc");
    assert!(CompressCodec::HevcNvenc.is_nvenc());
    assert!(!CompressCodec::Av1.is_nvenc());
    assert_eq!(CompressQuality::Med.label(), "Med");
    assert_eq!(CompressQuality::High.crf(&CompressCodec::HevcNvenc), 20);
    assert_eq!(CompressQuality::Low.crf(&CompressCodec::Hevc), 34);
    assert_eq!(CompressQuality::Med.crf(&CompressCodec::Av1), 38);
}

#[test]
fn plans_per_job_kind() {
    let c = default_config();
    let share = Job::new(7, JobKind::Share { expiry: "24h".to_string() }, "a.mp4".to_string(), "a.mp4".to_string(), 0);
    match plan_job(&share, &c) {
        JobPlan::Upload { source, expiry } => {
            assert_eq!(source, "a.mp4");
            assert_eq!(expiry, "24h");
        }
        other => panic!("unexpected {:?}", other),
    }
    let mut bad = c.clone();
    bad.upscale_resolution = "big".to_string();
    let up = Job::new(8, JobKind::Upscale, "a.mkv".to_string(), "b.mkv".to_string(), 0);
    assert!(matches!(plan_job(&up, &bad), JobPlan::BadResolution(ResolutionError::NotTwoParts)));
    assert!(matches!(plan_job(&up, &c), JobPlan::Ffmpeg(_)));
}

#[test]
fn ffmpeg_progress_texts() {
    assert_eq!(
        ffmpeg_duration_text("  Duration: 00:01:02.50, start: 0.000000, bitrate: 8000 kb/s").as_deref(),
        Some("00:01:02.50")
    );
    assert_eq!(ffmpeg_duration_text("Duration: 00:01:02.50"), None);
    assert_eq!(
        ffmpeg_time_text("frame=  100 fps= 50 q=28.0 size=  1024kB time=00:00:31.25 bitrate= 268.4kbits/s").as_deref(),
        Some("00:00:31.25")
    );
    assert_eq!(ffmpeg_time_text("time=   "), None);
    assert_eq!(ffmpeg_time_text("no progress here"), None);
    assert_eq!(
        hhmmss_fields("00:01:02.50"),
        Some(("00".to_string(), "01".to_string(), "02.50".to_string()))
    );
    assert_eq!(hhmmss_fields("01:02"), None);
    assert_eq!(hhmmss_fields("0:0:0:0"), None);
}

#[test]
fn progress_is_sent_on_change_and_logged_every_quarter() {
    let mut t = ProgressTracker::new();
    assert_eq!(t.observe(10), (true, false));
    assert_eq!(t.observe(10), (false, false));
    assert_eq!(t.observe(30), (true, true));
    assert_eq!(t.observe(54), (true, false));
    assert_eq!(t.observe(55), (true, true));
    assert_eq!(t.last_logged, 55);
}
