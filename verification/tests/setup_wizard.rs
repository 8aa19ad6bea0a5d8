use rscapt::config::Config;
use rscapt::setup::{configure, fmt_bytes, obs_windows_zip, pick_obs_asset, progress_report, ObsChoice, SetupOptions};
use rscapt::tui::app::Rect;
use rscapt::tui::keys::{Key, MouseKind};
use rscapt::wizard::{handle_key, handle_mouse, KeyAction, State, Step};

fn options(obs: ObsChoice) -> SetupOptions {
    SetupOptions {
        obs,
        output_dir: "D:\\Clips".to_string(),
        buffer_secs: 60,
        capture_source: "display".to_string(),
        autostart: false,
    }
}

#[test]
fn configure_writes_the_answers() {
    let mut c = Config::with_dirs("o".to_string(), "t".to_string());
    let steps = configure(&mut c, &options(ObsChoice::Existing("C:\\OBS\\obs64.exe".to_string())), None);
    assert_eq!(c.output_dir, "D:\\Clips");
    assert_eq!(c.replay_buffer_seconds, 60);
    assert_eq!(c.capture_source, "display");
    assert_eq!(c.obs_exe_path, "C:\\OBS\\obs64.exe");
    assert!(!c.obs_managed);
    assert!(!steps.write_profile);
    assert!(!steps.install_autostart);
    assert_eq!(c.temp_dir, "t");
    assert_eq!(c.ipc_port, 19874);
}

#[test]
fn configure_with_download_and_skip() {
    let mut c = Config::with_dirs("o".to_string(), "t".to_string());
    let mut o = options(ObsChoice::Download);
    o.autostart = true;
    let steps = configure(&mut c, &o, Some("C:\\Local\\rscapt\\obs\\bin\\64bit\\obs64.exe".to_string()));
    assert_eq!(c.obs_exe_path, "C:\\Local\\rscapt\\obs\\bin\\64bit\\obs64.exe");
    assert!(c.obs_managed && steps.write_profile && steps.install_autostart);
    let steps = configure(&mut c, &options(ObsChoice::Skip), None);
    assert!(!c.obs_managed);
    assert!(!steps.write_profile);
    assert_eq!(c.obs_exe_path, "C:\\Local\\rscapt\\obs\\bin\\64bit\\obs64.exe");
}

#[test]
fn obs_download_asset_and_progress() {
    assert!(obs_windows_zip("OBS-Studio-30.1.2-Windows.zip"));
    assert!(!obs_windows_zip("OBS-Studio-30.1.2-Windows-PDBs.zip"));
    assert!(!obs_windows_zip("OBS-Studio-30.1.2-Windows-Installer.exe"));
    assert!(!obs_windows_zip("OBS-Studio-30.1.2-macOS-Apple.dmg"));
    let names = vec![
        "OBS-Studio-30.1.2-Windows-PDBs.zip".to_string(),
        "OBS-Studio-30.1.2-Windows-Installer.exe".to_string(),
        "OBS-Studio-30.1.2-Windows.zip".to_string(),
        "OBS-Studio-30.1.2-Windows-x64.zip".to_string(),
    ];
    assert_eq!(pick_obs_asset(&names), Some(2));
    assert_eq!(pick_obs_asset(&vec![]), None);
    assert_eq!(progress_report(5, 100, 0), None);
    assert_eq!(progress_report(10, 100, 0), Some(10));
    assert_eq!(progress_report(19, 100, 10), None);
    assert_eq!(progress_report(100, 100, 90), Some(100));
    assert_eq!(progress_report(50, 0, 0), None);
    assert_eq!(fmt_bytes(150 * 1_048_576), "150 MB");
    assert_eq!(fmt_bytes(512 * 1024), "512 KB");
    assert_eq!(fmt_bytes(0), "0 KB");
}

fn wizard(detected: Option<&str>) -> State {
    State::new(detected.map(|s| s.to_string()), "C:\\Users\\me\\Videos\\Captures".to_string())
}

#[test]
fn wizard_starts_with_defaults() {
    let s = wizard(None);
    assert_eq!(s.step, Step::Welcome);
    assert_eq!(s.obs_radio, 0);
    assert_eq!(s.buffer_secs, 30);
    assert!(s.autostart);
    let d = wizard(Some("C:\\OBS\\obs64.exe"));
    assert_eq!(d.obs_radio, 1);
    assert_eq!(d.obs_path.iter().collect::<String>(), "C:\\OBS\\obs64.exe");
    assert_eq!(Step::ObsPath.label(), "OBS Path");
    assert_eq!(d.visible_steps().len(), 7);
    assert_eq!(s.visible_steps().len(), 6);
    assert_eq!(d.step_index(), (1, 7));
}

#[test]
fn wizard_walk_through_with_an_existing_obs() {
    let mut s = wizard(Some("C:\\OBS\\obs64.exe"));
    assert_eq!(handle_key(&mut s, Key::Enter), KeyAction::Next);
    s.next_step();
    assert_eq!(s.step, Step::ObsChoice);
    assert_eq!(handle_key(&mut s, Key::Enter), KeyAction::Next);
    s.next_step();
    assert_eq!(s.step, Step::ObsPath);
    assert_eq!(s.step_index(), (2, 7));
    // Edit the path: type at the start, delete it again.
    handle_key(&mut s, Key::Char('X'));
    assert_eq!(s.obs_path.iter().collect::<String>(), "XC:\\OBS\\obs64.exe");
    handle_key(&mut s, Key::Backspace);
    assert_eq!(s.obs_path.iter().collect::<String>(), "C:\\OBS\\obs64.exe");
    assert_eq!(handle_key(&mut s, Key::Enter), KeyAction::Next);
    s.next_step();
    assert_eq!(s.step, Step::OutputDir);
    s.next_step();
    assert_eq!(s.step, Step::BufferDuration);
    handle_key(&mut s, Key::Up);
    handle_key(&mut s, Key::Up);
    assert_eq!(s.buffer_secs, 60);
    for _ in 0..10 {
        handle_key(&mut s, Key::Down);
    }
    assert_eq!(s.buffer_secs, 15);
    for _ in 0..50 {
        handle_key(&mut s, Key::Right);
    }
    assert_eq!(s.buffer_secs, 600);
    s.next_step();
    handle_key(&mut s, Key::Down);
    assert_eq!(s.capture_radio, 1);
    s.next_step();
    handle_key(&mut s, Key::Char(' '));
    assert!(!s.autostart);
    s.next_step();
    assert_eq!(s.step, Step::Confirm);
    assert_eq!(handle_key(&mut s, Key::Enter), KeyAction::Done);
    let o = s.to_options();
    assert_eq!(o.obs, ObsChoice::Existing("C:\\OBS\\obs64.exe".to_string()));
    assert_eq!(o.buffer_secs, 600);
    assert_eq!(o.capture_source, "display");
    assert!(!o.autostart);
    assert_eq!(o.output_dir, "C:\\Users\\me\\Videos\\Captures");
}

#[test]
fn wizard_refuses_an_empty_obs_path() {
    let mut s = wizard(None);
    s.next_step();
    handle_key(&mut s, Key::Down);
    assert_eq!(s.obs_radio, 1);
    s.next_step();
    assert_eq!(s.step, Step::ObsPath);
    assert_eq!(handle_key(&mut s, Key::Enter), KeyAction::None_);
    assert_eq!(s.error.as_deref(), Some("Please enter a path to obs64.exe."));
    assert_eq!(handle_key(&mut s, Key::Esc), KeyAction::Prev);
    assert_eq!(s.step, Step::ObsPath);
    assert_eq!(handle_key(&mut s, Key::Up), KeyAction::Prev);
    s.prev_step();
    assert_eq!(s.step, Step::ObsChoice);
}

#[test]
fn wizard_skip_and_back() {
    let mut s = wizard(None);
    s.next_step();
    handle_key(&mut s, Key::Down);
    handle_key(&mut s, Key::Down);
    handle_key(&mut s, Key::Down);
    assert_eq!(s.obs_radio, 2);
    s.next_step();
    assert_eq!(s.step, Step::OutputDir);
    s.prev_step();
    assert_eq!(s.step, Step::ObsChoice);
    assert_eq!(s.to_options().obs, ObsChoice::Skip);
    assert_eq!(handle_key(&mut s, Key::Char('q')), KeyAction::Quit);
}

#[test]
fn wizard_mouse_selects_and_advances() {
    let mut s = wizard(None);
    s.next_step();
    let row = |y: u16| Some(Rect { x: 2, y, width: 40, height: 1 });
    s.set_hit_rects([row(5), row(6), row(7), None], Some(Rect { x: 2, y: 20, width: 10, height: 1 }));
    assert_eq!(handle_mouse(&mut s, MouseKind::LeftDown, 10, 6), KeyAction::None_);
    assert_eq!(s.obs_radio, 1);
    assert_eq!(handle_mouse(&mut s, MouseKind::LeftDown, 10, 6), KeyAction::Next);
    assert_eq!(handle_mouse(&mut s, MouseKind::LeftDown, 5, 20), KeyAction::Next);
    assert_eq!(handle_mouse(&mut s, MouseKind::LeftDown, 60, 30), KeyAction::None_);
    assert_eq!(handle_mouse(&mut s, MouseKind::ScrollDown, 10, 6), KeyAction::None_);
}

#[test]
fn wizard_left_goes_back_and_q_is_typed_into_paths() {
    let mut s = wizard(None);
    s.next_step();
    handle_key(&mut s, Key::Down);
    s.next_step();
    assert_eq!(s.step, Step::ObsPath);
    assert_eq!(handle_key(&mut s, Key::Char('q')), KeyAction::None_);
    assert_eq!(s.obs_path.iter().collect::<String>(), "q");
    s.next_step();
    s.next_step();
    assert_eq!(s.step, Step::BufferDuration);
    assert_eq!(handle_key(&mut s, Key::Left), KeyAction::Prev);
    assert_eq!(s.buffer_secs, 30);
    assert_eq!(s.step, Step::BufferDuration);
    s.next_step();
    s.next_step();
    assert_eq!(s.step, Step::Autostart);
    assert_eq!(handle_key(&mut s, Key::Left), KeyAction::Prev);
    assert!(s.autostart);
    assert_eq!(handle_key(&mut s, Key::Right), KeyAction::None_);
    assert!(!s.autostart);
}
