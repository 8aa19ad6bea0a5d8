use rscapt::config::Config;
use rscapt::installer::{install_dir, install_ps_script, ps_str, uninstall_ps_script, vbs_launcher};
use rscapt::notify::{clipboard_script, toast_script};
use rscapt::obs_profile::{
    build_profile_ini, build_scene_json, build_websocket_config, first_existing, launch_args, obs_appdata_dir,
    obs_candidates, obs_listed, profile_files, registry_exe,
};

// The texts below are written the way the program has always formatted them.

fn expected_profile_ini(config: &Config) -> String {
    let output_dir = &config.output_dir;
    let rb_seconds = config.replay_buffer_seconds;
    // OBS replay buffer size cap in MB (generous — actual limit is time-based)
    let rb_size_mb = 4096u32;
    let ws_port = config.obs_port;
    let ws_password = &config.obs_password;
    let ws_auth = if ws_password.is_empty() { "false" } else { "true" };

    format!(
        r#"[General]
Name=rscapt

[Video]
BaseCX=1920
BaseCY=1080
OutputCX=1920
OutputCY=1080
FPSType=0
FPSCommon=60

[Audio]
SampleRate=48000
ChannelSetup=Stereo

[Output]
Mode=Simple

[SimpleOutput]
FilePath={output_dir}
RecFormat=mkv
RecQuality=Stream
RecEncoder=none
RecRB=true
RecRBTime={rb_seconds}
RecRBSize={rb_size_mb}
RecRBPrefix=Replay

[obs-websocket]
ServerEnabled=true
ServerPort={ws_port}
AuthRequired={ws_auth}
ServerPassword={ws_password}
AlertsEnabled=false
DebugLog=false
"#
    )
}

fn expected_scene_json(config: &Config) -> String {
    let (source_id, source_name, source_settings) = match config.capture_source.as_str() {
        "display" => (
            "monitor_capture",
            "Display Capture",
            r#"{"monitor": 0, "capture_cursor": true}"#,
        ),
        _ => (
            "game_capture",
            "Game Capture",
            r#"{"capture_mode": "any_fullscreen", "allow_transparency": false, "capture_cursor": true}"#,
        ),
    };

    // Minimal scene collection — single scene with one capture source.
    // Desktop audio (wasapi_output_capture) is always included.
    format!(
        r#"{{
  "current_program_scene": "rscapt",
  "current_scene": "rscapt",
  "current_transition": "FadeTransition",
  "transition_duration": 300,
  "name": "rscapt",
  "sources": [
    {{
      "id": "scene",
      "versioned_id": "scene",
      "name": "rscapt",
      "settings": {{
        "id_counter": 2,
        "items": [
          {{
            "name": "{source_name}",
            "visible": true,
            "locked": false,
            "pos": {{"x": 0.0, "y": 0.0}},
            "bounds": {{"x": 0.0, "y": 0.0}},
            "bounds_type": 0,
            "bounds_align": 0,
            "scale": {{"x": 1.0, "y": 1.0}},
            "align": 5,
            "rot": 0.0,
            "id": 1,
            "group_item_id": 0
          }},
          {{
            "name": "Desktop Audio",
            "visible": true,
            "locked": false,
            "pos": {{"x": 0.0, "y": 0.0}},
            "bounds": {{"x": 0.0, "y": 0.0}},
            "bounds_type": 0,
            "bounds_align": 0,
            "scale": {{"x": 1.0, "y": 1.0}},
            "align": 5,
            "rot": 0.0,
            "id": 2,
            "group_item_id": 0
          }}
        ]
      }},
      "volume": 1.0,
      "muted": false,
      "enabled": true
    }},
    {{
      "id": "{source_id}",
      "versioned_id": "{source_id}",
      "name": "{source_name}",
      "settings": {source_settings},
      "volume": 1.0,
      "muted": false,
      "enabled": true
    }},
    {{
      "id": "wasapi_output_capture",
      "versioned_id": "wasapi_output_capture",
      "name": "Desktop Audio",
      "settings": {{"device_id": "default", "use_device_timing": false}},
      "volume": 1.0,
      "muted": false,
      "enabled": true
    }}
  ]
}}"#
    )
}

fn expected_websocket_config(config: &Config) -> String {
    let auth = !config.obs_password.is_empty();
    let json = format!(
        r#"{{
  "alerts_enabled": false,
  "auth_required": {auth},
  "debug_log": false,
  "server_enabled": true,
  "server_password": "{password}",
  "server_port": {port}
}}"#,
        auth = auth,
        password = config.obs_password.replace('"', "\\\""),
        port = config.obs_port,
    );
    json
}

fn ps_quote(s: &str) -> String {
    s.replace('\'', "''")
}

fn expected_install_script(exe: &str, vbs: &str, install_dir: &str) -> String {
    let exe = ps_quote(exe);
    let vbs = ps_quote(vbs);
    let dir = ps_quote(install_dir);
    format!(
        r#"
$shell = New-Object -ComObject WScript.Shell
$lnk = $shell.CreateShortcut("$env:APPDATA\Microsoft\Windows\Start Menu\Programs\rscapt.lnk")
$lnk.TargetPath = '{exe}'
$lnk.Arguments = 'tui'
$lnk.Description = 'rscapt - OBS replay clip processor'
$lnk.IconLocation = '{exe},0'
$lnk.Save()
Set-ItemProperty -Path 'HKCU:\Software\Microsoft\Windows\CurrentVersion\Run' -Name 'rscapt' -Value ('wscript.exe "' + '{vbs}' + '"') -ErrorAction Stop
$cur = [Environment]::GetEnvironmentVariable('PATH', 'User')
if ($null -eq $cur) {{ $cur = '' }}
if ($cur -notlike '*{dir}*') {{ [Environment]::SetEnvironmentVariable('PATH', ($cur + ';' + '{dir}'), 'User') }}
"#
    )
}

fn expected_uninstall_script(install_dir: &str) -> String {
    let dir = ps_quote(install_dir);
    format!(
        r#"
$lnk = "$env:APPDATA\Microsoft\Windows\Start Menu\Programs\rscapt.lnk"
if (Test-Path $lnk) {{ Remove-Item $lnk -Force -ErrorAction SilentlyContinue }}
Remove-ItemProperty -Path 'HKCU:\Software\Microsoft\Windows\CurrentVersion\Run' -Name 'rscapt' -ErrorAction SilentlyContinue
$cur = [Environment]::GetEnvironmentVariable('PATH', 'User')
if ($null -ne $cur) {{ [Environment]::SetEnvironmentVariable('PATH', (($cur -split ';' | Where-Object {{ $_ -ne '{dir}' }}) -join ';'), 'User') }}
Set-ItemProperty -Path 'HKCU:\Software\Microsoft\Windows\CurrentVersion\RunOnce' -Name 'rscapt-cleanup' -Value ('cmd /c rmdir /s /q "' + '{dir}' + '"') -ErrorAction SilentlyContinue
"#
    )
}

fn expected_toast(title: &str, body: &str) -> String {
    let title = title.replace('\'', "''");
    let body = body.replace('\'', "''");
    let aumid = r"{1AC14E77-02E7-4E5D-B744-2EB1AE5198B7}\WindowsPowerShell\v1.0\powershell.exe";
    let script = format!(
            r#"
$app = '{aumid}'
[Windows.UI.Notifications.ToastNotificationManager, Windows.UI.Notifications, ContentType = WindowsRuntime] | Out-Null
$xml = [Windows.UI.Notifications.ToastNotificationManager]::GetTemplateContent('ToastText02')
$xml.GetElementsByTagName('text').Item(0).InnerText = '{title}'
$xml.GetElementsByTagName('text').Item(1).InnerText = '{body}'
$notifier = [Windows.UI.Notifications.ToastNotificationManager]::CreateToastNotifier($app)
$notifier.Show([Windows.UI.Notifications.ToastNotification]::new($xml))
"#
        );
    script
}

fn sample_config() -> Config {
    let mut c = Config::with_dirs("D:\\Clips".to_string(), "C:\\Temp\\rscapt".to_string());
    c.replay_buffer_seconds = 120;
    c.obs_port = 4456;
    c
}

#[test]
fn profile_ini_text() {
    let mut c = sample_config();
    assert_eq!(build_profile_ini(&c), expected_profile_ini(&c));
    assert!(build_profile_ini(&c).contains("AuthRequired=false\nServerPassword=\n"));
    c.obs_password = "s3cret".to_string();
    assert_eq!(build_profile_ini(&c), expected_profile_ini(&c));
    assert!(build_profile_ini(&c).contains("RecRBTime=120\nRecRBSize=4096"));
    assert!(build_profile_ini(&c).contains("AuthRequired=true\nServerPassword=s3cret\n"));
}

#[test]
fn scene_collection_text() {
    let mut c = sample_config();
    assert_eq!(build_scene_json(&c), expected_scene_json(&c));
    assert!(build_scene_json(&c).contains("\"id\": \"game_capture\""));
    c.capture_source = "display".to_string();
    assert_eq!(build_scene_json(&c), expected_scene_json(&c));
    assert!(build_scene_json(&c).contains("\"name\": \"Display Capture\""));
    c.capture_source = "window".to_string();
    assert_eq!(build_scene_json(&c), expected_scene_json(&c));
}

#[test]
fn websocket_config_text() {
    let mut c = sample_config();
    assert_eq!(build_websocket_config(&c), expected_websocket_config(&c));
    c.obs_password = "a\"b".to_string();
    assert_eq!(build_websocket_config(&c), expected_websocket_config(&c));
    assert!(build_websocket_config(&c).contains("\"server_password\": \"a\\\"b\""));
}

#[test]
fn obs_files_and_folders() {
    let c = sample_config();
    let appdata = obs_appdata_dir(Some("C:\\Users\\me\\AppData\\Roaming"));
    assert_eq!(appdata, "C:\\Users\\me\\AppData\\Roaming\\obs-studio");
    assert_eq!(obs_appdata_dir(None), ".\\obs-studio");
    let files = profile_files(&c, &appdata);
    assert_eq!(files.len(), 3);
    assert_eq!(files[0].dir, format!("{appdata}\\basic\\profiles\\rscapt"));
    assert_eq!(files[0].path, format!("{appdata}\\basic\\profiles\\rscapt\\basic.ini"));
    assert_eq!(files[0].contents, expected_profile_ini(&c));
    assert_eq!(files[1].path, format!("{appdata}\\basic\\scenes\\rscapt.json"));
    assert_eq!(files[1].contents, expected_scene_json(&c));
    assert_eq!(files[2].dir, format!("{appdata}\\plugin_config\\obs-websocket"));
    assert_eq!(files[2].path, format!("{appdata}\\plugin_config\\obs-websocket\\config.json"));
    assert_eq!(files[2].contents, expected_websocket_config(&c));
}

#[test]
fn finding_obs() {
    assert_eq!(registry_exe("  \r\n"), None);
    assert_eq!(
        registry_exe("C:\\Program Files\\obs-studio\r\n").as_deref(),
        Some("C:\\Program Files\\obs-studio\\bin\\64bit\\obs64.exe")
    );
    let c = obs_candidates("D:\\OBS\n");
    assert_eq!(c, vec![
        "D:\\OBS\\bin\\64bit\\obs64.exe".to_string(),
        r"C:\Program Files\obs-studio\bin\64bit\obs64.exe".to_string(),
        r"C:\Program Files (x86)\obs-studio\bin\64bit\obs64.exe".to_string(),
    ]);
    assert_eq!(obs_candidates("").len(), 2);
    assert_eq!(first_existing(&c, &vec![false, false, true]), Some(c[2].clone()));
    assert_eq!(first_existing(&c, &vec![false, true, true]), Some(c[1].clone()));
    assert_eq!(first_existing(&c, &vec![false, false, false]), None);
    assert!(obs_listed("obs64.exe                  1234 Console    1    250,000 K"));
    assert!(!obs_listed("INFO: No tasks are running which match the specified criteria."));
    assert_eq!(launch_args(), vec!["--profile", "rscapt", "--collection", "rscapt", "--minimize-to-tray", "--startreplaybuffer"]);
}

#[test]
fn install_scripts() {
    assert_eq!(install_dir(Some("C:\\Users\\me\\AppData\\Local")), "C:\\Users\\me\\AppData\\Local\\rscapt");
    assert_eq!(install_dir(None), ".\\rscapt");
    let exe = "C:\\Users\\o'neil\\AppData\\Local\\rscapt\\rscapt.exe";
    let vbs = "C:\\Users\\o'neil\\AppData\\Local\\rscapt\\rscapt-start.vbs";
    let dir = "C:\\Users\\o'neil\\AppData\\Local\\rscapt";
    assert_eq!(install_ps_script(exe, vbs, dir), expected_install_script(exe, vbs, dir));
    assert_eq!(uninstall_ps_script(dir), expected_uninstall_script(dir));
    assert_eq!(ps_str("it's"), "it''s");
}

#[test]
fn silent_launcher() {
    let (path, content) = vbs_launcher("C:\\Apps\\rscapt");
    assert_eq!(path, "C:\\Apps\\rscapt\\rscapt-start.vbs");
    let exe_str = "C:\\Apps\\rscapt\\rscapt.exe";
    assert_eq!(content, format!("CreateObject(\"WScript.Shell\").Run \"\"\"{exe_str}\"\" tray\", 0, False\n"));
    let (_, quoted) = vbs_launcher("C:\\A \"B\"");
    assert!(quoted.contains("C:\\A \"\"B\"\"\\rscapt.exe"));
}

#[test]
fn toast_and_clipboard_scripts() {
    assert_eq!(toast_script("Upscale done", "a.mkv → a_1440p.mkv"), expected_toast("Upscale done", "a.mkv → a_1440p.mkv"));
    assert_eq!(toast_script("It's", "don't"), expected_toast("It's", "don't"));
    assert_eq!(clipboard_script("https://x/o'k"), "Set-Clipboard -Value 'https://x/o''k'");
}
