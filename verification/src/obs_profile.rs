//! The OBS Studio configuration rscapt writes: a dedicated profile and
//! scene collection named "rscapt" (so the user's own are never touched) and
//! the obs-websocket settings, for OBS 28 and later.  Also how rscapt finds
//! and starts OBS.  Files are written and processes started by the program
//! around this library.
use vstd::prelude::*;
use crate::config::Config;
use crate::paths::{join, join_str};
use crate::text::{chars_of, contains, decimal, owned, push_decimal, push_str, replace_char,
    replace_char_str, str_contains, str_eq, string_from_chars, trim, trim_chars, push_arg, strs};

verus! {

/// The profile and scene collection rscapt owns.
pub const PROFILE_NAME: &'static str = "rscapt";
pub const SCENE_NAME: &'static str = "rscapt";

// ── Profile INI ───────────────────────────────────────────────────────────────

pub const INI_HEAD: &'static str = r#"[General]
Name=rscapt

[Video]
BaseCX=1920
BaseCY=1080
OutputCX=1920
OutputCY=1080
FPSType=0
FPSCommon=60

[Audio]
SampleRate=48000
ChannelSetup=Stereo

[Output]
Mode=Simple

[SimpleOutput]
FilePath="#;

pub const INI_RB_TIME: &'static str = r#"
RecFormat=mkv
RecQuality=Stream
RecEncoder=none
RecRB=true
RecRBTime="#;

pub const INI_WS_PORT: &'static str = r#"
RecRBSize=4096
RecRBPrefix=Replay

[obs-websocket]
ServerEnabled=true
ServerPort="#;

pub const INI_WS_AUTH: &'static str = r#"
AuthRequired="#;

pub const INI_WS_PASSWORD: &'static str = r#"
ServerPassword="#;

pub const INI_TAIL: &'static str = r#"
AlertsEnabled=false
DebugLog=false
"#;

/// The profile's `basic.ini`: 1080p60 video, stereo 48 kHz audio, simple
/// output to `output_dir` with a replay buffer of `rb_seconds` (capped at
/// 4096 MB), and the WebSocket server on `ws_port`, with authentication
/// exactly when a password is set.
pub open spec fn profile_ini_text(output_dir: Seq<char>, rb_seconds: u32, ws_port: u16, ws_password: Seq<char>) -> Seq<char> {
    INI_HEAD@ + output_dir + INI_RB_TIME@ + decimal(rb_seconds as nat) + INI_WS_PORT@ + decimal(ws_port as nat)
        + INI_WS_AUTH@ + (if ws_password.len() == 0 { "false"@ } else { "true"@ }) + INI_WS_PASSWORD@
        + ws_password + INI_TAIL@
}

pub fn build_profile_ini(config: &Config) -> (s: String)
    ensures
        s@ == profile_ini_text(config.output_dir@, config.replay_buffer_seconds, config.obs_port, config.obs_password@),
{
    let mut s = owned(INI_HEAD);
    push_str(&mut s, config.output_dir.as_str());
    push_str(&mut s, INI_RB_TIME);
    push_decimal(&mut s, config.replay_buffer_seconds as u64);
    push_str(&mut s, INI_WS_PORT);
    push_decimal(&mut s, config.obs_port as u64);
    push_str(&mut s, INI_WS_AUTH);
    let empty = config.obs_password.as_str().as_bytes().len() == 0;
    proof {
        lemma_no_bytes_no_chars(config.obs_password@);
    }
    push_str(&mut s, if empty { "false" } else { "true" });
    push_str(&mut s, INI_WS_PASSWORD);
    push_str(&mut s, config.obs_password.as_str());
    push_str(&mut s, INI_TAIL);
    s
}

/// A text has no UTF-8 bytes exactly when it has no characters.
proof fn lemma_no_bytes_no_chars(s: Seq<char>)
    ensures
        (vstd::utf8::encode_utf8(s).len() == 0) == (s.len() == 0),
{
    if s.len() == 0 {
        assert(s =~= Seq::<char>::empty());
    }
}

// ── Scene collection ──────────────────────────────────────────────────────────

pub const SCENE_HEAD: &'static str = r#"{
  "current_program_scene": "rscapt",
  "current_scene": "rscapt",
  "current_transition": "FadeTransition",
  "transition_duration": 300,
  "name": "rscapt",
  "sources": [
    {
      "id": "scene",
      "versioned_id": "scene",
      "name": "rscapt",
      "settings": {
        "id_counter": 2,
        "items": [
          {
            "name": ""#;

pub const SCENE_ITEMS: &'static str = r#"",
            "visible": true,
            "locked": false,
            "pos": {"x": 0.0, "y": 0.0},
            "bounds": {"x": 0.0, "y": 0.0},
            "bounds_type": 0,
            "bounds_align": 0,
            "scale": {"x": 1.0, "y": 1.0},
            "align": 5,
            "rot": 0.0,
            "id": 1,
            "group_item_id": 0
          },
          {
            "name": "Desktop Audio",
            "visible": true,
            "locked": false,
            "pos": {"x": 0.0, "y": 0.0},
            "bounds": {"x": 0.0, "y": 0.0},
            "bounds_type": 0,
            "bounds_align": 0,
            "scale": {"x": 1.0, "y": 1.0},
            "align": 5,
            "rot": 0.0,
            "id": 2,
            "group_item_id": 0
          }
        ]
      },
      "volume": 1.0,
      "muted": false,
      "enabled": true
    },
    {
      "id": ""#;

pub const SCENE_VERSIONED_ID: &'static str = r#"",
      "versioned_id": ""#;

pub const SCENE_SOURCE_NAME: &'static str = r#"",
      "name": ""#;

pub const SCENE_SOURCE_SETTINGS: &'static str = r#"",
      "settings": "#;

pub const SCENE_TAIL: &'static str = r#",
      "volume": 1.0,
      "muted": false,
      "enabled": true
    },
    {
      "id": "wasapi_output_capture",
      "versioned_id": "wasapi_output_capture",
      "name": "Desktop Audio",
      "settings": {"device_id": "default", "use_device_timing": false},
      "volume": 1.0,
      "muted": false,
      "enabled": true
    }
  ]
}"#;

/// The capture source for the configured kind: `(id, name, settings)`.
/// "display" captures the first monitor; anything else captures any
/// full-screen game.
pub open spec fn capture_source_of(kind: Seq<char>) -> (Seq<char>, Seq<char>, Seq<char>) {
    if kind == "display"@ {
        ("monitor_capture"@, "Display Capture"@, "{\"monitor\": 0, \"capture_cursor\": true}"@)
    } else {
        ("game_capture"@, "Game Capture"@,
            "{\"capture_mode\": \"any_fullscreen\", \"allow_transparency\": false, \"capture_cursor\": true}"@)
    }
}

/// The scene collection: one scene holding the capture source and the
/// desktop audio, which is always included.
pub open spec fn scene_json_text(kind: Seq<char>) -> Seq<char> {
    let (id, name, settings) = capture_source_of(kind);
    SCENE_HEAD@ + name + SCENE_ITEMS@ + id + SCENE_VERSIONED_ID@ + id + SCENE_SOURCE_NAME@ + name
        + SCENE_SOURCE_SETTINGS@ + settings + SCENE_TAIL@
}

pub fn build_scene_json(config: &Config) -> (s: String)
    ensures
        s@ == scene_json_text(config.capture_source@),
{
    let (id, name, settings) = if str_eq(config.capture_source.as_str(), "display") {
        ("monitor_capture", "Display Capture", "{\"monitor\": 0, \"capture_cursor\": true}")
    } else {
        ("game_capture", "Game Capture",
            "{\"capture_mode\": \"any_fullscreen\", \"allow_transparency\": false, \"capture_cursor\": true}")
    };
    let mut s = owned(SCENE_HEAD);
    push_str(&mut s, name);
    push_str(&mut s, SCENE_ITEMS);
    push_str(&mut s, id);
    push_str(&mut s, SCENE_VERSIONED_ID);
    push_str(&mut s, id);
    push_str(&mut s, SCENE_SOURCE_NAME);
    push_str(&mut s, name);
    push_str(&mut s, SCENE_SOURCE_SETTINGS);
    push_str(&mut s, settings);
    push_str(&mut s, SCENE_TAIL);
    s
}

// ── WebSocket plugin config ───────────────────────────────────────────────────

pub const WS_HEAD: &'static str = r#"{
  "alerts_enabled": false,
  "auth_required": "#;

pub const WS_PASSWORD: &'static str = r#",
  "debug_log": false,
  "server_enabled": true,
  "server_password": ""#;

pub const WS_PORT: &'static str = r#"",
  "server_port": "#;

pub const WS_TAIL: &'static str = r#"
}"#;

/// obs-websocket's `config.json`: the server enabled on `port`, with
/// authentication exactly when a password is set.  Quotes in the password
/// are escaped with a backslash.
pub open spec fn websocket_config_text(password: Seq<char>, port: u16) -> Seq<char> {
    WS_HEAD@ + (if password.len() == 0 { "false"@ } else { "true"@ }) + WS_PASSWORD@
        + replace_char(password, '"', "\\\""@) + WS_PORT@ + decimal(port as nat) + WS_TAIL@
}

pub fn build_websocket_config(config: &Config) -> (s: String)
    ensures
        s@ == websocket_config_text(config.obs_password@, config.obs_port),
{
    let empty = config.obs_password.as_str().as_bytes().len() == 0;
    proof {
        lemma_no_bytes_no_chars(config.obs_password@);
    }
    let mut s = owned(WS_HEAD);
    push_str(&mut s, if empty { "false" } else { "true" });
    push_str(&mut s, WS_PASSWORD);
    let quoted = replace_char_str(config.obs_password.as_str(), '"', "\\\"");
    push_str(&mut s, quoted.as_str());
    push_str(&mut s, WS_PORT);
    push_decimal(&mut s, config.obs_port as u64);
    push_str(&mut s, WS_TAIL);
    s
}

// ── Where the files go ───────────────────────────────────────────────────────

/// One file to write: the directory to create, the file's path, its text.
#[derive(Debug, Clone)]
pub struct ObsFile {
    pub dir: String,
    pub path: String,
    pub contents: String,
}

pub open spec fn base_or_dot(dir: Option<Seq<char>>) -> Seq<char> {
    match dir {
        Some(d) => d,
        None => "."@,
    }
}

/// OBS's settings folder: `obs-studio` under the user's configuration
/// directory (or under `.` when there is none).
pub fn obs_appdata_dir(config_dir: Option<&str>) -> (p: String)
    ensures
        p@ == join(base_or_dot(match config_dir { Some(d) => Some(d@), None => None }), "obs-studio"@),
{
    match config_dir {
        Some(d) => join_str(d, "obs-studio"),
        None => join_str(".", "obs-studio"),
    }
}

pub open spec fn file_ok(f: ObsFile, dir: Seq<char>, name: Seq<char>, contents: Seq<char>) -> bool {
    f.dir@ == dir && f.path@ == join(dir, name) && f.contents@ == contents
}

/// The three files of the rscapt OBS configuration under `obs_appdata`:
/// `basic\profiles\rscapt\basic.ini`, `basic\scenes\rscapt.json` and
/// `plugin_config\obs-websocket\config.json`, in that order.
pub fn profile_files(config: &Config, obs_appdata: &str) -> (files: Vec<ObsFile>)
    ensures
        files@.len() == 3,
        file_ok(files@[0], join(join(join(obs_appdata@, "basic"@), "profiles"@), "rscapt"@), "basic.ini"@,
            profile_ini_text(config.output_dir@, config.replay_buffer_seconds, config.obs_port, config.obs_password@)),
        file_ok(files@[1], join(join(obs_appdata@, "basic"@), "scenes"@), "rscapt.json"@,
            scene_json_text(config.capture_source@)),
        file_ok(files@[2], join(join(obs_appdata@, "plugin_config"@), "obs-websocket"@), "config.json"@,
            websocket_config_text(config.obs_password@, config.obs_port)),
{
    let basic = join_str(obs_appdata, "basic");
    let profile_dir = join_str(join_str(basic.as_str(), "profiles").as_str(), PROFILE_NAME);
    let scenes_dir = join_str(basic.as_str(), "scenes");
    let ws_dir = join_str(join_str(obs_appdata, "plugin_config").as_str(), "obs-websocket");
    let mut files: Vec<ObsFile> = Vec::new();
    let p0 = join_str(profile_dir.as_str(), "basic.ini");
    files.push(ObsFile { dir: profile_dir, path: p0, contents: build_profile_ini(config) });
    let p1 = join_str(scenes_dir.as_str(), "rscapt.json");
    files.push(ObsFile { dir: scenes_dir, path: p1, contents: build_scene_json(config) });
    let p2 = join_str(ws_dir.as_str(), "config.json");
    files.push(ObsFile { dir: ws_dir, path: p2, contents: build_websocket_config(config) });
    files
}

// ── Finding and starting OBS ─────────────────────────────────────────────────

/// The registry query (through PowerShell) for OBS's install folder.
pub const REGISTRY_QUERY: &'static str = r"(Get-ItemProperty 'HKLM:\SOFTWARE\OBS Studio' -ErrorAction SilentlyContinue).InstallPath";

/// Where obs64.exe lies under the install folder the registry query
/// printed, if it printed one.
pub open spec fn registry_exe_of(stdout: Seq<char>) -> Option<Seq<char>> {
    let p = trim(stdout);
    if p.len() == 0 {
        None
    } else {
        Some(join(join(join(p, "bin"@), "64bit"@), "obs64.exe"@))
    }
}

pub fn registry_exe(stdout: &str) -> (r: Option<String>)
    ensures
        match r {
            Some(p) => registry_exe_of(stdout@) == Some(p@),
            None => registry_exe_of(stdout@) is None,
        },
{
    let t = trim_chars(&chars_of(stdout));
    if t.len() == 0 {
        return None;
    }
    let p = string_from_chars(&t);
    let bin = join_str(p.as_str(), "bin");
    let x64 = join_str(bin.as_str(), "64bit");
    Some(join_str(x64.as_str(), "obs64.exe"))
}

/// The common install locations tried after the registry.
pub open spec fn fallback_paths() -> Seq<Seq<char>> {
    seq![r"C:\Program Files\obs-studio\bin\64bit\obs64.exe"@, r"C:\Program Files (x86)\obs-studio\bin\64bit\obs64.exe"@]
}

/// The places obs64.exe is looked for, in order: the one the registry names
/// (from the query's output), then the common install locations.
pub fn obs_candidates(registry_stdout: &str) -> (v: Vec<String>)
    ensures
        strs(v@) == match registry_exe_of(registry_stdout@) {
            Some(p) => seq![p] + fallback_paths(),
            None => fallback_paths(),
        },
{
    let mut v: Vec<String> = Vec::new();
    match registry_exe(registry_stdout) {
        Some(p) => {
            push_arg(&mut v, p.as_str());
        },
        None => {},
    }
    push_arg(&mut v, r"C:\Program Files\obs-studio\bin\64bit\obs64.exe");
    push_arg(&mut v, r"C:\Program Files (x86)\obs-studio\bin\64bit\obs64.exe");
    proof {
        assert(strs(v@) =~= match registry_exe_of(registry_stdout@) {
            Some(p) => seq![p] + fallback_paths(),
            None => fallback_paths(),
        });
    }
    v
}

/// The first of `paths` that exists (`exists[i]` tells whether `paths[i]` does).
pub fn first_existing(paths: &Vec<String>, exists: &Vec<bool>) -> (r: Option<String>)
    requires
        paths.len() == exists.len(),
    ensures
        match r {
            Some(p) => exists|i: int| 0 <= i < paths.len() && exists@[i] && p == paths@[i]
                && forall|k: int| 0 <= k < i ==> !#[trigger] exists@[k],
            None => forall|k: int| 0 <= k < exists.len() ==> !#[trigger] exists@[k],
        },
{
    let mut i: usize = 0;
    while i < paths.len()
        invariant
            i <= paths.len() == exists.len(),
            forall|k: int| 0 <= k < i ==> !#[trigger] exists@[k],
        decreases paths.len() - i,
    {
        if exists[i] {
            return Some(paths[i].clone());
        }
        i += 1;
    }
    None
}

/// Whether `tasklist`'s output lists obs64.exe.
pub fn obs_listed(tasklist_stdout: &str) -> (b: bool)
    ensures
        b == contains(tasklist_stdout@, "obs64.exe"@),
{
    str_contains(tasklist_stdout, "obs64.exe")
}

/// The arguments OBS is started with: the rscapt profile and scene
/// collection, minimised to the tray, replay buffer running.
pub fn launch_args() -> (v: Vec<String>)
    ensures
        strs(v@) == seq!["--profile"@, "rscapt"@, "--collection"@, "rscapt"@, "--minimize-to-tray"@,
            "--startreplaybuffer"@],
{
    let mut v: Vec<String> = Vec::new();
    push_arg(&mut v, "--profile");
    push_arg(&mut v, PROFILE_NAME);
    push_arg(&mut v, "--collection");
    push_arg(&mut v, SCENE_NAME);
    push_arg(&mut v, "--minimize-to-tray");
    push_arg(&mut v, "--startreplaybuffer");
    v
}

} // verus!
