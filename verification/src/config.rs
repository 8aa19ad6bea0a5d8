//! The daemon's configuration and where it lives.
use vstd::prelude::*;
use crate::paths::{join, parent};
use crate::text::owned;

verus! {

#[derive(Debug, Clone)]
pub struct Config {
    // OBS WebSocket
    pub obs_host: String,
    pub obs_port: u16,
    pub obs_password: String,
    // Paths
    pub output_dir: String,
    pub temp_dir: String,
    // Upscale — raw pass, no colour grading here
    pub upscale_resolution: String,
    pub upscale_filter: String,
    pub encoder: String,
    pub nvenc_quality: u8,
    // IPC
    pub ipc_port: u16,
    // OBS management
    /// Path to obs64.exe. Empty = not configured.
    pub obs_exe_path: String,
    /// If true, the daemon owns the OBS process: launches it on start, kills it on exit.
    pub obs_managed: bool,
    /// Replay buffer duration written to the rscapt OBS profile.
    pub replay_buffer_seconds: u32,
    /// Capture source type written to the rscapt OBS profile: "game" or "display".
    pub capture_source: String,
}

pub open spec fn default_ipc_port_value() -> u16 {
    19874
}

/// The configuration a fresh install starts from, given its two directories.
pub open spec fn is_default_config(c: Config, output_dir: Seq<char>, temp_dir: Seq<char>) -> bool {
    &&& c.obs_host@ == "127.0.0.1"@
    &&& c.obs_port == 4455
    &&& c.obs_password@ == Seq::<char>::empty()
    &&& c.output_dir@ == output_dir
    &&& c.temp_dir@ == temp_dir
    &&& c.upscale_resolution@ == "2560x1440"@
    &&& c.upscale_filter@ == "lanczos"@
    &&& c.encoder@ == "h264_nvenc"@
    &&& c.nvenc_quality == 18
    &&& c.ipc_port == default_ipc_port_value()
    &&& c.obs_exe_path@ == Seq::<char>::empty()
    &&& !c.obs_managed
    &&& c.replay_buffer_seconds == 30
    &&& c.capture_source@ == "game"@
}

fn default_obs_host() -> (s: String)
    ensures
        s@ == "127.0.0.1"@,
{
    owned("127.0.0.1")
}

fn default_obs_port() -> (p: u16)
    ensures
        p == 4455,
{
    4455
}

fn default_resolution() -> (s: String)
    ensures
        s@ == "2560x1440"@,
{
    owned("2560x1440")
}

fn default_filter() -> (s: String)
    ensures
        s@ == "lanczos"@,
{
    owned("lanczos")
}

fn default_encoder() -> (s: String)
    ensures
        s@ == "h264_nvenc"@,
{
    owned("h264_nvenc")
}

fn default_nvenc_quality() -> (q: u8)
    ensures
        q == 18,
{
    18
}

/// The IPC port of the documented configuration.
pub fn default_ipc_port() -> (p: u16)
    ensures
        p == default_ipc_port_value(),
{
    19874
}

fn default_replay_buffer_seconds() -> (s: u32)
    ensures
        s == 30,
{
    30
}

fn default_capture_source() -> (s: String)
    ensures
        s@ == "game"@,
{
    owned("game")
}

/// `Videos\Captures`: the `Captures` folder under the user's video folder,
/// else under the home folder, else under the current folder.
pub open spec fn default_output_dir_of(video: Option<Seq<char>>, home: Option<Seq<char>>) -> Seq<char> {
    let base = match video {
        Some(v) => v,
        None => match home {
            Some(h) => h,
            None => "."@,
        },
    };
    join(base, "Captures"@)
}

/// The default output folder, from the user's video and home folders
/// (`dirs::video_dir`, `dirs::home_dir`).
pub fn default_output_dir(video: Option<&str>, home: Option<&str>) -> (s: String)
    ensures
        s@ == default_output_dir_of(
            match video {
                Some(v) => Some(v@),
                None => None,
            },
            match home {
                Some(h) => Some(h@),
                None => None,
            },
        ),
{
    let base = match video {
        Some(v) => v,
        None => match home {
            Some(h) => h,
            None => ".",
        },
    };
    crate::paths::join_str(base, "Captures")
}

/// The scratch folder: `rscapt` under the system temporary folder.
pub fn default_temp_dir(temp: &str) -> (s: String)
    ensures
        s@ == join(temp@, "rscapt"@),
{
    crate::paths::join_str(temp, "rscapt")
}

/// The folder of rscapt's own data: `rscapt` under the user's configuration
/// folder, or under the current folder when there is none.
pub open spec fn data_dir_of(config_dir: Option<Seq<char>>) -> Seq<char> {
    join(
        match config_dir {
            Some(d) => d,
            None => "."@,
        },
        "rscapt"@,
    )
}

impl Config {
    /// The default configuration with the given output and scratch folders.
    pub fn with_dirs(output_dir: String, temp_dir: String) -> (c: Self)
        ensures
            is_default_config(c, output_dir@, temp_dir@),
    {
        Config {
            obs_host: default_obs_host(),
            obs_port: default_obs_port(),
            obs_password: String::new(),
            output_dir,
            temp_dir,
            upscale_resolution: default_resolution(),
            upscale_filter: default_filter(),
            encoder: default_encoder(),
            nvenc_quality: default_nvenc_quality(),
            ipc_port: default_ipc_port(),
            obs_exe_path: String::new(),
            obs_managed: false,
            replay_buffer_seconds: default_replay_buffer_seconds(),
            capture_source: default_capture_source(),
        }
    }

    /// `config.json` in the data folder, given the user's configuration folder.
    pub fn path(config_dir: Option<&str>) -> (p: String)
        ensures
            p@ == join(
                data_dir_of(
                    match config_dir {
                        Some(d) => Some(d@),
                        None => None,
                    },
                ),
                "config.json"@,
            ),
    {
        let d = Config::data_dir(config_dir);
        crate::paths::join_str(d.as_str(), "config.json")
    }

    /// The data folder, given the user's configuration folder.
    pub fn data_dir(config_dir: Option<&str>) -> (p: String)
        ensures
            p@ == data_dir_of(
                match config_dir {
                    Some(d) => Some(d@),
                    None => None,
                },
            ),
    {
        let base = match config_dir {
            Some(d) => d,
            None => ".",
        };
        crate::paths::join_str(base, "rscapt")
    }
}

/// The IPC port recorded in a configuration file (truncated to 16 bits, as
/// the desktop front-end reads it), or the documented default when the file
/// has none.
pub fn ipc_port_or_default(recorded: Option<u64>) -> (p: u16)
    ensures
        p == match recorded {
            Some(v) => (v % 65536) as u16,
            None => default_ipc_port_value(),
        },
{
    match recorded {
        Some(v) => (v % 65536) as u16,
        None => default_ipc_port(),
    }
}

/// Where the log files go: `rscapt-logs` beside the output folder (in the
/// output folder's parent), or under `.` when it has none.
pub fn log_dir(output_dir: &str) -> (p: String)
    ensures
        p@ == join(match parent(output_dir@) {
            Some(d) => d,
            None => "."@,
        }, "rscapt-logs"@),
{
    let v = crate::text::chars_of(output_dir);
    match crate::paths::parent_chars(&v) {
        Some(d) => {
            let base = crate::text::string_from_chars(&d);
            crate::paths::join_str(base.as_str(), "rscapt-logs")
        },
        None => crate::paths::join_str(".", "rscapt-logs"),
    }
}

} // verus!
