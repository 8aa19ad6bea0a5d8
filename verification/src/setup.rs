//! What the setup wizard does with its answers: the configuration it writes,
//! the OBS download it picks, and the progress it reports.  Downloading,
//! unpacking and saving are done by the program around this library.
use vstd::prelude::*;
use crate::config::Config;
use crate::text::{contains, ends_with, decimal, round_half_even, round_half_even_u128,
    push_decimal, push_str, str_contains, str_ends_with};

verus! {

// ── Options collected by the wizard ──────────────────────────────────────────

#[derive(Debug, Clone, PartialEq, Eq)]
pub enum ObsChoice {
    /// Download OBS portable automatically from GitHub releases.
    Download,
    /// Use an existing OBS installation at a known path.
    Existing(String),
    /// Skip — user will configure obs_exe_path manually later.
    Skip,
}

#[derive(Debug, Clone)]
pub struct SetupOptions {
    pub obs: ObsChoice,
    pub output_dir: String,
    pub buffer_secs: u32,
    /// "game" or "display"
    pub capture_source: String,
    pub autostart: bool,
}

/// What remains to be done once the configuration holds the answers.
#[derive(Debug, Clone, Copy, PartialEq, Eq, Structural)]
pub struct SetupSteps {
    /// Write the rscapt OBS profile (only when rscapt manages OBS).
    pub write_profile: bool,
    /// Register autostart and the Start Menu entry.
    pub install_autostart: bool,
}

// ── Apply ─────────────────────────────────────────────────────────────────────

/// The fields that setup does not touch are those of `old`.
pub open spec fn keeps_other_settings(new: Config, old: Config) -> bool {
    &&& new.obs_host == old.obs_host
    &&& new.obs_port == old.obs_port
    &&& new.obs_password == old.obs_password
    &&& new.temp_dir == old.temp_dir
    &&& new.upscale_resolution == old.upscale_resolution
    &&& new.upscale_filter == old.upscale_filter
    &&& new.encoder == old.encoder
    &&& new.nvenc_quality == old.nvenc_quality
    &&& new.ipc_port == old.ipc_port
}

/// Writes the answers into `config`.  For `ObsChoice::Download`,
/// `downloaded_exe` is where the freshly unpacked obs64.exe lies; it is not
/// read for the other choices.  An existing OBS install is recorded but left
/// alone: rscapt neither manages it nor writes its profile, scenes or
/// WebSocket settings.  Returns what is left to do: the OBS profile when
/// rscapt now manages OBS (only for a download), and autostart when it was
/// asked for.
pub fn configure(config: &mut Config, opts: &SetupOptions, downloaded_exe: Option<String>) -> (steps: SetupSteps)
    requires
        opts.obs is Download ==> downloaded_exe is Some,
    ensures
        final(config).output_dir == opts.output_dir,
        final(config).replay_buffer_seconds == opts.buffer_secs,
        final(config).capture_source == opts.capture_source,
        match opts.obs {
            ObsChoice::Download => final(config).obs_exe_path == downloaded_exe->0 && final(config).obs_managed,
            ObsChoice::Existing(p) => final(config).obs_exe_path == p && !final(config).obs_managed,
            ObsChoice::Skip => final(config).obs_exe_path == old(config).obs_exe_path && !final(config).obs_managed,
        },
        keeps_other_settings(*final(config), *old(config)),
        steps.write_profile == final(config).obs_managed,
        steps.install_autostart == opts.autostart,
{
    config.output_dir = opts.output_dir.clone();
    config.replay_buffer_seconds = opts.buffer_secs;
    config.capture_source = opts.capture_source.clone();
    match &opts.obs {
        ObsChoice::Download => {
            match downloaded_exe {
                Some(exe) => {
                    config.obs_exe_path = exe;
                    config.obs_managed = true;
                },
                None => {},
            }
        },
        ObsChoice::Existing(path) => {
            config.obs_exe_path = path.clone();
            config.obs_managed = false;
        },
        ObsChoice::Skip => {
            config.obs_managed = false;
        },
    }
    SetupSteps { write_profile: config.obs_managed, install_autostart: opts.autostart }
}

// ── OBS download ──────────────────────────────────────────────────────────────

/// The portable Windows build among an OBS release's assets: a zip with
/// "Windows" in its name that is not the debug-symbols (PDB) archive.
pub open spec fn is_obs_windows_zip(name: Seq<char>) -> bool {
    contains(name, "Windows"@) && ends_with(name, ".zip"@) && !contains(name, "PDB"@)
}

pub fn obs_windows_zip(name: &str) -> (b: bool)
    ensures
        b == is_obs_windows_zip(name@),
{
    str_contains(name, "Windows") && str_ends_with(name, ".zip") && !str_contains(name, "PDB")
}

/// The index of the first asset name that is the portable Windows zip.
pub fn pick_obs_asset(names: &Vec<String>) -> (r: Option<usize>)
    ensures
        match r {
            Some(i) => i < names.len() && is_obs_windows_zip(names@[i as int]@)
                && forall|k: int| 0 <= k < i ==> !is_obs_windows_zip(#[trigger] names@[k]@),
            None => forall|k: int| 0 <= k < names.len() ==> !is_obs_windows_zip(#[trigger] names@[k]@),
        },
{
    let mut i: usize = 0;
    while i < names.len()
        invariant
            i <= names.len(),
            forall|k: int| 0 <= k < i ==> !is_obs_windows_zip(#[trigger] names@[k]@),
        decreases names.len() - i,
    {
        if obs_windows_zip(names[i].as_str()) {
            return Some(i);
        }
        i += 1;
    }
    None
}

/// The percentage to print while downloading: every time it has grown by ten
/// points or more since the last one printed.  Nothing is printed when the
/// size is unknown (zero).
pub open spec fn progress_report_of(done: nat, size: nat, last: nat) -> Option<nat> {
    if size > 0 && done * 100 / size >= last + 10 {
        Some(done * 100 / size)
    } else {
        None
    }
}

pub fn progress_report(done: u64, size: u64, last: u64) -> (r: Option<u64>)
    requires
        done * 100 <= u64::MAX,
    ensures
        r == match progress_report_of(done as nat, size as nat, last as nat) {
            Some(p) => Some(p as u64),
            None => None::<u64>,
        },
{
    if size > 0 {
        let pct = done * 100 / size;
        if pct >= last && pct - last >= 10 {
            return Some(pct);
        }
    }
    None
}

/// A download size in binary megabytes from 1 MiB up, else in binary
/// kilobytes, rounded to nearest with ties to even (`"95 MB"`, `"512 KB"`).
pub open spec fn fmt_bytes_text(b: nat) -> Seq<char> {
    if b >= 1048576 {
        decimal(round_half_even(b, 1048576)) + " MB"@
    } else {
        decimal(round_half_even(b, 1024)) + " KB"@
    }
}

pub fn fmt_bytes(b: u64) -> (s: String)
    ensures
        s@ == fmt_bytes_text(b as nat),
{
    let mut s = String::new();
    if b >= 1048576 {
        let m = round_half_even_u128(b as u128, 1048576);
        assert(m <= u64::MAX) by (nonlinear_arith)
            requires
                m <= b / 1048576 + 1,
                b <= u64::MAX,
        ;
        push_decimal(&mut s, m as u64);
        push_str(&mut s, " MB");
    } else {
        let k = round_half_even_u128(b as u128, 1024);
        assert(k <= u64::MAX) by (nonlinear_arith)
            requires
                k <= b / 1024 + 1,
                b < 1048576,
        ;
        push_decimal(&mut s, k as u64);
        push_str(&mut s, " KB");
    }
    s
}

} // verus!
