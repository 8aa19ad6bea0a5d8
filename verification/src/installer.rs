//! Installing rscapt for the current user: where it goes, the silent
//! launcher that autostart runs, and the PowerShell scripts that create the
//! Start Menu shortcut, the autostart entry and the PATH entry, and remove
//! them again.  Copying files and running PowerShell is done by the program
//! around this library.
use vstd::prelude::*;
use crate::paths::{join, join_str};
use crate::text::{owned, push_str, replace_char, replace_char_str};

verus! {

/// Where rscapt installs itself: `rscapt` under the local data directory
/// (or under `.` when there is none).
pub open spec fn install_dir_of(data_local: Option<Seq<char>>) -> Seq<char> {
    join(match data_local {
        Some(d) => d,
        None => "."@,
    }, "rscapt"@)
}

pub fn install_dir(data_local: Option<&str>) -> (p: String)
    ensures
        p@ == install_dir_of(match data_local {
            Some(d) => Some(d@),
            None => None,
        }),
{
    match data_local {
        Some(d) => join_str(d, "rscapt"),
        None => join_str(".", "rscapt"),
    }
}

// ── VBS silent launcher ───────────────────────────────────────────────────────

/// The launcher script that starts `rscapt tray` with no visible window,
/// for the executable at `exe` (quotes doubled).
pub open spec fn vbs_launcher_text(exe: Seq<char>) -> Seq<char> {
    "CreateObject(\"WScript.Shell\").Run \"\"\""@ + replace_char(exe, '"', "\"\""@) + "\"\" tray\", 0, False\n"@
}

/// The launcher for an install in `dir`: its path (`rscapt-start.vbs` in
/// `dir`) and its text, which runs `rscapt.exe` from `dir`.
pub fn vbs_launcher(dir: &str) -> (r: (String, String))
    ensures
        r.0@ == join(dir@, "rscapt-start.vbs"@),
        r.1@ == vbs_launcher_text(join(dir@, "rscapt.exe"@)),
{
    let vbs_path = join_str(dir, "rscapt-start.vbs");
    let exe_path = join_str(dir, "rscapt.exe");
    let exe = replace_char_str(exe_path.as_str(), '"', "\"\"");
    let mut content = owned("CreateObject(\"WScript.Shell\").Run \"\"\"");
    push_str(&mut content, exe.as_str());
    push_str(&mut content, "\"\" tray\", 0, False\n");
    (vbs_path, content)
}

// ── PowerShell scripts ────────────────────────────────────────────────────────

/// Text for a single-quoted PowerShell string: `'` doubled.
pub open spec fn ps_quoted(s: Seq<char>) -> Seq<char> {
    replace_char(s, '\'', "''"@)
}

/// Escapes a string for use inside PowerShell single-quoted strings.
pub fn ps_str(s: &str) -> (r: String)
    ensures
        r@ == ps_quoted(s@),
{
    replace_char_str(s, '\'', "''")
}

pub const INSTALL_HEAD: &'static str = r#"
$shell = New-Object -ComObject WScript.Shell
$lnk = $shell.CreateShortcut("$env:APPDATA\Microsoft\Windows\Start Menu\Programs\rscapt.lnk")
$lnk.TargetPath = '"#;

pub const INSTALL_ARGS: &'static str = r#"'
$lnk.Arguments = 'tui'
$lnk.Description = 'rscapt - OBS replay clip processor'
$lnk.IconLocation = '"#;

pub const INSTALL_RUN_KEY: &'static str = r#",0'
$lnk.Save()
Set-ItemProperty -Path 'HKCU:\Software\Microsoft\Windows\CurrentVersion\Run' -Name 'rscapt' -Value ('wscript.exe "' + '"#;

pub const INSTALL_PATH_CHECK: &'static str = r#"' + '"') -ErrorAction Stop
$cur = [Environment]::GetEnvironmentVariable('PATH', 'User')
if ($null -eq $cur) { $cur = '' }
if ($cur -notlike '*"#;

pub const INSTALL_PATH_ADD: &'static str = r#"*') { [Environment]::SetEnvironmentVariable('PATH', ($cur + ';' + '"#;

pub const INSTALL_TAIL: &'static str = r#"'), 'User') }
"#;

/// The install script: a Start Menu shortcut to `exe tui`, an autostart
/// entry running the launcher `vbs` through wscript, and `dir` appended to
/// the user's PATH unless it is already in it.
pub open spec fn install_script_text(exe: Seq<char>, vbs: Seq<char>, dir: Seq<char>) -> Seq<char> {
    let (e, v, d) = (ps_quoted(exe), ps_quoted(vbs), ps_quoted(dir));
    INSTALL_HEAD@ + e + INSTALL_ARGS@ + e + INSTALL_RUN_KEY@ + v + INSTALL_PATH_CHECK@ + d + INSTALL_PATH_ADD@ + d
        + INSTALL_TAIL@
}

pub fn install_ps_script(exe: &str, vbs: &str, install_dir: &str) -> (s: String)
    ensures
        s@ == install_script_text(exe@, vbs@, install_dir@),
{
    let e = ps_str(exe);
    let v = ps_str(vbs);
    let d = ps_str(install_dir);
    let mut s = owned(INSTALL_HEAD);
    push_str(&mut s, e.as_str());
    push_str(&mut s, INSTALL_ARGS);
    push_str(&mut s, e.as_str());
    push_str(&mut s, INSTALL_RUN_KEY);
    push_str(&mut s, v.as_str());
    push_str(&mut s, INSTALL_PATH_CHECK);
    push_str(&mut s, d.as_str());
    push_str(&mut s, INSTALL_PATH_ADD);
    push_str(&mut s, d.as_str());
    push_str(&mut s, INSTALL_TAIL);
    s
}

pub const UNINSTALL_HEAD: &'static str = r#"
$lnk = "$env:APPDATA\Microsoft\Windows\Start Menu\Programs\rscapt.lnk"
if (Test-Path $lnk) { Remove-Item $lnk -Force -ErrorAction SilentlyContinue }
Remove-ItemProperty -Path 'HKCU:\Software\Microsoft\Windows\CurrentVersion\Run' -Name 'rscapt' -ErrorAction SilentlyContinue
$cur = [Environment]::GetEnvironmentVariable('PATH', 'User')
if ($null -ne $cur) { [Environment]::SetEnvironmentVariable('PATH', (($cur -split ';' | Where-Object { $_ -ne '"#;

pub const UNINSTALL_CLEANUP: &'static str = r#"' }) -join ';'), 'User') }
Set-ItemProperty -Path 'HKCU:\Software\Microsoft\Windows\CurrentVersion\RunOnce' -Name 'rscapt-cleanup' -Value ('cmd /c rmdir /s /q "' + '"#;

pub const UNINSTALL_TAIL: &'static str = r#"' + '"') -ErrorAction SilentlyContinue
"#;

/// The uninstall script: the shortcut and the autostart entry removed, `dir`
/// taken out of the user's PATH, and `dir` deleted at the next login (the
/// running executable is locked until then).
pub open spec fn uninstall_script_text(dir: Seq<char>) -> Seq<char> {
    let d = ps_quoted(dir);
    UNINSTALL_HEAD@ + d + UNINSTALL_CLEANUP@ + d + UNINSTALL_TAIL@
}

pub fn uninstall_ps_script(install_dir: &str) -> (s: String)
    ensures
        s@ == uninstall_script_text(install_dir@),
{
    let d = ps_str(install_dir);
    let mut s = owned(UNINSTALL_HEAD);
    push_str(&mut s, d.as_str());
    push_str(&mut s, UNINSTALL_CLEANUP);
    push_str(&mut s, d.as_str());
    push_str(&mut s, UNINSTALL_TAIL);
    s
}

} // verus!
