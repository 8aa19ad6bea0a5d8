//! Desktop notifications and the clipboard on Windows, through PowerShell
//! (an unpackaged program would need a registered application id to send
//! toasts itself; PowerShell has one).  The scripts are built here and run
//! by the program around this library.
use vstd::prelude::*;
use crate::installer::{ps_quoted, ps_str};
use crate::text::{owned, push_str};

verus! {

/// PowerShell's application id, under which the toast appears.
pub const POWERSHELL_AUMID: &'static str = r"{1AC14E77-02E7-4E5D-B744-2EB1AE5198B7}\WindowsPowerShell\v1.0\powershell.exe";

pub const TOAST_HEAD: &'static str = r#"
$app = '"#;

pub const TOAST_TITLE: &'static str = r#"'
[Windows.UI.Notifications.ToastNotificationManager, Windows.UI.Notifications, ContentType = WindowsRuntime] | Out-Null
$xml = [Windows.UI.Notifications.ToastNotificationManager]::GetTemplateContent('ToastText02')
$xml.GetElementsByTagName('text').Item(0).InnerText = '"#;

pub const TOAST_BODY: &'static str = r#"'
$xml.GetElementsByTagName('text').Item(1).InnerText = '"#;

pub const TOAST_TAIL: &'static str = r#"'
$notifier = [Windows.UI.Notifications.ToastNotificationManager]::CreateToastNotifier($app)
$notifier.Show([Windows.UI.Notifications.ToastNotification]::new($xml))
"#;

/// The script that shows a two-line toast with `title` and `body` (quotes
/// doubled).
pub open spec fn toast_script_text(title: Seq<char>, body: Seq<char>) -> Seq<char> {
    TOAST_HEAD@ + POWERSHELL_AUMID@ + TOAST_TITLE@ + ps_quoted(title) + TOAST_BODY@ + ps_quoted(body) + TOAST_TAIL@
}

pub fn toast_script(title: &str, body: &str) -> (s: String)
    ensures
        s@ == toast_script_text(title@, body@),
{
    let t = ps_str(title);
    let b = ps_str(body);
    let mut s = owned(TOAST_HEAD);
    push_str(&mut s, POWERSHELL_AUMID);
    push_str(&mut s, TOAST_TITLE);
    push_str(&mut s, t.as_str());
    push_str(&mut s, TOAST_BODY);
    push_str(&mut s, b.as_str());
    push_str(&mut s, TOAST_TAIL);
    s
}

/// The command that puts `text` on the clipboard.
pub open spec fn clipboard_script_text(text: Seq<char>) -> Seq<char> {
    "Set-Clipboard -Value '"@ + ps_quoted(text) + "'"@
}

pub fn clipboard_script(text: &str) -> (s: String)
    ensures
        s@ == clipboard_script_text(text@),
{
    let mut s = owned("Set-Clipboard -Value '");
    let q = ps_str(text);
    push_str(&mut s, q.as_str());
    push_str(&mut s, "'");
    s
}

} // verus!
