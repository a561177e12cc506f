//! Desktop notifications: the per-platform backend order, the escaping
//! the scripted backends need, the texts handed to each backend, and the
//! options builder.

use vstd::prelude::*;

use crate::errors::CaptureError;
use crate::platform::Platform;
use crate::textutil::{replace_char, replace_char_text};

verus! {

/// Urgency level for notifications (primarily used on Linux, but mapped
/// to other platforms).
#[derive(Debug, Clone, Copy)]
pub enum NotificationUrgency {
    Low,
    Normal,
    Critical,
}

/// The urgency a numeric level denotes: zero is low, one is normal,
/// everything else critical.
pub fn urgency_from_level(level: i32) -> (r: NotificationUrgency)
    ensures
        level == 0 ==> r is Low,
        level == 1 ==> r is Normal,
        level != 0 && level != 1 ==> r is Critical,
{
    match level {
        0 => NotificationUrgency::Low,
        1 => NotificationUrgency::Normal,
        _ => NotificationUrgency::Critical,
    }
}

/// A notification with all its options gathered.
pub struct NotificationBuilder {
    pub title: String,
    pub message: String,
    pub icon_path: Option<String>,
    pub timeout: Option<u64>,
    pub urgency: Option<NotificationUrgency>,
    /// Pairs of action identifier and label.
    pub actions: Vec<(String, String)>,
}

/// Gather a notification's options into a builder.  Actions start empty;
/// the urgency level is mapped through `urgency_from_level`.
pub fn build_notification(
    title: String,
    message: String,
    icon_path: Option<String>,
    timeout_seconds: Option<u64>,
    urgency_level: Option<i32>,
) -> (r: NotificationBuilder)
    ensures
        r.title == title,
        r.message == message,
        r.icon_path == icon_path,
        r.timeout == timeout_seconds,
        r.actions@.len() == 0,
        urgency_level is None ==> r.urgency is None,
        urgency_level matches Some(level) ==> (r.urgency matches Some(u) && {
            &&& level == 0 ==> u is Low
            &&& level == 1 ==> u is Normal
            &&& level != 0 && level != 1 ==> u is Critical
        }),
{
    let urgency = match urgency_level {
        Some(level) => Some(urgency_from_level(level)),
        None => None,
    };
    NotificationBuilder {
        title,
        message,
        icon_path,
        timeout: timeout_seconds,
        urgency,
        actions: Vec::new(),
    }
}

/// Marks this module for inclusion in the crate root.  Purely for
/// documentation; it does nothing and need not be called.
pub fn register_module() {
}

/// One way of delivering a notification; each platform tries its
/// backends in a fixed order and stops at the first that succeeds.
#[derive(Clone, Copy, Debug, PartialEq, Eq, Structural)]
pub enum NotifyBackend {
    /// Toast notification through the scripting shell.
    PowershellToast,
    /// Balloon tip through the scripting shell.
    PowershellBalloon,
    /// Blocking message box, last resort on Windows.
    PowershellMessageBox,
    /// The `terminal-notifier` tool.
    TerminalNotifier,
    /// Scripted `display notification` call.
    AppleScript,
    /// The `notify-send` tool.
    NotifySend,
    /// The `kdialog` passive popup.
    Kdialog,
    /// The `zenity` notification icon.
    Zenity,
    /// The `xmessage` window, last resort on Linux.
    Xmessage,
}

/// The notification backends of a platform, in the order they are tried.
/// An unknown platform has none: notifications are unsupported there.
pub open spec fn backend_order(p: Platform) -> Seq<NotifyBackend> {
    match p {
        Platform::Windows => seq![
            NotifyBackend::PowershellToast,
            NotifyBackend::PowershellBalloon,
            NotifyBackend::PowershellMessageBox,
        ],
        Platform::MacOs => seq![NotifyBackend::TerminalNotifier, NotifyBackend::AppleScript],
        Platform::Linux => seq![
            NotifyBackend::NotifySend,
            NotifyBackend::Kdialog,
            NotifyBackend::Zenity,
            NotifyBackend::Xmessage,
        ],
        Platform::Other => Seq::empty(),
    }
}

/// The ordered backends for a platform, or the error surfaced when the
/// platform supports none.
pub fn notification_backends(p: Platform) -> (r: Result<Vec<NotifyBackend>, CaptureError>)
    ensures
        p is Other <==> (r matches Err(e) && e is PlatformUnsupported),
        !(p is Other) ==> (r matches Ok(v) && v@ == backend_order(p)),
{
    match p {
        Platform::Windows => {
            let v = vec![
                NotifyBackend::PowershellToast,
                NotifyBackend::PowershellBalloon,
                NotifyBackend::PowershellMessageBox,
            ];
            proof {
                assert(v@ =~= backend_order(p));
            }
            Ok(v)
        },
        Platform::MacOs => {
            let v = vec![NotifyBackend::TerminalNotifier, NotifyBackend::AppleScript];
            proof {
                assert(v@ =~= backend_order(p));
            }
            Ok(v)
        },
        Platform::Linux => {
            let v = vec![
                NotifyBackend::NotifySend,
                NotifyBackend::Kdialog,
                NotifyBackend::Zenity,
                NotifyBackend::Xmessage,
            ];
            proof {
                assert(v@ =~= backend_order(p));
            }
            Ok(v)
        },
        Platform::Other => Err(CaptureError::PlatformUnsupported),
    }
}

/// Text escaped for interpolation into a shell-script string: quotes are
/// doubled, and backtick, double quote and dollar are backtick-escaped,
/// in that order of passes.
pub open spec fn spec_escape_powershell(s: Seq<char>) -> Seq<char> {
    replace_char(
        replace_char(replace_char(replace_char(s, '\'', "''"@), '`', "``"@), '"', "`\""@),
        '$',
        "`$"@,
    )
}

/// Escape text for the scripted Windows notification backends.
pub fn escape_powershell_string(s: &str) -> (r: String)
    ensures
        r@ == spec_escape_powershell(s@),
{
    let pass1 = replace_char_text(s, '\'', "''");
    let pass2 = replace_char_text(pass1.as_str(), '`', "``");
    let pass3 = replace_char_text(pass2.as_str(), '"', "`\"");
    replace_char_text(pass3.as_str(), '$', "`$")
}

/// Text escaped for interpolation into an OS automation script: first
/// every quote gains a backslash, then every backslash is doubled.
pub open spec fn spec_escape_applescript(s: Seq<char>) -> Seq<char> {
    replace_char(replace_char(s, '"', "\\\""@), '\\', "\\\\"@)
}

/// Escape text for the scripted macOS notification backend.
pub fn escape_applescript_string(s: &str) -> (r: String)
    ensures
        r@ == spec_escape_applescript(s@),
{
    let pass1 = replace_char_text(s, '"', "\\\"");
    replace_char_text(pass1.as_str(), '\\', "\\\\")
}

/// The script that shows a toast notification; title and message are
/// escaped before interpolation.
pub fn toast_script(title: &str, message: &str) -> (r: String)
    ensures
        r@ == "[Windows.UI.Notifications.ToastNotificationManager, Windows.UI.Notifications, ContentType=WindowsRuntime] | Out-Null; $template = \"<toast><visual><binding template='ToastGeneric'><text>"@
            + spec_escape_powershell(title@) + "</text><text>"@ + spec_escape_powershell(message@)
            + "</text></binding></visual></toast>\"; $xml = New-Object Windows.Data.Xml.Dom.XmlDocument; $xml.LoadXml($template); $toast = [Windows.UI.Notifications.ToastNotification]::new($xml); [Windows.UI.Notifications.ToastNotificationManager]::CreateToastNotifier('PowerShell').Show($toast)"@,
{
    let mut r = String::from_str(
        "[Windows.UI.Notifications.ToastNotificationManager, Windows.UI.Notifications, ContentType=WindowsRuntime] | Out-Null; $template = \"<toast><visual><binding template='ToastGeneric'><text>",
    );
    let ttl = escape_powershell_string(title);
    r.append(ttl.as_str());
    r.append("</text><text>");
    let msg = escape_powershell_string(message);
    r.append(msg.as_str());
    r.append(
        "</text></binding></visual></toast>\"; $xml = New-Object Windows.Data.Xml.Dom.XmlDocument; $xml.LoadXml($template); $toast = [Windows.UI.Notifications.ToastNotification]::new($xml); [Windows.UI.Notifications.ToastNotificationManager]::CreateToastNotifier('PowerShell').Show($toast)",
    );
    r
}

/// The script that shows a balloon tip; title and message are escaped
/// before interpolation.
pub fn balloon_script(title: &str, message: &str) -> (r: String)
    ensures
        r@ == "[System.Reflection.Assembly]::LoadWithPartialName('System.Windows.Forms') | Out-Null; $n = New-Object System.Windows.Forms.NotifyIcon; $n.Icon = [System.Drawing.SystemIcons]::Information; $n.BalloonTipTitle = '"@
            + spec_escape_powershell(title@) + "'; $n.BalloonTipText = '"@
            + spec_escape_powershell(message@)
            + "'; $n.Visible = $true; $n.ShowBalloonTip(5000)"@,
{
    let mut r = String::from_str(
        "[System.Reflection.Assembly]::LoadWithPartialName('System.Windows.Forms') | Out-Null; $n = New-Object System.Windows.Forms.NotifyIcon; $n.Icon = [System.Drawing.SystemIcons]::Information; $n.BalloonTipTitle = '",
    );
    let ttl = escape_powershell_string(title);
    r.append(ttl.as_str());
    r.append("'; $n.BalloonTipText = '");
    let msg = escape_powershell_string(message);
    r.append(msg.as_str());
    r.append("'; $n.Visible = $true; $n.ShowBalloonTip(5000)");
    r
}

/// The script that shows a blocking message box, the Windows last
/// resort; message and title are escaped before interpolation.
pub fn message_box_script(title: &str, message: &str) -> (r: String)
    ensures
        r@ == "Add-Type -AssemblyName PresentationFramework; [System.Windows.MessageBox]::Show('"@
            + spec_escape_powershell(message@) + "', '"@ + spec_escape_powershell(title@)
            + "')"@,
{
    let mut r = String::from_str(
        "Add-Type -AssemblyName PresentationFramework; [System.Windows.MessageBox]::Show('",
    );
    let msg = escape_powershell_string(message);
    r.append(msg.as_str());
    r.append("', '");
    let ttl = escape_powershell_string(title);
    r.append(ttl.as_str());
    r.append("')");
    r
}

/// The automation command that displays a notification on macOS.
pub fn applescript_command(title: &str, message: &str) -> (r: String)
    ensures
        r@ == "display notification \""@ + spec_escape_applescript(message@)
            + "\" with title \""@ + spec_escape_applescript(title@) + "\""@,
{
    let mut r = String::from_str("display notification \"");
    let msg = escape_applescript_string(message);
    r.append(msg.as_str());
    r.append("\" with title \"");
    let ttl = escape_applescript_string(title);
    r.append(ttl.as_str());
    r.append("\"");
    r
}

/// The text handed to the `zenity` backend.
pub fn zenity_text(title: &str, message: &str) -> (r: String)
    ensures
        r@ == title@ + ": "@ + message@,
{
    let mut r = String::from_str(title);
    r.append(": ");
    r.append(message);
    r
}

/// The text handed to the `xmessage` backend.
pub fn xmessage_text(title: &str, message: &str) -> (r: String)
    ensures
        r@ == title@ + "\n\n"@ + message@,
{
    let mut r = String::from_str(title);
    r.append("\n\n");
    r.append(message);
    r
}

} // verus!
