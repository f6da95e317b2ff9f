//! The system commands that quick actions run on each desktop system, and
//! how their results are reported.

use vstd::prelude::*;
use crate::quick_action::SystemOperation;
use crate::text::{chars_of, extend_chars, string_from_chars};


verus! {

/// The desktop system an action runs on.
#[derive(Debug, Clone, Copy, PartialEq, Eq, Structural)]
pub enum HostOs {
    MacOs,
    Windows,
    /// Linux and the other Unix desktops.
    Other,
}

/// A program and its arguments.
#[derive(Debug)]
pub struct CommandLine {
    pub program: String,
    pub args: Vec<String>,
}

/// The PowerShell script that turns the displays off on Windows.
pub open spec fn windows_display_sleep_script() -> Seq<char> {
    "$sig='[DllImport(\"user32.dll\")] public static extern IntPtr SendMessage(IntPtr hWnd,uint Msg,IntPtr wParam,IntPtr lParam);';$native=Add-Type -MemberDefinition $sig -Name Native -Namespace ArcRelay -PassThru;$native::SendMessage([IntPtr]0xffff,0x0112,[IntPtr]0xF170,[IntPtr]2) | Out-Null"@
}

/// The program and arguments that perform a power operation on `os`; the
/// screenshot operations are not power operations.
pub open spec fn power_command_spec(os: HostOs, op: SystemOperation) -> Option<(Seq<char>, Seq<Seq<char>>)> {
    match os {
        HostOs::MacOs => match op {
            SystemOperation::LockScreen => Some((
                "/System/Library/CoreServices/Menu Extras/User.menu/Contents/Resources/CGSession"@,
                seq!["-suspend"@],
            )),
            SystemOperation::Sleep => Some(("pmset"@, seq!["sleepnow"@])),
            SystemOperation::DisplaySleep => Some(("pmset"@, seq!["displaysleepnow"@])),
            SystemOperation::Shutdown => Some((
                "osascript"@,
                seq!["-e"@, "tell application \"System Events\" to shut down"@],
            )),
            SystemOperation::Restart => Some((
                "osascript"@,
                seq!["-e"@, "tell application \"System Events\" to restart"@],
            )),
            _ => None,
        },
        HostOs::Windows => match op {
            SystemOperation::LockScreen => Some(("rundll32.exe"@, seq!["user32.dll,LockWorkStation"@])),
            SystemOperation::Sleep => Some(("rundll32.exe"@, seq!["powrprof.dll,SetSuspendState"@, "0,1,0"@])),
            SystemOperation::DisplaySleep => Some((
                "powershell.exe"@,
                seq!["-NoProfile"@, "-NonInteractive"@, "-Command"@, windows_display_sleep_script()],
            )),
            SystemOperation::Shutdown => Some(("shutdown.exe"@, seq!["/s"@, "/t"@, "0"@])),
            SystemOperation::Restart => Some(("shutdown.exe"@, seq!["/r"@, "/t"@, "0"@])),
            _ => None,
        },
        HostOs::Other => match op {
            SystemOperation::LockScreen => Some(("loginctl"@, seq!["lock-session"@])),
            SystemOperation::Sleep => Some(("systemctl"@, seq!["suspend"@])),
            SystemOperation::DisplaySleep => Some(("xset"@, seq!["dpms"@, "force"@, "off"@])),
            SystemOperation::Shutdown => Some(("systemctl"@, seq!["poweroff"@])),
            SystemOperation::Restart => Some(("systemctl"@, seq!["reboot"@])),
            _ => None,
        },
    }
}

/// Whether `c` runs `program` with `args`.
pub open spec fn runs(c: CommandLine, program: Seq<char>, args: Seq<Seq<char>>) -> bool {
    &&& c.program@ == program
    &&& c.args@.len() == args.len()
    &&& forall|i: int| 0 <= i < args.len() ==> #[trigger] c.args@[i]@ == args[i]
}

fn command(program: &str, args: Vec<&str>) -> (c: CommandLine)
    ensures
        c.program@ == program@,
        c.args@.len() == args@.len(),
        forall|i: int| 0 <= i < args@.len() ==> #[trigger] c.args@[i]@ == args@[i]@,
{
    let mut v: Vec<String> = Vec::new();
    let mut i: usize = 0;
    while i < args.len()
        invariant
            i <= args@.len(),
            v@.len() == i,
            forall|j: int| 0 <= j < i ==> #[trigger] v@[j]@ == args@[j]@,
        decreases args@.len() - i,
    {
        v.push(args[i].to_string());
        i = i + 1;
    }
    CommandLine { program: program.to_string(), args: v }
}

/// The command that performs the power operation `op` on `os`; the
/// screenshot operations are refused.
pub fn power_command(os: HostOs, op: SystemOperation) -> (r: Result<CommandLine, String>)
    ensures
        match power_command_spec(os, op) {
            Some((program, args)) => r is Ok && runs(r->Ok_0, program, args),
            None => r is Err && r->Err_0@ == "Unsupported system operation"@,
        },
{
    let unsupported = Err("Unsupported system operation".to_string());
    match os {
        HostOs::MacOs => match op {
            SystemOperation::LockScreen => Ok(command(
                "/System/Library/CoreServices/Menu Extras/User.menu/Contents/Resources/CGSession",
                vec!["-suspend"],
            )),
            SystemOperation::Sleep => Ok(command("pmset", vec!["sleepnow"])),
            SystemOperation::DisplaySleep => Ok(command("pmset", vec!["displaysleepnow"])),
            SystemOperation::Shutdown => Ok(command(
                "osascript",
                vec!["-e", "tell application \"System Events\" to shut down"],
            )),
            SystemOperation::Restart => Ok(command(
                "osascript",
                vec!["-e", "tell application \"System Events\" to restart"],
            )),
            _ => unsupported,
        },
        HostOs::Windows => match op {
            SystemOperation::LockScreen => Ok(command("rundll32.exe", vec!["user32.dll,LockWorkStation"])),
            SystemOperation::Sleep => Ok(command("rundll32.exe", vec!["powrprof.dll,SetSuspendState", "0,1,0"])),
            SystemOperation::DisplaySleep => Ok(command(
                "powershell.exe",
                vec![
                    "-NoProfile",
                    "-NonInteractive",
                    "-Command",
                    "$sig='[DllImport(\"user32.dll\")] public static extern IntPtr SendMessage(IntPtr hWnd,uint Msg,IntPtr wParam,IntPtr lParam);';$native=Add-Type -MemberDefinition $sig -Name Native -Namespace ArcRelay -PassThru;$native::SendMessage([IntPtr]0xffff,0x0112,[IntPtr]0xF170,[IntPtr]2) | Out-Null",
                ],
            )),
            SystemOperation::Shutdown => Ok(command("shutdown.exe", vec!["/s", "/t", "0"])),
            SystemOperation::Restart => Ok(command("shutdown.exe", vec!["/r", "/t", "0"])),
            _ => unsupported,
        },
        HostOs::Other => match op {
            SystemOperation::LockScreen => Ok(command("loginctl", vec!["lock-session"])),
            SystemOperation::Sleep => Ok(command("systemctl", vec!["suspend"])),
            SystemOperation::DisplaySleep => Ok(command("xset", vec!["dpms", "force", "off"])),
            SystemOperation::Shutdown => Ok(command("systemctl", vec!["poweroff"])),
            SystemOperation::Restart => Ok(command("systemctl", vec!["reboot"])),
            _ => unsupported,
        },
    }
}


/// The command that opens a file or folder `path` with the program the
/// system associates with it.
pub fn open_path_command(os: HostOs, path: &str) -> (c: CommandLine)
    ensures
        runs(c, match os {
            HostOs::MacOs => "open"@,
            HostOs::Windows => "explorer.exe"@,
            HostOs::Other => "xdg-open"@,
        }, seq![path@]),
{
    match os {
        HostOs::MacOs => command("open", vec![path]),
        HostOs::Windows => command("explorer.exe", vec![path]),
        HostOs::Other => command("xdg-open", vec![path]),
    }
}

/// The command that opens `url` in the default handler of its scheme.
pub fn open_url_command(os: HostOs, url: &str) -> (c: CommandLine)
    ensures
        match os {
            HostOs::MacOs => runs(c, "open"@, seq![url@]),
            HostOs::Windows => runs(c, "rundll32.exe"@, seq!["url.dll,FileProtocolHandler"@, url@]),
            HostOs::Other => runs(c, "xdg-open"@, seq![url@]),
        },
{
    match os {
        HostOs::MacOs => command("open", vec![url]),
        HostOs::Windows => command("rundll32.exe", vec!["url.dll,FileProtocolHandler", url]),
        HostOs::Other => command("xdg-open", vec![url]),
    }
}

/// The command that runs the shell command line `line`.
pub fn shell_command(os: HostOs, line: &str) -> (c: CommandLine)
    ensures
        match os {
            HostOs::Windows => runs(c, "cmd"@, seq!["/C"@, line@]),
            _ => runs(c, "sh"@, seq!["-c"@, line@]),
        },
{
    match os {
        HostOs::Windows => command("cmd", vec!["/C", line]),
        _ => command("sh", vec!["-c", line]),
    }
}

fn joined(head: &str, tail: &str) -> (s: String)
    ensures
        s@ == head@ + tail@,
{
    let mut v = chars_of(head);
    extend_chars(&mut v, &chars_of(tail));
    string_from_chars(&v)
}

/// How a power operation is reported: done when the command succeeded,
/// else with what it wrote to its error stream.
pub fn power_outcome(success: bool, stderr: &str) -> (r: Result<String, String>)
    ensures
        success ==> (r is Ok && r->Ok_0@ == "系统操作已执行"@),
        !success ==> (r is Err && r->Err_0@ == "system operation failed: "@ + stderr@),
{
    if success {
        Ok("系统操作已执行".to_string())
    } else {
        Err(joined("system operation failed: ", stderr))
    }
}

/// How opening `target` (a URL when `is_url`, else a path) is reported.
pub fn open_outcome(success: bool, target: &str, is_url: bool, stderr: &str) -> (r: Result<String, String>)
    ensures
        success ==> (r is Ok && r->Ok_0@ == "已打开 "@ + target@),
        !success ==> (r is Err && r->Err_0@ == (if is_url { "failed to open URL: "@ } else { "failed to open path: "@ })
            + stderr@),
{
    if success {
        Ok(joined("已打开 ", target))
    } else if is_url {
        Err(joined("failed to open URL: ", stderr))
    } else {
        Err(joined("failed to open path: ", stderr))
    }
}

/// How launching the application `name` is reported.
pub fn launch_outcome(success: bool, name: &str, stderr: &str) -> (r: Result<String, String>)
    ensures
        success ==> (r is Ok && r->Ok_0@ == "已启动 "@ + name@),
        !success ==> (r is Err && r->Err_0@ == "failed to launch "@ + name@ + ": "@ + stderr@),
{
    if success {
        Ok(joined("已启动 ", name))
    } else {
        let mut v = chars_of("failed to launch ");
        extend_chars(&mut v, &chars_of(name));
        extend_chars(&mut v, &chars_of(": "));
        extend_chars(&mut v, &chars_of(stderr));
        assert(v@ =~= "failed to launch "@ + name@ + ": "@ + stderr@);
        Err(string_from_chars(&v))
    }
}

} // verus!
