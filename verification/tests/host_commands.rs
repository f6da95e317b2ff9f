use arcrelay_desktop::host_commands::{
    launch_outcome, open_outcome, open_path_command, open_url_command, power_command, power_outcome,
    shell_command, CommandLine, HostOs,
};
use arcrelay_desktop::quick_action::SystemOperation;

fn parts(c: &CommandLine) -> (String, Vec<String>) {
    (c.program.clone(), c.args.clone())
}

fn line(program: &str, args: &[&str]) -> (String, Vec<String>) {
    (program.to_string(), args.iter().map(|a| a.to_string()).collect())
}

#[test]
fn power_operations_use_each_systems_tools() {
    let c = power_command(HostOs::Other, SystemOperation::LockScreen).unwrap();
    assert_eq!(parts(&c), line("loginctl", &["lock-session"]));
    let c = power_command(HostOs::Other, SystemOperation::DisplaySleep).unwrap();
    assert_eq!(parts(&c), line("xset", &["dpms", "force", "off"]));
    let c = power_command(HostOs::MacOs, SystemOperation::Sleep).unwrap();
    assert_eq!(parts(&c), line("pmset", &["sleepnow"]));
    let c = power_command(HostOs::MacOs, SystemOperation::Restart).unwrap();
    assert_eq!(parts(&c), line("osascript", &["-e", "tell application \"System Events\" to restart"]));
    let c = power_command(HostOs::Windows, SystemOperation::Shutdown).unwrap();
    assert_eq!(parts(&c), line("shutdown.exe", &["/s", "/t", "0"]));
    let c = power_command(HostOs::Windows, SystemOperation::DisplaySleep).unwrap();
    assert_eq!(c.program, "powershell.exe");
    assert_eq!(c.args.len(), 4);
    assert!(c.args[3].contains("SendMessage([IntPtr]0xffff,0x0112,[IntPtr]0xF170,[IntPtr]2)"));
}

#[test]
fn screenshots_are_not_power_operations() {
    for os in [HostOs::MacOs, HostOs::Windows, HostOs::Other] {
        assert_eq!(
            power_command(os, SystemOperation::ScreenshotFull).err(),
            Some("Unsupported system operation".to_string())
        );
        assert!(power_command(os, SystemOperation::ScreenshotRegion).is_err());
    }
}

#[test]
fn paths_urls_and_shell_lines_are_passed_as_single_arguments() {
    assert_eq!(parts(&open_path_command(HostOs::Windows, "C:\\A B")), line("explorer.exe", &["C:\\A B"]));
    assert_eq!(parts(&open_path_command(HostOs::Other, "/tmp/a b")), line("xdg-open", &["/tmp/a b"]));
    assert_eq!(
        parts(&open_url_command(HostOs::Windows, "https://a.example")),
        line("rundll32.exe", &["url.dll,FileProtocolHandler", "https://a.example"])
    );
    assert_eq!(parts(&open_url_command(HostOs::MacOs, "obsidian://x")), line("open", &["obsidian://x"]));
    assert_eq!(parts(&shell_command(HostOs::Other, "echo a && echo b")), line("sh", &["-c", "echo a && echo b"]));
    assert_eq!(parts(&shell_command(HostOs::Windows, "dir")), line("cmd", &["/C", "dir"]));
}

#[test]
fn command_results_are_reported() {
    assert_eq!(power_outcome(true, ""), Ok("系统操作已执行".to_string()));
    assert_eq!(power_outcome(false, "denied"), Err("system operation failed: denied".to_string()));
    assert_eq!(open_outcome(true, "/tmp", false, ""), Ok("已打开 /tmp".to_string()));
    assert_eq!(open_outcome(false, "x", true, "no handler"), Err("failed to open URL: no handler".to_string()));
    assert_eq!(open_outcome(false, "x", false, "missing"), Err("failed to open path: missing".to_string()));
    assert_eq!(launch_outcome(true, "Notes", ""), Ok("已启动 Notes".to_string()));
    assert_eq!(launch_outcome(false, "Notes", "boom"), Err("failed to launch Notes: boom".to_string()));
}
