//! Quick actions: user-defined actions that the phone can trigger.

use vstd::prelude::*;
use vstd::string::StringExecFns;
use crate::text::{chars_of, decimal, extend_chars, push_decimal, string_from_chars, trim, trim_chars};
use crate::action_icon::{builtin_icon_ids, first_icon, IconCatalog};

verus! {

#[derive(Debug, Clone, Copy, PartialEq, Eq)]
pub enum SystemOperation {
    LockScreen,
    Sleep,
    DisplaySleep,
    Shutdown,
    Restart,
    ScreenshotFull,
    ScreenshotRegion,
}

#[derive(Debug, Clone, Copy, PartialEq, Eq)]
pub enum MediaOperation {
    TogglePlayPause,
    Play,
    Pause,
    Next,
    Previous,
    SeekForward,
    SeekBackward,
}

/// What a quick action does.
#[derive(Debug, Clone, PartialEq)]
pub enum ActionType {
    LaunchApp { app_name: String, app_path: Option<String> },
    OpenPath { path: String },
    OpenUrl { url: String },
    ShellCommand { command: String, working_dir: Option<String> },
    Hotkey { modifiers: Vec<String>, key: String },
    AppleScript { script: String },
    System { operation: SystemOperation },
    Media { operation: MediaOperation },
    SetSystemVolume { volume: u8 },
    SetSystemMuted { muted: bool },
    SetMicrophone { active: bool },
    /// Toggle mode: the first tap starts a long-running process, the second
    /// stops it (with `stop_command`, or by ending the process when there is none).
    ToggleShellCommand { start_command: String, stop_command: Option<String>, working_dir: Option<String> },
}

/// A user-defined quick action that can be triggered from the phone.
#[derive(Debug, Clone, PartialEq)]
pub struct QuickAction {
    pub id: String,
    /// Optimistic version, assigned by the catalog.
    pub revision: u64,
    pub name: String,
    pub icon_id: String,
    /// Sanitized SVG markup rendered by the desktop and phone clients.
    pub icon_svg: String,
    pub color: String,
    pub group: String,
    pub sort_order: u32,
    pub source_preset_id: Option<String>,
    pub confirm_before_run: bool,
    /// Local desktop trigger, independent of a hotkey action's output keys.
    pub global_shortcut: Option<String>,
    pub action_type: ActionType,
}

pub open spec fn is_lower_hex(c: char) -> bool {
    ('0' <= c && c <= '9') || ('a' <= c && c <= 'f')
}

/// The hyphenated lower-case text of a random (version 4, RFC 4122 variant) UUID.
pub open spec fn is_uuid_v4_text(s: Seq<char>) -> bool {
    &&& s.len() == 36
    &&& forall|i: int|
        0 <= i < 36 ==> if i == 8 || i == 13 || i == 18 || i == 23 {
            #[trigger] s[i] == '-'
        } else {
            is_lower_hex(s[i])
        }
    &&& s[14] == '4'
    &&& (s[19] == '8' || s[19] == '9' || s[19] == 'a' || s[19] == 'b')
}

/// `uuid::Uuid::new_v4().to_string()`: a fresh random UUID. Claimed: the
/// text has the hyphenated lower-case layout with version 4 and the RFC 4122
/// variant, as `Uuid::new_v4` masks those bits and `Display` writes
/// `LowerHex` hyphenated; which UUID comes back is left open.
#[verifier::external_body]
pub(crate) fn new_uuid_v4() -> (s: String)
    ensures
        is_uuid_v4_text(s@),
{
    uuid::Uuid::new_v4().to_string()
}

pub open spec fn action_label(a: ActionType) -> Seq<char> {
    match a {
        ActionType::LaunchApp { .. } => "启动应用"@,
        ActionType::OpenPath { .. } => "打开路径"@,
        ActionType::OpenUrl { .. } => "打开 URL"@,
        ActionType::ShellCommand { .. } => "Shell 命令"@,
        ActionType::Hotkey { .. } => "快捷键"@,
        ActionType::AppleScript { .. } => "AppleScript"@,
        ActionType::System { operation } => match operation {
            SystemOperation::LockScreen => "锁定电脑"@,
            SystemOperation::Sleep => "电脑睡眠"@,
            SystemOperation::DisplaySleep => "关闭显示器"@,
            SystemOperation::Shutdown => "关机"@,
            SystemOperation::Restart => "重新启动"@,
            SystemOperation::ScreenshotFull => "全屏截图"@,
            SystemOperation::ScreenshotRegion => "区域截图"@,
        },
        ActionType::Media { .. } => "媒体控制"@,
        ActionType::SetSystemVolume { .. } => "设置音量"@,
        ActionType::SetSystemMuted { muted } => if muted {
            "系统静音"@
        } else {
            "取消静音"@
        },
        ActionType::SetMicrophone { active } => if active {
            "开启麦克风"@
        } else {
            "麦克风静音"@
        },
        ActionType::ToggleShellCommand { .. } => "开关命令"@,
    }
}

impl QuickAction {
    /// A new action with a fresh random id, the default icon (`zap`, with
    /// its built-in markup from `icons`) and the default color.
    pub fn new(name: String, group: String, action_type: ActionType, icons: &IconCatalog) -> (a: Self)
        ensures
            is_uuid_v4_text(a.id@),
            a.revision == 0,
            a.name == name,
            a.group == group,
            a.icon_id@ == "zap"@,
            first_icon(builtin_icon_ids(), icons.markup(), "zap"@) == Some(a.icon_svg@),
            a.color@ == "#6366F1"@,
            a.sort_order == 0,
            a.source_preset_id is None,
            !a.confirm_before_run,
            a.global_shortcut is None,
            a.action_type == action_type,
    {
        QuickAction {
            id: new_uuid_v4(),
            revision: 0,
            name,
            icon_id: String::from_str("zap"),
            icon_svg: icons.zap(),
            color: String::from_str("#6366F1"),
            group,
            sort_order: 0,
            source_preset_id: None,
            confirm_before_run: false,
            global_shortcut: None,
            action_type,
        }
    }

    /// Whether the action starts and stops a long-running command.
    pub fn is_toggle(&self) -> (b: bool)
        ensures
            b == (self.action_type is ToggleShellCommand),
    {
        match &self.action_type {
            ActionType::ToggleShellCommand { .. } => true,
            _ => false,
        }
    }

    /// Human-readable name of what the action does.
    pub fn action_type_label(&self) -> (s: &'static str)
        ensures
            s@ == action_label(self.action_type),
    {
        match &self.action_type {
            ActionType::LaunchApp { .. } => "启动应用",
            ActionType::OpenPath { .. } => "打开路径",
            ActionType::OpenUrl { .. } => "打开 URL",
            ActionType::ShellCommand { .. } => "Shell 命令",
            ActionType::Hotkey { .. } => "快捷键",
            ActionType::AppleScript { .. } => "AppleScript",
            ActionType::System { operation } => match operation {
                SystemOperation::LockScreen => "锁定电脑",
                SystemOperation::Sleep => "电脑睡眠",
                SystemOperation::DisplaySleep => "关闭显示器",
                SystemOperation::Shutdown => "关机",
                SystemOperation::Restart => "重新启动",
                SystemOperation::ScreenshotFull => "全屏截图",
                SystemOperation::ScreenshotRegion => "区域截图",
            },
            ActionType::Media { .. } => "媒体控制",
            ActionType::SetSystemVolume { .. } => "设置音量",
            ActionType::SetSystemMuted { muted } => {
                if *muted {
                    "系统静音"
                } else {
                    "取消静音"
                }
            },
            ActionType::SetMicrophone { active } => {
                if *active {
                    "开启麦克风"
                } else {
                    "麦克风静音"
                }
            },
            ActionType::ToggleShellCommand { .. } => "开关命令",
        }
    }

    /// Whether the user must confirm before the action runs: when asked to,
    /// and always for shutting down or restarting.
    pub fn requires_confirmation(&self) -> (b: bool)
        ensures
            b == (self.confirm_before_run || self.action_type == ActionType::System {
                operation: SystemOperation::Shutdown,
            } || self.action_type == ActionType::System { operation: SystemOperation::Restart }),
    {
        self.confirm_before_run || match &self.action_type {
            ActionType::System { operation: SystemOperation::Shutdown } => true,
            ActionType::System { operation: SystemOperation::Restart } => true,
            _ => false,
        }
    }
}

/// A command to the media player.
#[derive(Debug, Clone, Copy, PartialEq, Eq)]
pub enum PlaybackAction {
    Play,
    Pause,
    Next,
    Previous,
    SeekForward,
    SeekBackward,
}

/// The command for a media action: play or pause flips with `is_playing`,
/// which is asked only for that action.
pub fn playback_action(operation: MediaOperation, is_playing: bool) -> (a: PlaybackAction)
    ensures
        a == match operation {
            MediaOperation::TogglePlayPause => if is_playing { PlaybackAction::Pause } else { PlaybackAction::Play },
            MediaOperation::Play => PlaybackAction::Play,
            MediaOperation::Pause => PlaybackAction::Pause,
            MediaOperation::Next => PlaybackAction::Next,
            MediaOperation::Previous => PlaybackAction::Previous,
            MediaOperation::SeekForward => PlaybackAction::SeekForward,
            MediaOperation::SeekBackward => PlaybackAction::SeekBackward,
        },
{
    match operation {
        MediaOperation::TogglePlayPause => if is_playing { PlaybackAction::Pause } else { PlaybackAction::Play },
        MediaOperation::Play => PlaybackAction::Play,
        MediaOperation::Pause => PlaybackAction::Pause,
        MediaOperation::Next => PlaybackAction::Next,
        MediaOperation::Previous => PlaybackAction::Previous,
        MediaOperation::SeekForward => PlaybackAction::SeekForward,
        MediaOperation::SeekBackward => PlaybackAction::SeekBackward,
    }
}

/// The volume that is set for a requested `volume`, at most 100, and the
/// message that reports it.
pub fn system_volume(volume: u8) -> (r: (u8, String))
    ensures
        r.0 == if volume < 100 { volume } else { 100u8 },
        r.1@ == "系统音量已设置为 "@ + decimal(r.0 as nat) + "%"@,
{
    let v: u8 = if volume < 100 { volume } else { 100 };
    let mut t = chars_of("系统音量已设置为 ");
    push_decimal(&mut t, v as u64);
    extend_chars(&mut t, &chars_of("%"));
    assert(t@ =~= "系统音量已设置为 "@ + decimal(v as nat) + "%"@);
    (v, string_from_chars(&t))
}

/// The message that reports muting or unmuting the system.
pub fn muted_message(muted: bool) -> (s: String)
    ensures
        s@ == if muted { "系统已静音"@ } else { "系统已取消静音"@ },
{
    if muted {
        "系统已静音".to_string()
    } else {
        "系统已取消静音".to_string()
    }
}

/// The message that reports turning the microphone on or off.
pub fn microphone_message(active: bool) -> (s: String)
    ensures
        s@ == if active { "麦克风已开启"@ } else { "麦克风已静音"@ },
{
    if active {
        "麦克风已开启".to_string()
    } else {
        "麦克风已静音".to_string()
    }
}

/// The name under which an application launch is reported: the trimmed name
/// the action gives; else the file name of its path; else `application`.
pub fn launch_display_name(app_name: &str, path_file_name: Option<String>) -> (s: String)
    ensures
        s@ == if trim(app_name@).len() > 0 {
            trim(app_name@)
        } else {
            match path_file_name {
                Some(n) => n@,
                None => "application"@,
            }
        },
{
    let name = trim_chars(&chars_of(app_name));
    if name.len() > 0 {
        string_from_chars(&name)
    } else {
        match path_file_name {
            Some(n) => n,
            None => "application".to_string(),
        }
    }
}

} // verus!
