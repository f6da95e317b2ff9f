//! Desktop notifications: which categories the user wants, how a notification
//! is delivered (in-app while the main window is active, as a system
//! notification otherwise, with private titles when previews are off), and
//! which host notifications are new.

use vstd::prelude::*;
use crate::text::{contains_string, strings_view};
use vstd::string::StringExecFns;

verus! {

#[derive(Debug, Clone, Copy, PartialEq, Eq)]
pub enum DesktopNotificationCategory {
    PairingRequest,
    TransferRequest,
    TransferCompleted,
    TransferFailed,
    RemoteFileCompleted,
    RemoteFileFailed,
    PrintCompleted,
    PrintFailed,
    DeviceConnection,
    WorkflowActionRequired,
    WorkflowCompleted,
    WorkflowFailed,
    InputPermissionRequired,
    AgentNotification,
    UpdateAvailable,
}

/// The user's notification settings.
#[derive(Debug, Clone, Copy, PartialEq, Eq)]
pub struct NotificationPreferences {
    pub enabled: bool,
    pub only_when_inactive: bool,
    pub show_previews: bool,
    pub pairing_requests: bool,
    pub transfer_requests: bool,
    pub transfer_completed: bool,
    pub transfer_failed: bool,
    pub remote_file_completed: bool,
    pub remote_file_failed: bool,
    pub print_completed: bool,
    pub print_failed: bool,
    pub device_connections: bool,
    pub workflow_action_required: bool,
    pub workflow_completed: bool,
    pub workflow_failed: bool,
    pub input_permission_required: bool,
    pub agent_notifications: bool,
    pub update_available: bool,
}

/// The language that user-facing text is written in.
#[derive(Debug, Clone, Copy, PartialEq, Eq)]
pub enum LanguagePreference {
    ZhCn,
    EnUs,
}

pub open spec fn localized_spec(language: LanguagePreference, zh_cn: Seq<char>, en_us: Seq<char>) -> Seq<char> {
    match language {
        LanguagePreference::ZhCn => zh_cn,
        LanguagePreference::EnUs => en_us,
    }
}

/// The text of `language` among the two translations.
pub fn localized(language: LanguagePreference, zh_cn: &str, en_us: &str) -> (s: String)
    ensures
        s@ == localized_spec(language, zh_cn@, en_us@),
{
    match language {
        LanguagePreference::ZhCn => String::from_str(zh_cn),
        LanguagePreference::EnUs => String::from_str(en_us),
    }
}

pub open spec fn category_switch(category: DesktopNotificationCategory, s: NotificationPreferences) -> bool {
    match category {
        DesktopNotificationCategory::PairingRequest => s.pairing_requests,
        DesktopNotificationCategory::TransferRequest => s.transfer_requests,
        DesktopNotificationCategory::TransferCompleted => s.transfer_completed,
        DesktopNotificationCategory::TransferFailed => s.transfer_failed,
        DesktopNotificationCategory::RemoteFileCompleted => s.remote_file_completed,
        DesktopNotificationCategory::RemoteFileFailed => s.remote_file_failed,
        DesktopNotificationCategory::PrintCompleted => s.print_completed,
        DesktopNotificationCategory::PrintFailed => s.print_failed,
        DesktopNotificationCategory::DeviceConnection => s.device_connections,
        DesktopNotificationCategory::WorkflowActionRequired => s.workflow_action_required,
        DesktopNotificationCategory::WorkflowCompleted => s.workflow_completed,
        DesktopNotificationCategory::WorkflowFailed => s.workflow_failed,
        DesktopNotificationCategory::InputPermissionRequired => s.input_permission_required,
        DesktopNotificationCategory::AgentNotification => s.agent_notifications,
        DesktopNotificationCategory::UpdateAvailable => s.update_available,
    }
}

/// Each category has its own switch and answers to no other: setting the
/// switch named for a category turns that category on or off, and leaves
/// every other category as it was, from any settings `s`.
pub proof fn each_category_has_its_own_switch(s: NotificationPreferences, c: DesktopNotificationCategory, on: bool)
    ensures
        category_switch(DesktopNotificationCategory::PairingRequest, NotificationPreferences { pairing_requests: on, ..s }) == on,
        c != DesktopNotificationCategory::PairingRequest ==> category_switch(c, NotificationPreferences { pairing_requests: on, ..s })
            == category_switch(c, s),
        category_switch(DesktopNotificationCategory::TransferRequest, NotificationPreferences { transfer_requests: on, ..s }) == on,
        c != DesktopNotificationCategory::TransferRequest ==> category_switch(c, NotificationPreferences { transfer_requests: on, ..s })
            == category_switch(c, s),
        category_switch(DesktopNotificationCategory::TransferCompleted, NotificationPreferences { transfer_completed: on, ..s }) == on,
        c != DesktopNotificationCategory::TransferCompleted ==> category_switch(c, NotificationPreferences { transfer_completed: on, ..s })
            == category_switch(c, s),
        category_switch(DesktopNotificationCategory::TransferFailed, NotificationPreferences { transfer_failed: on, ..s }) == on,
        c != DesktopNotificationCategory::TransferFailed ==> category_switch(c, NotificationPreferences { transfer_failed: on, ..s })
            == category_switch(c, s),
        category_switch(DesktopNotificationCategory::RemoteFileCompleted, NotificationPreferences { remote_file_completed: on, ..s }) == on,
        c != DesktopNotificationCategory::RemoteFileCompleted ==> category_switch(c, NotificationPreferences { remote_file_completed: on, ..s })
            == category_switch(c, s),
        category_switch(DesktopNotificationCategory::RemoteFileFailed, NotificationPreferences { remote_file_failed: on, ..s }) == on,
        c != DesktopNotificationCategory::RemoteFileFailed ==> category_switch(c, NotificationPreferences { remote_file_failed: on, ..s })
            == category_switch(c, s),
        category_switch(DesktopNotificationCategory::PrintCompleted, NotificationPreferences { print_completed: on, ..s }) == on,
        c != DesktopNotificationCategory::PrintCompleted ==> category_switch(c, NotificationPreferences { print_completed: on, ..s })
            == category_switch(c, s),
        category_switch(DesktopNotificationCategory::PrintFailed, NotificationPreferences { print_failed: on, ..s }) == on,
        c != DesktopNotificationCategory::PrintFailed ==> category_switch(c, NotificationPreferences { print_failed: on, ..s })
            == category_switch(c, s),
        category_switch(DesktopNotificationCategory::DeviceConnection, NotificationPreferences { device_connections: on, ..s }) == on,
        c != DesktopNotificationCategory::DeviceConnection ==> category_switch(c, NotificationPreferences { device_connections: on, ..s })
            == category_switch(c, s),
        category_switch(DesktopNotificationCategory::WorkflowActionRequired, NotificationPreferences { workflow_action_required: on, ..s }) == on,
        c != DesktopNotificationCategory::WorkflowActionRequired ==> category_switch(c, NotificationPreferences { workflow_action_required: on, ..s })
            == category_switch(c, s),
        category_switch(DesktopNotificationCategory::WorkflowCompleted, NotificationPreferences { workflow_completed: on, ..s }) == on,
        c != DesktopNotificationCategory::WorkflowCompleted ==> category_switch(c, NotificationPreferences { workflow_completed: on, ..s })
            == category_switch(c, s),
        category_switch(DesktopNotificationCategory::WorkflowFailed, NotificationPreferences { workflow_failed: on, ..s }) == on,
        c != DesktopNotificationCategory::WorkflowFailed ==> category_switch(c, NotificationPreferences { workflow_failed: on, ..s })
            == category_switch(c, s),
        category_switch(DesktopNotificationCategory::InputPermissionRequired, NotificationPreferences { input_permission_required: on, ..s }) == on,
        c != DesktopNotificationCategory::InputPermissionRequired ==> category_switch(c, NotificationPreferences { input_permission_required: on, ..s })
            == category_switch(c, s),
        category_switch(DesktopNotificationCategory::AgentNotification, NotificationPreferences { agent_notifications: on, ..s }) == on,
        c != DesktopNotificationCategory::AgentNotification ==> category_switch(c, NotificationPreferences { agent_notifications: on, ..s })
            == category_switch(c, s),
        category_switch(DesktopNotificationCategory::UpdateAvailable, NotificationPreferences { update_available: on, ..s }) == on,
        c != DesktopNotificationCategory::UpdateAvailable ==> category_switch(c, NotificationPreferences { update_available: on, ..s })
            == category_switch(c, s),
{
}

/// A category's own switch does not depend on the main switch: turning
/// notifications off and on again leaves every category's choice as it was.
pub proof fn category_switches_outlast_the_main_switch(s: NotificationPreferences, c: DesktopNotificationCategory, on: bool)
    ensures
        category_switch(c, NotificationPreferences { enabled: on, ..s }) == category_switch(c, s),
{
}

/// Categories whose events need the user's attention even while the main
/// window is in front.
pub open spec fn needs_foreground(category: DesktopNotificationCategory) -> bool {
    match category {
        DesktopNotificationCategory::PairingRequest
        | DesktopNotificationCategory::TransferRequest
        | DesktopNotificationCategory::TransferFailed
        | DesktopNotificationCategory::RemoteFileFailed
        | DesktopNotificationCategory::PrintFailed
        | DesktopNotificationCategory::WorkflowActionRequired
        | DesktopNotificationCategory::WorkflowFailed
        | DesktopNotificationCategory::InputPermissionRequired
        | DesktopNotificationCategory::AgentNotification => true,
        _ => false,
    }
}

/// Categories that report a failure.
pub open spec fn is_failure(category: DesktopNotificationCategory) -> bool {
    match category {
        DesktopNotificationCategory::TransferFailed
        | DesktopNotificationCategory::RemoteFileFailed
        | DesktopNotificationCategory::PrintFailed
        | DesktopNotificationCategory::WorkflowFailed
        | DesktopNotificationCategory::InputPermissionRequired => true,
        _ => false,
    }
}

/// Chinese and English titles shown instead of the content when previews are off.
pub open spec fn private_titles(category: DesktopNotificationCategory) -> (Seq<char>, Seq<char>) {
    match category {
        DesktopNotificationCategory::PairingRequest => ("新的配对请求"@, "New pairing request"@),
        DesktopNotificationCategory::TransferRequest => ("文件传输等待确认"@, "File transfer needs approval"@),
        DesktopNotificationCategory::TransferCompleted => ("文件传输已完成"@, "File transfer completed"@),
        DesktopNotificationCategory::TransferFailed => ("文件传输失败"@, "File transfer failed"@),
        DesktopNotificationCategory::RemoteFileCompleted => ("远程文件操作已完成"@, "Remote file operation completed"@),
        DesktopNotificationCategory::RemoteFileFailed => ("远程文件操作失败"@, "Remote file operation failed"@),
        DesktopNotificationCategory::PrintCompleted => ("打印任务已完成"@, "Print job completed"@),
        DesktopNotificationCategory::PrintFailed => ("打印任务需要处理"@, "Print job needs attention"@),
        DesktopNotificationCategory::DeviceConnection => ("设备连接状态已变化"@, "Device connection changed"@),
        DesktopNotificationCategory::WorkflowActionRequired => ("工作流等待确认"@, "Workflow needs confirmation"@),
        DesktopNotificationCategory::WorkflowCompleted => ("工作流已完成"@, "Workflow completed"@),
        DesktopNotificationCategory::WorkflowFailed => ("工作流失败"@, "Workflow failed"@),
        DesktopNotificationCategory::InputPermissionRequired => ("远程输入需要系统权限"@, "Remote input needs permission"@),
        DesktopNotificationCategory::AgentNotification => ("新的 Agent 通知"@, "New Agent notification"@),
        DesktopNotificationCategory::UpdateAvailable => ("ArcRelay 可以更新"@, "ArcRelay update available"@),
    }
}

impl DesktopNotificationCategory {
    /// Whether notifications of this category are wanted: notifications are
    /// on and the category's own switch is on.
    pub fn enabled(self, settings: &NotificationPreferences) -> (b: bool)
        ensures
            b == (settings.enabled && category_switch(self, *settings)),
    {
        settings.enabled && match self {
            DesktopNotificationCategory::PairingRequest => settings.pairing_requests,
            DesktopNotificationCategory::TransferRequest => settings.transfer_requests,
            DesktopNotificationCategory::TransferCompleted => settings.transfer_completed,
            DesktopNotificationCategory::TransferFailed => settings.transfer_failed,
            DesktopNotificationCategory::RemoteFileCompleted => settings.remote_file_completed,
            DesktopNotificationCategory::RemoteFileFailed => settings.remote_file_failed,
            DesktopNotificationCategory::PrintCompleted => settings.print_completed,
            DesktopNotificationCategory::PrintFailed => settings.print_failed,
            DesktopNotificationCategory::DeviceConnection => settings.device_connections,
            DesktopNotificationCategory::WorkflowActionRequired => settings.workflow_action_required,
            DesktopNotificationCategory::WorkflowCompleted => settings.workflow_completed,
            DesktopNotificationCategory::WorkflowFailed => settings.workflow_failed,
            DesktopNotificationCategory::InputPermissionRequired => settings.input_permission_required,
            DesktopNotificationCategory::AgentNotification => settings.agent_notifications,
            DesktopNotificationCategory::UpdateAvailable => settings.update_available,
        }
    }

    /// Title shown instead of the notification's own when previews are off.
    pub fn private_title(self, language: LanguagePreference) -> (s: String)
        ensures
            s@ == localized_spec(language, private_titles(self).0, private_titles(self).1),
    {
        let (zh_cn, en_us) = match self {
            DesktopNotificationCategory::PairingRequest => ("新的配对请求", "New pairing request"),
            DesktopNotificationCategory::TransferRequest => ("文件传输等待确认", "File transfer needs approval"),
            DesktopNotificationCategory::TransferCompleted => ("文件传输已完成", "File transfer completed"),
            DesktopNotificationCategory::TransferFailed => ("文件传输失败", "File transfer failed"),
            DesktopNotificationCategory::RemoteFileCompleted => ("远程文件操作已完成", "Remote file operation completed"),
            DesktopNotificationCategory::RemoteFileFailed => ("远程文件操作失败", "Remote file operation failed"),
            DesktopNotificationCategory::PrintCompleted => ("打印任务已完成", "Print job completed"),
            DesktopNotificationCategory::PrintFailed => ("打印任务需要处理", "Print job needs attention"),
            DesktopNotificationCategory::DeviceConnection => ("设备连接状态已变化", "Device connection changed"),
            DesktopNotificationCategory::WorkflowActionRequired => ("工作流等待确认", "Workflow needs confirmation"),
            DesktopNotificationCategory::WorkflowCompleted => ("工作流已完成", "Workflow completed"),
            DesktopNotificationCategory::WorkflowFailed => ("工作流失败", "Workflow failed"),
            DesktopNotificationCategory::InputPermissionRequired => ("远程输入需要系统权限", "Remote input needs permission"),
            DesktopNotificationCategory::AgentNotification => ("新的 Agent 通知", "New Agent notification"),
            DesktopNotificationCategory::UpdateAvailable => ("ArcRelay 可以更新", "ArcRelay update available"),
        };
        localized(language, zh_cn, en_us)
    }

    /// Whether the category still gets in-app feedback while the main window
    /// is in front.
    pub fn requires_foreground_feedback(self) -> (b: bool)
        ensures
            b == needs_foreground(self),
    {
        match self {
            DesktopNotificationCategory::PairingRequest
            | DesktopNotificationCategory::TransferRequest
            | DesktopNotificationCategory::TransferFailed
            | DesktopNotificationCategory::RemoteFileFailed
            | DesktopNotificationCategory::PrintFailed
            | DesktopNotificationCategory::WorkflowActionRequired
            | DesktopNotificationCategory::WorkflowFailed
            | DesktopNotificationCategory::InputPermissionRequired
            | DesktopNotificationCategory::AgentNotification => true,
            _ => false,
        }
    }

    /// Whether the category reports a failure.
    pub fn is_error(self) -> (b: bool)
        ensures
            b == is_failure(self),
    {
        match self {
            DesktopNotificationCategory::TransferFailed
            | DesktopNotificationCategory::RemoteFileFailed
            | DesktopNotificationCategory::PrintFailed
            | DesktopNotificationCategory::WorkflowFailed
            | DesktopNotificationCategory::InputPermissionRequired => true,
            _ => false,
        }
    }
}

/// What a notification's action opens.
#[derive(Debug, Clone, PartialEq, Eq)]
pub enum DesktopNotificationAction {
    OpenTransferRequest(String),
}

/// A notification to deliver.
#[derive(Debug)]
pub struct DesktopNotification {
    pub category: DesktopNotificationCategory,
    pub title: String,
    pub body: String,
    pub action: Option<DesktopNotificationAction>,
    pub error: bool,
}

impl DesktopNotification {
    /// A notification without an action that is not marked as an error.
    pub fn new(category: DesktopNotificationCategory, title: String, body: String) -> (n: Self)
        ensures
            n == (DesktopNotification { category, title, body, action: None, error: false }),
    {
        DesktopNotification { category, title, body, action: None, error: false }
    }

    /// The same notification, whose action opens the transfer request `transfer_id`.
    pub fn open_transfer_request(self, transfer_id: String) -> (n: Self)
        ensures
            n == (DesktopNotification {
                action: Some(DesktopNotificationAction::OpenTransferRequest(transfer_id)),
                ..self
            }),
    {
        DesktopNotification {
            action: Some(DesktopNotificationAction::OpenTransferRequest(transfer_id)),
            ..self
        }
    }

    /// The same notification, marked as an error.
    pub fn error(self) -> (n: Self)
        ensures
            n == (DesktopNotification { error: true, ..self }),
    {
        DesktopNotification { error: true, ..self }
    }
}

/// How a notification was delivered.
#[derive(Debug, Clone, Copy, PartialEq, Eq)]
pub enum DesktopNotificationDelivery {
    Shown,
    Disabled,
    MainWindowActive,
}

/// Feedback shown inside the main window.
#[derive(Debug)]
pub struct InAppNotification {
    pub title: String,
    pub body: String,
    pub error: bool,
}

/// What to do with a notification.
#[derive(Debug)]
pub enum NotificationPlan {
    /// The category is switched off: nothing is shown.
    Disabled,
    /// The main window is in front: show `feedback` in it, if any.
    MainWindowActive { feedback: Option<InAppNotification> },
    /// Show a system notification; `action` carries the action and its button label.
    System { title: String, body: String, action: Option<(DesktopNotificationAction, String)> },
}

pub open spec fn generic_body() -> (Seq<char>, Seq<char>) {
    ("打开 ArcRelay 查看详情。"@, "Open ArcRelay to view details."@)
}

pub open spec fn action_label() -> (Seq<char>, Seq<char>) {
    ("查看请求"@, "View request"@)
}

/// The delivery decision for `n`.
pub open spec fn plan_matches(
    p: NotificationPlan,
    n: DesktopNotification,
    settings: NotificationPreferences,
    language: LanguagePreference,
    main_window_active: bool,
) -> bool {
    if !(settings.enabled && category_switch(n.category, settings)) {
        p is Disabled
    } else if settings.only_when_inactive && main_window_active {
        p matches NotificationPlan::MainWindowActive { feedback } && if needs_foreground(n.category) {
            feedback matches Some(f) && f.title == n.title && f.body == n.body && f.error == (n.error
                || is_failure(n.category))
        } else {
            feedback is None
        }
    } else {
        p matches NotificationPlan::System { title, body, action } && (if settings.show_previews {
            title == n.title && body == n.body
        } else {
            title@ == localized_spec(language, private_titles(n.category).0, private_titles(n.category).1)
                && body@ == localized_spec(language, generic_body().0, generic_body().1)
        }) && match n.action {
            None => action is None,
            Some(a) => action matches Some((b, label)) && b == a && label@ == localized_spec(
                language,
                action_label().0,
                action_label().1,
            ),
        }
    }
}

/// Decides how `notification` is delivered under `settings`.
pub fn plan_delivery(
    notification: DesktopNotification,
    settings: &NotificationPreferences,
    language: LanguagePreference,
    main_window_active: bool,
) -> (p: NotificationPlan)
    ensures
        plan_matches(p, notification, *settings, language, main_window_active),
{
    let category = notification.category;
    if !category.enabled(settings) {
        return NotificationPlan::Disabled;
    }
    if settings.only_when_inactive && main_window_active {
        let feedback = if category.requires_foreground_feedback() {
            let error = notification.error || category.is_error();
            Some(InAppNotification { title: notification.title, body: notification.body, error })
        } else {
            None
        };
        return NotificationPlan::MainWindowActive { feedback };
    }
    let (title, body) = if settings.show_previews {
        (notification.title, notification.body)
    } else {
        (
            category.private_title(language),
            localized(language, "打开 ArcRelay 查看详情。", "Open ArcRelay to view details."),
        )
    };
    let action = match notification.action {
        Some(a) => Some((a, localized(language, "查看请求", "View request"))),
        None => None,
    };
    NotificationPlan::System { title, body, action }
}

/// With previews off, a shown notification keeps its own text to itself:
/// two notifications that differ only in title and body are shown with the
/// same title and body, the category's private title and the generic body,
/// whatever their own title and body are.
pub proof fn private_notifications_hide_their_text(
    p1: NotificationPlan,
    p2: NotificationPlan,
    n1: DesktopNotification,
    n2: DesktopNotification,
    settings: NotificationPreferences,
    language: LanguagePreference,
    main_window_active: bool,
)
    requires
        plan_matches(p1, n1, settings, language, main_window_active),
        plan_matches(p2, n2, settings, language, main_window_active),
        n1.category == n2.category,
        n1.action == n2.action,
        n1.error == n2.error,
        settings.enabled && category_switch(n1.category, settings),
        !(settings.only_when_inactive && main_window_active),
        !settings.show_previews,
    ensures
        p1 is System && p2 is System,
        p1->title@ == p2->title@,
        p1->body@ == p2->body@,
        p1->title@ == localized_spec(language, private_titles(n1.category).0, private_titles(n1.category).1),
        p1->body@ == localized_spec(language, generic_body().0, generic_body().1),
{
}

impl NotificationPlan {
    /// The delivery that this plan reports once carried out.
    pub fn delivery(&self) -> (d: DesktopNotificationDelivery)
        ensures
            d == match *self {
                NotificationPlan::Disabled => DesktopNotificationDelivery::Disabled,
                NotificationPlan::MainWindowActive { .. } => DesktopNotificationDelivery::MainWindowActive,
                NotificationPlan::System { .. } => DesktopNotificationDelivery::Shown,
            },
    {
        match self {
            NotificationPlan::Disabled => DesktopNotificationDelivery::Disabled,
            NotificationPlan::MainWindowActive { .. } => DesktopNotificationDelivery::MainWindowActive,
            NotificationPlan::System { .. } => DesktopNotificationDelivery::Shown,
        }
    }
}

/// The transfer request whose notification action was chosen last, until the
/// main window takes it.
pub struct PendingTransferRequest {
    pub slot: Option<String>,
}

/// Takes the pending transfer request, leaving none.
pub fn take_pending_transfer_request(pending: &mut PendingTransferRequest) -> (r: Option<String>)
    ensures
        r == old(pending).slot,
        final(pending).slot is None,
{
    pending.slot.take()
}


/// Kind of a notification raised by the host.
#[derive(Debug, Clone, Copy, PartialEq, Eq)]
pub enum NotificationKind {
    Info,
    Success,
    Warning,
    Error,
}

/// A notification held by the host.
#[derive(Debug, PartialEq, Eq)]
pub struct HostNotification {
    pub id: String,
    pub title: String,
    pub body: String,
    pub source: String,
    pub kind: NotificationKind,
    pub reference: Option<String>,
    pub created_at_ms: i64,
    pub read_at_ms: Option<i64>,
    pub read_by_device_id: Option<String>,
    pub read_by_device_name: Option<String>,
}

fn copy_text(s: &Option<String>) -> (r: Option<String>)
    ensures
        r == *s,
{
    match s {
        Some(t) => Some(t.clone()),
        None => None,
    }
}

impl Clone for HostNotification {
    fn clone(&self) -> (r: Self)
        ensures
            r == *self,
    {
        HostNotification {
            id: self.id.clone(),
            title: self.title.clone(),
            body: self.body.clone(),
            source: self.source.clone(),
            kind: self.kind,
            reference: copy_text(&self.reference),
            created_at_ms: self.created_at_ms,
            read_at_ms: self.read_at_ms,
            read_by_device_id: copy_text(&self.read_by_device_id),
            read_by_device_name: copy_text(&self.read_by_device_name),
        }
    }
}

/// The ids of `ns`, in order.
pub open spec fn ids_of(ns: Seq<HostNotification>) -> Seq<Seq<char>> {
    ns.map_values(|n: HostNotification| n.id@)
}

/// The unread notifications of `ns` whose ids are not in `known`, in order.
pub open spec fn new_unread(ns: Seq<HostNotification>, known: Set<Seq<char>>) -> Seq<HostNotification>
    decreases ns.len(),
{
    if ns.len() == 0 {
        Seq::empty()
    } else {
        let rest = new_unread(ns.drop_last(), known);
        let n = ns.last();
        if n.read_at_ms is None && !known.contains(n.id@) {
            rest.push(n)
        } else {
            rest
        }
    }
}

/// Remembers the ids of the host's notifications, to report only those that
/// appear unread later.
pub struct HostNotificationTracker {
    known_ids: Vec<String>,
}

impl HostNotificationTracker {
    /// The ids that the tracker knows.
    pub closed spec fn known(&self) -> Set<Seq<char>> {
        strings_view(self.known_ids@).to_set()
    }

    fn ids(notifications: &[HostNotification]) -> (v: Vec<String>)
        ensures
            strings_view(v@) == ids_of(notifications@),
    {
        let mut v: Vec<String> = Vec::new();
        let mut i: usize = 0;
        while i < notifications.len()
            invariant
                i <= notifications@.len(),
                strings_view(v@) == ids_of(notifications@).take(i as int),
            decreases notifications@.len() - i,
        {
            let id = notifications[i].id.clone();
            assert(id@ == ids_of(notifications@)[i as int]);
            let ghost before = strings_view(v@);
            v.push(id);
            assert(strings_view(v@) =~= before.push(id@));
            i = i + 1;
            assert(strings_view(v@) =~= ids_of(notifications@).take(i as int));
        }
        assert(ids_of(notifications@).take(notifications@.len() as int) =~= ids_of(notifications@));
        v
    }

    /// A tracker that knows the ids of `notifications`.
    pub fn from_notifications(notifications: &[HostNotification]) -> (t: Self)
        ensures
            t.known() == ids_of(notifications@).to_set(),
    {
        HostNotificationTracker { known_ids: Self::ids(notifications) }
    }

    /// The unread notifications of `notifications` whose ids were not known;
    /// afterwards the tracker knows exactly the ids of `notifications`.
    pub fn update(&mut self, notifications: &[HostNotification]) -> (added: Vec<HostNotification>)
        ensures
            added@ == new_unread(notifications@, old(self).known()),
            final(self).known() == ids_of(notifications@).to_set(),
    {
        let ghost known = self.known();
        let mut added: Vec<HostNotification> = Vec::new();
        let mut i: usize = 0;
        while i < notifications.len()
            invariant
                i <= notifications@.len(),
                known == strings_view(self.known_ids@).to_set(),
                added@ == new_unread(notifications@.take(i as int), known),
            decreases notifications@.len() - i,
        {
            let n = &notifications[i];
            let fresh = n.read_at_ms.is_none() && !contains_string(&self.known_ids, &n.id);
            assert(notifications@.take(i + 1).drop_last() =~= notifications@.take(i as int));
            if fresh {
                added.push(n.clone());
            }
            i = i + 1;
        }
        assert(notifications@.take(notifications@.len() as int) =~= notifications@);
        self.known_ids = Self::ids(notifications);
        added
    }
}

/// A notification reported by `update` is unread and its id was not known.
pub proof fn new_unread_are_unread_and_unknown(ns: Seq<HostNotification>, known: Set<Seq<char>>, k: int)
    requires
        0 <= k < new_unread(ns, known).len(),
    ensures
        new_unread(ns, known)[k].read_at_ms is None,
        !known.contains(new_unread(ns, known)[k].id@),
        ns.contains(new_unread(ns, known)[k]),
    decreases ns.len(),
{
    let rest = new_unread(ns.drop_last(), known);
    if k < rest.len() {
        new_unread_are_unread_and_unknown(ns.drop_last(), known, k);
        let j = choose|j: int| 0 <= j < ns.drop_last().len() && ns.drop_last()[j] == rest[k];
        assert(ns[j] == rest[k]);
    } else {
        assert(ns[ns.len() - 1] == new_unread(ns, known)[k]);
    }
}

proof fn lemma_nothing_new_when_all_known(ns: Seq<HostNotification>, all: Seq<HostNotification>)
    requires
        forall|i: int| 0 <= i < ns.len() ==> ids_of(all).contains(#[trigger] ns[i].id@),
    ensures
        new_unread(ns, ids_of(all).to_set()) == Seq::<HostNotification>::empty(),
    decreases ns.len(),
{
    if ns.len() > 0 {
        lemma_nothing_new_when_all_known(ns.drop_last(), all);
        assert(ids_of(all).contains(ns.last().id@));
    }
}

/// Once the tracker has seen a list, the same list reports nothing new.
pub proof fn same_notifications_are_reported_once(ns: Seq<HostNotification>)
    ensures
        new_unread(ns, ids_of(ns).to_set()) == Seq::<HostNotification>::empty(),
{
    assert forall|i: int| 0 <= i < ns.len() implies ids_of(ns).contains(#[trigger] ns[i].id@) by {
        assert(ids_of(ns)[i] == ns[i].id@);
    }
    lemma_nothing_new_when_all_known(ns, ns);
}

/// Whether the sound of an event that needs visible feedback plays, once
/// its notification went out as `delivery`.
pub fn plays_after(delivery: DesktopNotificationDelivery) -> (b: bool)
    ensures
        b == (delivery != DesktopNotificationDelivery::Disabled),
{
    !matches!(delivery, DesktopNotificationDelivery::Disabled)
}

/// The test notification, in `language`: refused while notifications are
/// turned off.
pub fn test_notification(enabled: bool, language: LanguagePreference) -> (r: Result<(String, String), String>)
    ensures
        !enabled ==> (r matches Err(e) && e@ == "turn on desktop notifications first"@),
        enabled ==> (r matches Ok((t, b)) && t@ == localized_spec(language, "ArcRelay 测试通知"@, "ArcRelay test notification"@)
            && b@ == localized_spec(
            language,
            "通知机制工作正常，你可以在设置中调整接收范围。"@,
            "Notifications are working. You can choose which alerts to receive in Settings."@,
        )),
{
    if !enabled {
        return Err("turn on desktop notifications first".to_string());
    }
    Ok((
        localized(language, "ArcRelay 测试通知", "ArcRelay test notification"),
        localized(
            language,
            "通知机制工作正常，你可以在设置中调整接收范围。",
            "Notifications are working. You can choose which alerts to receive in Settings.",
        ),
    ))
}

/// Whether the choice made on a notification's action opens it: anything
/// but its closing.
pub fn action_selected(selected: &str) -> (b: bool)
    ensures
        b == (selected@ != "__closed"@),
{
    !crate::text::chars_equal(&crate::text::chars_of(selected), &crate::text::chars_of("__closed"))
}

/// The label of the button that opens a transfer request.
pub fn view_request_label(language: LanguagePreference) -> (s: String)
    ensures
        s@ == localized_spec(language, "查看请求"@, "View request"@),
{
    localized(language, "查看请求", "View request")
}

} // verus!
