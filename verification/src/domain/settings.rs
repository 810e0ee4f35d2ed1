//! User settings types: notification preferences.

use vstd::prelude::*;

verus! {

/// Per-channel notification switches.
#[derive(Debug, Clone, Copy, PartialEq, Eq, Structural)]
pub struct NotificationSettings {
    pub email_notifications: bool,
    pub push_notifications: bool,
    pub bid_updates: bool,
    pub rfi_alerts: bool,
    pub task_reminders: bool,
    pub weekly_reports: bool,
}

impl Default for NotificationSettings {
    /// Every switch off until the user's stored settings are loaded.
    fn default() -> (r: Self)
        ensures
            !r.email_notifications,
            !r.push_notifications,
            !r.bid_updates,
            !r.rfi_alerts,
            !r.task_reminders,
            !r.weekly_reports,
    {
        NotificationSettings {
            email_notifications: false,
            push_notifications: false,
            bid_updates: false,
            rfi_alerts: false,
            task_reminders: false,
            weekly_reports: false,
        }
    }
}

/// Request body for updating one's settings.
#[derive(Debug, Clone, Copy, PartialEq, Eq, Structural)]
pub struct UpdateUserSettingsRequest {
    pub notification_settings: NotificationSettings,
}

} // verus!
