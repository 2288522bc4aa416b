//! Account notifications: the record, its form body, and the requests of
//! the global notifications API.

use vstd::prelude::*;
use crate::canvas_client::{CanvasClient, CanvasClientView};
use crate::request::{Method, Request};
use crate::text::{bool_string, bool_text, decimal, decimal_string};

verus! {

/// A global notification of an account.
#[derive(Debug)]
pub struct AccountNotification {
    /// The subject of the notifications
    subject: String,
    /// The message to be sent in the notification.
    message: String,
    ///  When to send out the notification.
    ///
    /// For example, `2013-08-28T23:59:00-06:00`
    start_at: String,
    /// When to expire the notification.
    ///
    /// For example, `2013-08-29T23:59:00-06:00`
    end_at: String,
    /// The icon to display with the message.
    ///
    /// Defaults to `warning`.
    icon: NotificationIcon,
    /// The roles to send the notification to.
    ///
    /// If [`None`], defaults to all roles.
    role_ids: Option<Vec<u64>>,
}

/// The icon shown with a notification.
#[derive(Clone, Copy, Debug, PartialEq, Eq, Structural)]
pub enum NotificationIcon {
    Warning,
    Information,
    Question,
    Error,
    Calendar,
}

impl NotificationIcon {
    /// The word that the API writes the icon with: its name in lower case.
    pub open spec fn text(&self) -> Seq<char> {
        match self {
            NotificationIcon::Warning => "warning"@,
            NotificationIcon::Information => "information"@,
            NotificationIcon::Question => "question"@,
            NotificationIcon::Error => "error"@,
            NotificationIcon::Calendar => "calendar"@,
        }
    }

    /// The word that the API writes the icon with.
    pub fn as_str(&self) -> (word: &'static str)
        ensures
            word@ == self.text(),
    {
        match self {
            NotificationIcon::Warning => "warning",
            NotificationIcon::Information => "information",
            NotificationIcon::Question => "question",
            NotificationIcon::Error => "error",
            NotificationIcon::Calendar => "calendar",
        }
    }
}

/// What an [`AccountNotification`] holds.
pub struct AccountNotificationView {
    pub subject: Seq<char>,
    pub message: Seq<char>,
    pub start_at: Seq<char>,
    pub end_at: Seq<char>,
    pub icon: NotificationIcon,
    pub role_ids: Option<Seq<u64>>,
}

impl AccountNotificationView {
    /// The form body that creates or updates the notification: subject,
    /// message, start, end and icon, each under its name within
    /// `account_notification`. The roles are not part of it.
    pub open spec fn fields(self) -> Seq<(Seq<char>, Seq<char>)> {
        seq![
            ("account_notification[subject]"@, self.subject),
            ("account_notification[message]"@, self.message),
            ("account_notification[start_at]"@, self.start_at),
            ("account_notification[end_at]"@, self.end_at),
            ("account_notification[icon]"@, self.icon.text()),
        ]
    }
}

impl View for AccountNotification {
    type V = AccountNotificationView;

    closed spec fn view(&self) -> AccountNotificationView {
        AccountNotificationView {
            subject: self.subject@,
            message: self.message@,
            start_at: self.start_at@,
            end_at: self.end_at@,
            icon: self.icon,
            role_ids: self.role_ids.deep_view(),
        }
    }
}

impl AccountNotification {
    /// A notification with the given fields, in the order of their
    /// declaration.
    pub fn new(
        subject: String,
        message: String,
        start_at: String,
        end_at: String,
        icon: NotificationIcon,
        role_ids: Option<Vec<u64>>,
    ) -> (notification: AccountNotification)
        ensures
            notification@ == (AccountNotificationView {
                subject: subject@,
                message: message@,
                start_at: start_at@,
                end_at: end_at@,
                icon,
                role_ids: role_ids.deep_view(),
            }),
    {
        AccountNotification { subject, message, start_at, end_at, icon, role_ids }
    }

    /// The subject of the notifications
    pub fn subject(&self) -> (subject: &str)
        ensures
            subject@ == self@.subject,
    {
        self.subject.as_str()
    }

    /// The message to be sent in the notification.
    pub fn message(&self) -> (message: &str)
        ensures
            message@ == self@.message,
    {
        self.message.as_str()
    }

    ///  When to send out the notification.
    ///
    /// For example, `2013-08-28T23:59:00-06:00`
    pub fn start_at(&self) -> (start_at: &str)
        ensures
            start_at@ == self@.start_at,
    {
        self.start_at.as_str()
    }

    /// When to expire the notification.
    ///
    /// For example, `2013-08-29T23:59:00-06:00`
    pub fn end_at(&self) -> (end_at: &str)
        ensures
            end_at@ == self@.end_at,
    {
        self.end_at.as_str()
    }

    /// The icon to display with the message.
    ///
    /// Defaults to `warning`.
    pub fn icon(&self) -> (icon: &NotificationIcon)
        ensures
            *icon == self@.icon,
    {
        &self.icon
    }

    /// The roles to send the notification to.
    ///
    /// If [`None`], defaults to all roles.
    pub fn role_ids(&self) -> (role_ids: Option<&Vec<u64>>)
        ensures
            role_ids.deep_view() == self@.role_ids,
    {
        self.role_ids.as_ref()
    }

    /// The form body that creates or updates this notification.
    pub fn form_fields(&self) -> (fields: Vec<(String, String)>)
        ensures
            fields.deep_view() == self@.fields(),
    {
        let mut fields: Vec<(String, String)> = Vec::new();
        fields.push((String::from_str("account_notification[subject]"), self.subject.clone()));
        fields.push((String::from_str("account_notification[message]"), self.message.clone()));
        fields.push((String::from_str("account_notification[start_at]"), self.start_at.clone()));
        fields.push((String::from_str("account_notification[end_at]"), self.end_at.clone()));
        fields.push(
            (String::from_str("account_notification[icon]"), String::from_str(self.icon.as_str())),
        );
        fields
    }
}

/// Whether a listing takes in the notifications that are past or were
/// closed.
#[derive(Clone, Copy, Debug, PartialEq, Eq, Structural)]
pub enum IncludePastNotifications {
    Include,
    Exclude,
}

impl IncludePastNotifications {
    /// The boolean form: `true` for [`IncludePastNotifications::Include`].
    pub open spec fn spec_as_bool(&self) -> bool {
        *self == IncludePastNotifications::Include
    }

    /// The boolean form, as the `include_past` parameter reads it.
    #[verifier::when_used_as_spec(spec_as_bool)]
    pub fn as_bool(&self) -> (past: bool)
        ensures
            past == self.spec_as_bool(),
    {
        match self {
            IncludePastNotifications::Include => true,
            IncludePastNotifications::Exclude => false,
        }
    }
}

/// Path of the notifications of an account.
pub open spec fn notifications_path(account_id: u64) -> Seq<char> {
    "v1/accounts/"@ + decimal(account_id as nat) + "/account_notifications"@
}

/// Path of one notification of an account.
pub open spec fn notification_path(account_id: u64, notification_id: u64) -> Seq<char> {
    "v1/accounts/"@ + decimal(account_id as nat) + "/account_notifications/"@ + decimal(
        notification_id as nat,
    )
}

/// The requests of the global notifications API.
///
/// Each method composes the request of one remote action; sending it and
/// decoding the answer is left to the caller.
pub trait AccountNotificationsExt: View<V = CanvasClientView> {
    /// Lists the global notifications of the account for the current user.
    ///
    /// The notifications that the user has closed are taken in only with
    /// [`IncludePastNotifications::Include`]. The answer is a list of
    /// [`AccountNotification`].
    fn get_global_notifications_for_account(
        &self,
        account_id: u64,
        include_past: IncludePastNotifications,
    ) -> (request: Request)
        ensures
            request@ == self@.request(Method::Get, notifications_path(account_id)).with_param(
                "include_past"@,
                Some(bool_text(include_past.spec_as_bool())),
            ),
    ;

    /// Gets one global notification for the current user.
    ///
    /// The answer is an [`AccountNotification`].
    fn get_notification_for_account(
        &self,
        account_id: u64,
        notification_id: u64,
    ) -> (request: Request)
        ensures
            request@ == self@.request(Method::Get, notification_path(account_id, notification_id)),
    ;

    /// Closes a notification that the current user no longer wants to see.
    ///
    /// The answer is the [`AccountNotification`] as it was before.
    fn close_notification_for_account(
        &self,
        account_id: u64,
        notification_id: u64,
    ) -> (request: Request)
        ensures
            request@ == self@.request(Method::Delete, notification_path(account_id, notification_id)),
    ;

    /// Creates a global notification for an account. The roles of
    /// `notification` are not sent.
    ///
    /// The answer is the new [`AccountNotification`].
    fn create_global_notification(
        &self,
        account_id: u64,
        notification: &AccountNotification,
    ) -> (request: Request)
        ensures
            request@ == self@.request(Method::Post, notifications_path(account_id)).with_form(
                notification@.fields(),
            ),
    ;

    /// Updates a global notification of an account. The roles of
    /// `new_notification` are not sent.
    ///
    /// The answer is the updated [`AccountNotification`].
    fn update_global_notification(
        &self,
        account_id: u64,
        notification_id: u64,
        new_notification: &AccountNotification,
    ) -> (request: Request)
        ensures
            request@ == self@.request(
                Method::Put,
                notification_path(account_id, notification_id),
            ).with_form(new_notification@.fields()),
    ;
}

fn notifications_path_string(account_id: u64) -> (path: String)
    ensures
        path@ == notifications_path(account_id),
{
    let mut path = String::from_str("v1/accounts/");
    path.append(decimal_string(account_id).as_str());
    path.append("/account_notifications");
    path
}

fn notification_path_string(account_id: u64, notification_id: u64) -> (path: String)
    ensures
        path@ == notification_path(account_id, notification_id),
{
    let mut path = String::from_str("v1/accounts/");
    path.append(decimal_string(account_id).as_str());
    path.append("/account_notifications/");
    path.append(decimal_string(notification_id).as_str());
    path
}

impl AccountNotificationsExt for CanvasClient {
    fn get_global_notifications_for_account(
        &self,
        account_id: u64,
        include_past: IncludePastNotifications,
    ) -> (request: Request) {
        self.make_query(notifications_path_string(account_id).as_str()).query(
            "include_past",
            Some(bool_string(include_past.as_bool())),
        )
    }

    fn get_notification_for_account(
        &self,
        account_id: u64,
        notification_id: u64,
    ) -> (request: Request) {
        self.make_query(notification_path_string(account_id, notification_id).as_str())
    }

    fn close_notification_for_account(
        &self,
        account_id: u64,
        notification_id: u64,
    ) -> (request: Request) {
        self.make_delete(notification_path_string(account_id, notification_id).as_str())
    }

    fn create_global_notification(
        &self,
        account_id: u64,
        notification: &AccountNotification,
    ) -> (request: Request) {
        self.make_post(notifications_path_string(account_id).as_str()).form(
            notification.form_fields(),
        )
    }

    fn update_global_notification(
        &self,
        account_id: u64,
        notification_id: u64,
        new_notification: &AccountNotification,
    ) -> (request: Request) {
        self.make_put(notification_path_string(account_id, notification_id).as_str()).form(
            new_notification.form_fields(),
        )
    }
}

} // verus!
