use canvas_api::extensions::account_notifications::{
    AccountNotification, IncludePastNotifications, NotificationIcon,
};
use canvas_api::request::Method;
use canvas_api::{AccountNotificationsExt, CanvasClient};

fn test_client() -> CanvasClient {
    CanvasClient::builder("abc".to_string())
        .set_api_url("https://example.test/api")
        .build()
        .unwrap()
}

fn pair(key: &str, value: &str) -> (String, String) {
    (key.to_string(), value.to_string())
}

fn notification(icon: NotificationIcon, role_ids: Option<Vec<u64>>) -> AccountNotification {
    AccountNotification::new(
        "Attention Students".to_string(),
        "This is a test of the notification system.".to_string(),
        "2013-08-28T23:59:00-06:00".to_string(),
        "2013-08-29T23:59:00-06:00".to_string(),
        icon,
        role_ids,
    )
}

fn expected_fields(icon: &str) -> Vec<(String, String)> {
    vec![
        pair("account_notification[subject]", "Attention Students"),
        pair("account_notification[message]", "This is a test of the notification system."),
        pair("account_notification[start_at]", "2013-08-28T23:59:00-06:00"),
        pair("account_notification[end_at]", "2013-08-29T23:59:00-06:00"),
        pair("account_notification[icon]", icon),
    ]
}

#[test]
fn notification_getters_return_the_fields() {
    let record = notification(NotificationIcon::Information, Some(vec![1, 60]));
    assert_eq!(record.subject(), "Attention Students");
    assert_eq!(record.message(), "This is a test of the notification system.");
    assert_eq!(record.start_at(), "2013-08-28T23:59:00-06:00");
    assert_eq!(record.end_at(), "2013-08-29T23:59:00-06:00");
    assert_eq!(*record.icon(), NotificationIcon::Information);
    assert_eq!(record.role_ids(), Some(&vec![1, 60]));
    assert_eq!(notification(NotificationIcon::Warning, None).role_ids(), None);
}

#[test]
fn icons_are_written_in_lower_case() {
    assert_eq!(NotificationIcon::Warning.as_str(), "warning");
    assert_eq!(NotificationIcon::Information.as_str(), "information");
    assert_eq!(NotificationIcon::Question.as_str(), "question");
    assert_eq!(NotificationIcon::Error.as_str(), "error");
    assert_eq!(NotificationIcon::Calendar.as_str(), "calendar");
}

#[test]
fn include_past_has_a_boolean_form() {
    assert!(IncludePastNotifications::Include.as_bool());
    assert!(!IncludePastNotifications::Exclude.as_bool());
}

#[test]
fn notification_form_has_five_fields_and_no_roles() {
    let record = notification(NotificationIcon::Calendar, Some(vec![1, 2, 3]));
    assert_eq!(record.form_fields(), expected_fields("calendar"));
    let record = notification(NotificationIcon::Calendar, None);
    assert_eq!(record.form_fields(), expected_fields("calendar"));
}

#[test]
fn listing_says_whether_past_notifications_are_wanted() {
    let request = test_client()
        .get_global_notifications_for_account(3, IncludePastNotifications::Include);
    assert_eq!(request.method(), Method::Get);
    assert_eq!(request.url(), "https://example.test/api/v1/accounts/3/account_notifications");
    assert_eq!(request.authorization(), "Bearer abc");
    assert_eq!(request.query_pairs(), vec![pair("include_past", "true")]);
    assert!(request.form_fields().is_none());
    let request = test_client()
        .get_global_notifications_for_account(3, IncludePastNotifications::Exclude);
    assert_eq!(request.query_pairs(), vec![pair("include_past", "false")]);
}

#[test]
fn one_notification_is_read_with_get() {
    let request = test_client().get_notification_for_account(3, 17);
    assert_eq!(request.method(), Method::Get);
    assert_eq!(request.url(), "https://example.test/api/v1/accounts/3/account_notifications/17");
    assert!(request.query_pairs().is_empty());
    assert!(request.form_fields().is_none());
}

#[test]
fn one_notification_is_closed_with_delete() {
    let request = test_client().close_notification_for_account(3, 17);
    assert_eq!(request.method(), Method::Delete);
    assert_eq!(request.url(), "https://example.test/api/v1/accounts/3/account_notifications/17");
    assert!(request.query_pairs().is_empty());
    assert!(request.form_fields().is_none());
}

#[test]
fn notification_is_created_with_post_and_a_form() {
    let record = notification(NotificationIcon::Warning, Some(vec![4]));
    let request = test_client().create_global_notification(3, &record);
    assert_eq!(request.method(), Method::Post);
    assert_eq!(request.url(), "https://example.test/api/v1/accounts/3/account_notifications");
    assert_eq!(request.form_fields(), Some(&expected_fields("warning")));
    assert!(request.query_pairs().is_empty());
}

#[test]
fn notification_is_updated_with_put_and_a_form() {
    let record = notification(NotificationIcon::Error, None);
    let request = test_client().update_global_notification(3, 17, &record);
    assert_eq!(request.method(), Method::Put);
    assert_eq!(request.url(), "https://example.test/api/v1/accounts/3/account_notifications/17");
    assert_eq!(request.form_fields(), Some(&expected_fields("error")));
    assert!(request.query_pairs().is_empty());
}
