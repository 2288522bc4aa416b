use canvas_api::calendar::{
    AccountCalendar, AccountCalendarsResponse, AccountVisibility, AllAccountCalendarsResponse,
    CountAccountVisibleCalendarsResponse, Visibility,
};
use canvas_api::request::Method;
use canvas_api::{CalendarExt, CanvasClient};

fn test_client() -> CanvasClient {
    CanvasClient::builder("abc".to_string())
        .set_api_url("https://example.test/api")
        .build()
        .unwrap()
}

fn pair(key: &str, value: &str) -> (String, String) {
    (key.to_string(), value.to_string())
}

fn calendar(id: u64, name: &str) -> AccountCalendar {
    AccountCalendar::new(
        id,
        name.to_string(),
        Some(1),
        None,
        true,
        3,
        format!("account_{}", id),
        format!("/accounts/{}/calendar_events", id),
        false,
        format!("/api/v1/accounts/{}/calendar_events", id),
        format!("/accounts/{}/calendar_events/new", id),
    )
}

#[test]
fn calendar_getters_return_the_fields() {
    let record = calendar(204, "Department of Chemistry");
    assert_eq!(record.id(), 204);
    assert_eq!(record.name(), "Department of Chemistry");
    assert_eq!(record.parent_account_id(), Some(1));
    assert_eq!(record.root_account_id(), None);
    assert!(record.visible());
    assert_eq!(record.sub_account_count(), 3);
    assert_eq!(record.asset_string(), "account_204");
    assert_eq!(record.calendar_event_url(), "/accounts/204/calendar_events");
    assert!(!record.can_create_calendar_events());
    assert_eq!(record.create_calendar_event_url(), "/api/v1/accounts/204/calendar_events");
    assert_eq!(record.new_calendar_event_url(), "/accounts/204/calendar_events/new");
}

#[test]
fn visibility_has_a_boolean_form() {
    assert!(Visibility::Visible.as_bool());
    assert!(!Visibility::Hidden.as_bool());
}

#[test]
fn visibility_has_a_word_form() {
    assert_eq!(Visibility::Visible.as_str(), "visible");
    assert_eq!(Visibility::Hidden.as_str(), "hidden");
}

#[test]
fn visibility_survives_the_round_trip_through_a_boolean() {
    for visibility in [Visibility::Visible, Visibility::Hidden] {
        assert_eq!(Visibility::from_bool(visibility.as_bool()), visibility);
    }
    for echoed in [true, false] {
        assert_eq!(Visibility::from_bool(echoed).as_bool(), echoed);
    }
}

#[test]
fn visibility_round_trip_through_the_echoed_record() {
    let mut shown = calendar(1, "shown");
    assert_eq!(Visibility::from_bool(shown.visible()), Visibility::Visible);
    shown = AccountCalendar::new(
        1,
        "hidden".to_string(),
        None,
        None,
        Visibility::Hidden.as_bool(),
        0,
        String::new(),
        String::new(),
        false,
        String::new(),
        String::new(),
    );
    assert_eq!(Visibility::from_bool(shown.visible()), Visibility::Hidden);
}

#[test]
fn envelope_gives_the_calendars_in_order() {
    let envelope = AccountCalendarsResponse {
        account_calendars: vec![calendar(1, "A"), calendar(2, "B")],
    };
    let calendars = envelope.into_account_calendars();
    assert_eq!(calendars.len(), 2);
    assert_eq!(calendars[0].id(), 1);
    assert_eq!(calendars[0].name(), "A");
    assert_eq!(calendars[1].id(), 2);
    assert_eq!(calendars[1].name(), "B");
}

#[test]
fn envelope_of_an_account_gives_the_calendars_in_order() {
    let envelope = AllAccountCalendarsResponse {
        account_calendars: vec![calendar(2, "B"), calendar(1, "A"), calendar(2, "B")],
    };
    let calendars = envelope.into_account_calendars();
    let ids: Vec<u64> = calendars.iter().map(|record| record.id()).collect();
    assert_eq!(ids, vec![2, 1, 2]);
    let empty = AllAccountCalendarsResponse { account_calendars: Vec::new() };
    assert!(empty.into_account_calendars().is_empty());
}

#[test]
fn envelope_gives_the_count() {
    assert_eq!(CountAccountVisibleCalendarsResponse { count: 7 }.into_count(), 7);
    assert_eq!(CountAccountVisibleCalendarsResponse { count: 0 }.into_count(), 0);
}

#[test]
fn all_calendars_sends_no_search_term() {
    let request = test_client().all_calendars();
    assert_eq!(request.method(), Method::Get);
    assert_eq!(request.url(), "https://example.test/api/v1/account_calendars");
    assert_eq!(request.authorization(), "Bearer abc");
    assert!(request.query_pairs().iter().all(|(key, _)| key != "search_term"));
    assert!(request.query_pairs().is_empty());
    assert!(request.form_fields().is_none());
}

#[test]
fn search_calendars_sends_the_term_as_it_is() {
    let request = test_client().search_calendars("chem & bio");
    assert_eq!(request.method(), Method::Get);
    assert_eq!(request.url(), "https://example.test/api/v1/account_calendars");
    assert_eq!(request.query_pairs(), vec![pair("search_term", "chem & bio")]);
    assert!(request.form_fields().is_none());
}

#[test]
fn search_term_shorter_than_the_server_asks_for_is_still_sent() {
    let request = test_client().search_calendars("c");
    assert_eq!(request.query_pairs(), vec![pair("search_term", "c")]);
    let request = test_client().search_calendars("");
    assert_eq!(request.query_pairs(), vec![pair("search_term", "")]);
}

#[test]
fn calendar_by_account_id_has_the_id_in_its_path() {
    let request = test_client().calendar_by_account_id(42);
    assert_eq!(request.method(), Method::Get);
    assert_eq!(request.url(), "https://example.test/api/v1/account_calendar/42");
    assert!(request.query_pairs().is_empty());
    assert!(request.form_fields().is_none());
    let request = test_client().calendar_by_account_id(u64::MAX);
    assert_eq!(request.url(), "https://example.test/api/v1/account_calendar/18446744073709551615");
    let request = test_client().calendar_by_account_id(0);
    assert_eq!(request.url(), "https://example.test/api/v1/account_calendar/0");
}

#[test]
fn set_account_calendar_visible_sends_the_boolean_form() {
    let request = test_client().set_account_calendar_visible(7, Visibility::Visible);
    assert_eq!(request.method(), Method::Put);
    assert_eq!(request.url(), "https://example.test/api/v1/account_calendar/7");
    assert_eq!(request.form_fields(), Some(&vec![pair("visible", "true")]));
    assert!(request.query_pairs().is_empty());
    let request = test_client().set_account_calendar_visible(7, Visibility::Hidden);
    assert_eq!(request.form_fields(), Some(&vec![pair("visible", "false")]));
}

#[test]
fn bulk_set_visibility_end_to_end() {
    let entries = [
        AccountVisibility::new(1, Visibility::Visible),
        AccountVisibility::new(2, Visibility::Hidden),
    ];
    let request = test_client().set_many_account_calendars_visible(9, &entries);
    assert_eq!(request.method(), Method::Put);
    assert_eq!(request.url(), "https://example.test/api/v1/accounts/9/account_calendars");
    assert_eq!(request.authorization(), "Bearer abc");
    assert_eq!(
        request.form_fields(),
        Some(&vec![pair("id", "1"), pair("visible", "true"), pair("id", "2"), pair("visible", "false")])
    );
    assert!(request.query_pairs().is_empty());
}

#[test]
fn bulk_set_visibility_keeps_order_and_repeats() {
    let entries = [
        AccountVisibility::new(30, Visibility::Hidden),
        AccountVisibility::new(10, Visibility::Hidden),
        AccountVisibility::new(30, Visibility::Visible),
    ];
    let request = test_client().set_many_account_calendars_visible(9, &entries);
    assert_eq!(
        request.form_fields(),
        Some(&vec![
            pair("id", "30"),
            pair("visible", "false"),
            pair("id", "10"),
            pair("visible", "false"),
            pair("id", "30"),
            pair("visible", "true"),
        ])
    );
}

#[test]
fn bulk_set_visibility_of_nothing_has_an_empty_body() {
    let request = test_client().set_many_account_calendars_visible(9, &[]);
    assert_eq!(request.method(), Method::Put);
    assert_eq!(request.form_fields(), Some(&Vec::new()));
}

#[test]
fn all_account_calendars_filters_by_the_word_form() {
    let request = test_client().all_account_calendars(5, Visibility::Hidden);
    assert_eq!(request.method(), Method::Get);
    assert_eq!(request.url(), "https://example.test/api/v1/accounts/5/account_calendars");
    assert_eq!(request.query_pairs(), vec![pair("filter", "hidden")]);
    assert!(request.query_pairs().iter().all(|(key, _)| key != "search_term"));
    assert!(request.form_fields().is_none());
    let request = test_client().all_account_calendars(5, Visibility::Visible);
    assert_eq!(request.query_pairs(), vec![pair("filter", "visible")]);
}

#[test]
fn search_all_account_calendars_sends_term_then_filter() {
    let request = test_client().search_all_account_calendars(5, "chem", Visibility::Visible);
    assert_eq!(request.method(), Method::Get);
    assert_eq!(request.url(), "https://example.test/api/v1/accounts/5/account_calendars");
    assert_eq!(request.query_pairs(), vec![pair("search_term", "chem"), pair("filter", "visible")]);
    assert!(request.form_fields().is_none());
}

#[test]
fn count_account_visible_calendars_has_its_own_path() {
    let request = test_client().count_account_visible_calendars(12);
    assert_eq!(request.method(), Method::Get);
    assert_eq!(request.url(), "https://example.test/api/v1/accounts/12/visible_calendars_count");
    assert!(request.query_pairs().is_empty());
    assert!(request.form_fields().is_none());
}
