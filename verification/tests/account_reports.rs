use canvas_api::extensions::account_reports::{CreateReportForm, Report, ReportParameters};
use canvas_api::request::Method;
use canvas_api::{AccountReportsExt, CanvasClient};

fn test_client() -> CanvasClient {
    CanvasClient::builder("abc".to_string())
        .set_api_url("https://example.test/api")
        .build()
        .unwrap()
}

fn pair(key: &str, value: &str) -> (String, String) {
    (key.to_string(), value.to_string())
}

fn empty_form() -> CreateReportForm {
    CreateReportForm::from(ReportParameters::new())
}

fn full_form() -> CreateReportForm {
    CreateReportForm {
        enrollment_term_id: Some(2),
        include_deleted: Some(false),
        course_id: Some(2),
        order: Some("users".to_string()),
        users: Some(true),
        accounts: Some(false),
        terms: Some(true),
        courses: Some(false),
        sections: Some(true),
        enrollments: Some(false),
        groups: Some(true),
        xlist: Some(false),
        sis_terms_csv: Some(1),
        sis_accounts_csv: Some(10),
        skip_message: Some(true),
        include_enrollment_state: Some(false),
        start_at: Some("2012-07-13T10:55:20-06:00".to_string()),
        end_at: Some("2012-07-13T10:55:20-06:00".to_string()),
    }
}

#[test]
fn new_parameters_are_all_unset() {
    for parameters in [ReportParameters::new(), ReportParameters::default()] {
        assert_eq!(parameters.enrollment_term_id(), None);
        assert_eq!(parameters.include_deleted(), None);
        assert_eq!(parameters.course_id(), None);
        assert_eq!(parameters.order(), None);
        assert_eq!(parameters.users(), None);
        assert_eq!(parameters.accounts(), None);
        assert_eq!(parameters.terms(), None);
        assert_eq!(parameters.courses(), None);
        assert_eq!(parameters.sections(), None);
        assert_eq!(parameters.enrollments(), None);
        assert_eq!(parameters.groups(), None);
        assert_eq!(parameters.xlist(), None);
        assert_eq!(parameters.sis_terms_csv(), None);
        assert_eq!(parameters.sis_accounts_csv(), None);
        assert_eq!(parameters.include_enrollment_state(), None);
        assert_eq!(parameters.start_at(), None);
        assert_eq!(parameters.end_at(), None);
    }
}

#[test]
fn parameters_of_a_form_keep_each_field_apart() {
    let parameters = ReportParameters::from_form(CreateReportForm {
        enrollment_term_id: Some(1),
        include_deleted: Some(true),
        course_id: Some(3),
        order: Some("courses".to_string()),
        users: Some(false),
        accounts: Some(true),
        terms: Some(false),
        courses: Some(true),
        sections: Some(false),
        enrollments: Some(true),
        groups: Some(false),
        xlist: Some(true),
        sis_terms_csv: Some(13),
        sis_accounts_csv: Some(14),
        skip_message: Some(true),
        include_enrollment_state: Some(true),
        start_at: Some("start".to_string()),
        end_at: Some("end".to_string()),
    });
    assert_eq!(parameters.enrollment_term_id(), Some(1));
    assert_eq!(parameters.include_deleted(), Some(true));
    assert_eq!(parameters.course_id(), Some(3));
    assert_eq!(parameters.order(), Some(&"courses".to_string()));
    assert_eq!(parameters.users(), Some(false));
    assert_eq!(parameters.accounts(), Some(true));
    assert_eq!(parameters.terms(), Some(false));
    assert_eq!(parameters.courses(), Some(true));
    assert_eq!(parameters.sections(), Some(false));
    assert_eq!(parameters.enrollments(), Some(true));
    assert_eq!(parameters.groups(), Some(false));
    assert_eq!(parameters.xlist(), Some(true));
    assert_eq!(parameters.sis_terms_csv(), Some(13));
    assert_eq!(parameters.sis_accounts_csv(), Some(14));
    assert_eq!(parameters.include_enrollment_state(), Some(true));
    assert_eq!(parameters.start_at(), Some(&"start".to_string()));
    assert_eq!(parameters.end_at(), Some(&"end".to_string()));
}

#[test]
fn form_from_parameters_copies_each_field_and_sets_no_skip_message() {
    let form = CreateReportForm::from(ReportParameters::from_form(full_form()));
    let expected = full_form();
    assert_eq!(form.enrollment_term_id, expected.enrollment_term_id);
    assert_eq!(form.include_deleted, expected.include_deleted);
    assert_eq!(form.course_id, expected.course_id);
    assert_eq!(form.order, expected.order);
    assert_eq!(form.users, expected.users);
    assert_eq!(form.accounts, expected.accounts);
    assert_eq!(form.terms, expected.terms);
    assert_eq!(form.courses, expected.courses);
    assert_eq!(form.sections, expected.sections);
    assert_eq!(form.enrollments, expected.enrollments);
    assert_eq!(form.groups, expected.groups);
    assert_eq!(form.xlist, expected.xlist);
    assert_eq!(form.sis_terms_csv, expected.sis_terms_csv);
    assert_eq!(form.sis_accounts_csv, expected.sis_accounts_csv);
    assert_eq!(form.skip_message, None);
    assert_eq!(form.include_enrollment_state, expected.include_enrollment_state);
    assert_eq!(form.start_at, expected.start_at);
    assert_eq!(form.end_at, expected.end_at);
}

#[test]
fn form_from_parameters_through_into() {
    let form: CreateReportForm = ReportParameters::new().into();
    assert!(form.form_fields().is_empty());
    assert_eq!(form.skip_message, None);
}

#[test]
fn empty_form_has_an_empty_body() {
    let form = empty_form();
    assert!(form.form_fields().is_empty());
    let named = form.named();
    assert_eq!(named.len(), 18);
    assert!(named.iter().all(|(_, value)| value.is_none()));
}

#[test]
fn full_form_writes_every_field_in_the_order_of_declaration() {
    assert_eq!(
        full_form().form_fields(),
        vec![
            pair("enrollment_term_id", "2"),
            pair("include_deleted", "false"),
            pair("course_id", "2"),
            pair("order", "users"),
            pair("users", "true"),
            pair("accounts", "false"),
            pair("terms", "true"),
            pair("courses", "false"),
            pair("sections", "true"),
            pair("enrollments", "false"),
            pair("groups", "true"),
            pair("xlist", "false"),
            pair("sis_terms_csv", "1"),
            pair("sis_accounts_csv", "10"),
            pair("skip_message", "true"),
            pair("include_enrollment_state", "false"),
            pair("start_at", "2012-07-13T10:55:20-06:00"),
            pair("end_at", "2012-07-13T10:55:20-06:00"),
        ]
    );
}

#[test]
fn unset_fields_are_left_out_of_the_body() {
    let mut form = empty_form();
    form.course_id = Some(12);
    form.skip_message = Some(false);
    form.order = Some(String::new());
    let fields = form.form_fields();
    assert_eq!(fields, vec![pair("course_id", "12"), pair("order", ""), pair("skip_message", "false")]);
    assert!(fields.iter().all(|(key, _)| key != "users" && key != "start_at"));
}

#[test]
fn report_getters_return_the_fields() {
    let mut form = empty_form();
    form.course_id = Some(2);
    let record = Report::new(
        1,
        "sis_export_csv".to_string(),
        "https://example.com/some/path".to_string(),
        Some("attachment".to_string()),
        "complete".to_string(),
        "2013-12-01T23:59:00-06:00".to_string(),
        "2013-12-02T00:03:21-06:00".to_string(),
        "2013-12-02T00:03:21-06:00".to_string(),
        ReportParameters::from_form(form),
        100,
        12000,
    );
    assert_eq!(record.id(), 1);
    assert_eq!(record.report(), "sis_export_csv");
    assert_eq!(record.file_url(), "https://example.com/some/path");
    assert_eq!(record.attachment(), Some(&"attachment".to_string()));
    assert_eq!(record.status(), "complete");
    assert_eq!(record.created_at(), "2013-12-01T23:59:00-06:00");
    assert_eq!(record.started_at(), "2013-12-02T00:03:21-06:00");
    assert_eq!(record.ended_at(), "2013-12-02T00:03:21-06:00");
    assert_eq!(record.parameters().course_id(), Some(2));
    assert_eq!(record.parameters().users(), None);
    assert_eq!(record.progress(), 100);
    assert_eq!(record.current_line(), 12000);
}

#[test]
fn available_reports_are_listed_with_get() {
    let request = test_client().get_available_reports_by_account(8);
    assert_eq!(request.method(), Method::Get);
    assert_eq!(request.url(), "https://example.test/api/v1/accounts/8/reports");
    assert_eq!(request.authorization(), "Bearer abc");
    assert!(request.query_pairs().is_empty());
    assert!(request.form_fields().is_none());
}

#[test]
fn report_is_created_with_post_and_the_set_fields() {
    let mut form = empty_form();
    form.enrollment_term_id = Some(4);
    form.users = Some(true);
    let request = test_client().create_report(8, "grade_export_csv".to_string(), form);
    assert_eq!(request.method(), Method::Post);
    assert_eq!(request.url(), "https://example.test/api/v1/accounts/8/reports/grade_export_csv");
    assert_eq!(
        request.form_fields(),
        Some(&vec![pair("enrollment_term_id", "4"), pair("users", "true")])
    );
    assert!(request.query_pairs().is_empty());
}

#[test]
fn report_without_parameters_is_created_with_an_empty_body() {
    let request = test_client().create_report(8, "grade_export_csv".to_string(), empty_form());
    assert_eq!(request.method(), Method::Post);
    assert_eq!(request.form_fields(), Some(&Vec::new()));
}

#[test]
fn reports_of_a_type_are_listed_with_get() {
    let request = test_client().get_reports_by_type(8, "grade_export_csv".to_string());
    assert_eq!(request.method(), Method::Get);
    assert_eq!(request.url(), "https://example.test/api/v1/accounts/8/reports/grade_export_csv");
    assert!(request.query_pairs().is_empty());
    assert!(request.form_fields().is_none());
}

#[test]
fn one_report_is_read_with_get() {
    let request = test_client().get_report_by_id(8, "grade_export_csv".to_string(), 31);
    assert_eq!(request.method(), Method::Get);
    assert_eq!(request.url(), "https://example.test/api/v1/accounts/8/reports/grade_export_csv/31");
    assert!(request.query_pairs().is_empty());
    assert!(request.form_fields().is_none());
}

#[test]
fn one_report_is_deleted_with_delete() {
    let request = test_client().delete_report_by_id(8, "grade_export_csv".to_string(), 31);
    assert_eq!(request.method(), Method::Delete);
    assert_eq!(request.url(), "https://example.test/api/v1/accounts/8/reports/grade_export_csv/31");
    assert!(request.query_pairs().is_empty());
    assert!(request.form_fields().is_none());
}
