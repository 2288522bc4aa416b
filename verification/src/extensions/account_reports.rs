//! Account reports: the records, the form that asks for a report, and the
//! requests of the account reports API.

use vstd::prelude::*;
use crate::canvas_client::{CanvasClient, CanvasClientView};
use crate::request::{present, present_pairs, Method, Request};
use crate::text::{
    bool_opt, bool_option, decimal, decimal_opt, decimal_option, decimal_string, text_option,
};

verus! {

/// A report that was asked for, with the state it is in.
pub struct Report {
    /// The unique identifier for the report.
    id: u64,
    /// The type of report.
    report: String,
    /// The url to the report download.
    file_url: String,
    /// The attachment api object of the report. Only available after the report
    /// has completed.
    attachment: Option<String>,
    /// The status of the report
    status: String,
    /// The date and time the report was created.
    created_at: String,
    /// The date and time the report started processing.
    started_at: String,
    /// The date and time the report finished processing.
    ended_at: String,
    /// The report parameters.
    parameters: ReportParameters,
    /// The progress of the report
    progress: u8,
    /// This is the current line count being written to the report. It updates
    /// every 1000 records.
    current_line: u64,
}

/// What a [`Report`] holds.
pub struct ReportView {
    pub id: u64,
    pub report: Seq<char>,
    pub file_url: Seq<char>,
    pub attachment: Option<Seq<char>>,
    pub status: Seq<char>,
    pub created_at: Seq<char>,
    pub started_at: Seq<char>,
    pub ended_at: Seq<char>,
    pub parameters: ReportParametersView,
    pub progress: u8,
    pub current_line: u64,
}

impl View for Report {
    type V = ReportView;

    closed spec fn view(&self) -> ReportView {
        ReportView {
            id: self.id,
            report: self.report@,
            file_url: self.file_url@,
            attachment: self.attachment.deep_view(),
            status: self.status@,
            created_at: self.created_at@,
            started_at: self.started_at@,
            ended_at: self.ended_at@,
            parameters: self.parameters@,
            progress: self.progress,
            current_line: self.current_line,
        }
    }
}

impl Report {
    /// A report record with the given fields, in the order of their
    /// declaration.
    pub fn new(
        id: u64,
        report: String,
        file_url: String,
        attachment: Option<String>,
        status: String,
        created_at: String,
        started_at: String,
        ended_at: String,
        parameters: ReportParameters,
        progress: u8,
        current_line: u64,
    ) -> (record: Report)
        ensures
            record@ == (ReportView {
                id,
                report: report@,
                file_url: file_url@,
                attachment: attachment.deep_view(),
                status: status@,
                created_at: created_at@,
                started_at: started_at@,
                ended_at: ended_at@,
                parameters: parameters@,
                progress,
                current_line,
            }),
    {
        Report {
            id,
            report,
            file_url,
            attachment,
            status,
            created_at,
            started_at,
            ended_at,
            parameters,
            progress,
            current_line,
        }
    }

    /// The unique identifier for the report.
    pub fn id(&self) -> (id: u64)
        ensures
            id == self@.id,
    {
        self.id
    }

    /// The type of report.
    pub fn report(&self) -> (report: &str)
        ensures
            report@ == self@.report,
    {
        self.report.as_str()
    }

    /// The url to the report download.
    pub fn file_url(&self) -> (url: &str)
        ensures
            url@ == self@.file_url,
    {
        self.file_url.as_str()
    }

    /// The attachment api object of the report. Only available after the report
    /// has completed.
    pub fn attachment(&self) -> (attachment: Option<&String>)
        ensures
            attachment.deep_view() == self@.attachment,
    {
        self.attachment.as_ref()
    }

    /// The status of the report
    pub fn status(&self) -> (status: &str)
        ensures
            status@ == self@.status,
    {
        self.status.as_str()
    }

    /// The date and time the report was created.
    pub fn created_at(&self) -> (created_at: &str)
        ensures
            created_at@ == self@.created_at,
    {
        self.created_at.as_str()
    }

    /// The date and time the report started processing.
    pub fn started_at(&self) -> (started_at: &str)
        ensures
            started_at@ == self@.started_at,
    {
        self.started_at.as_str()
    }

    /// The date and time the report finished processing.
    pub fn ended_at(&self) -> (ended_at: &str)
        ensures
            ended_at@ == self@.ended_at,
    {
        self.ended_at.as_str()
    }

    /// The report parameters.
    pub fn parameters(&self) -> (parameters: &ReportParameters)
        ensures
            parameters@ == self@.parameters,
    {
        &self.parameters
    }

    /// The progress of the report
    pub fn progress(&self) -> (progress: u8)
        ensures
            progress == self@.progress,
    {
        self.progress
    }

    /// This is the current line count being written to the report. It updates
    /// every 1000 records.
    pub fn current_line(&self) -> (line: u64)
        ensures
            line == self@.current_line,
    {
        self.current_line
    }
}

/// The parameters that a report was run with. Each of them may be absent.
pub struct ReportParameters {
    /// The canvas id of the term to get grades from.
    enrollment_term_id: Option<u64>,
    /// If true, deleted objects will be included. If false, deleted objects
    /// will be omitted.
    include_deleted: Option<bool>,
    /// The id of the course to report on.
    course_id: Option<u64>,
    /// The sort order for the csv, Options: 'users', 'courses', 'outcomes'.
    order: Option<String>,
    /// If true, user data will be included. If false, user data will be omitted.
    users: Option<bool>,
    /// If true, account data will be included. If false, account data will be
    /// omitted.
    accounts: Option<bool>,
    /// If true, term data will be included. If false, term data will be omitted.
    terms: Option<bool>,
    /// If true, course data will be included. If false, course data will be omitted.
    courses: Option<bool>,
    /// If true, section data will be included. If false, section data will be
    /// omitted.
    sections: Option<bool>,
    /// If true, enrollment data will be included. If false, enrollment data
    /// will be omitted.
    enrollments: Option<bool>,
    /// If true, group data will be included. If false, group data will be omitted.
    groups: Option<bool>,
    /// If true, data for crosslisted courses will be included. If false, data
    /// for crosslisted courses will be omitted.
    xlist: Option<bool>,
    sis_terms_csv: Option<u64>,
    sis_accounts_csv: Option<u64>,
    /// If true, enrollment state will be included. If false, enrollment state
    /// will be omitted. Defaults to false.
    include_enrollment_state: Option<bool>,
    /// The beginning date for submissions. Max time range is 2 weeks.
    start_at: Option<String>,
    /// The end date for submissions. Max time range is 2 weeks.
    end_at: Option<String>,
}

/// What a [`ReportParameters`] holds.
pub struct ReportParametersView {
    pub enrollment_term_id: Option<u64>,
    pub include_deleted: Option<bool>,
    pub course_id: Option<u64>,
    pub order: Option<Seq<char>>,
    pub users: Option<bool>,
    pub accounts: Option<bool>,
    pub terms: Option<bool>,
    pub courses: Option<bool>,
    pub sections: Option<bool>,
    pub enrollments: Option<bool>,
    pub groups: Option<bool>,
    pub xlist: Option<bool>,
    pub sis_terms_csv: Option<u64>,
    pub sis_accounts_csv: Option<u64>,
    pub include_enrollment_state: Option<bool>,
    pub start_at: Option<Seq<char>>,
    pub end_at: Option<Seq<char>>,
}

impl ReportParametersView {
    /// The parameters of which none is set.
    pub open spec fn empty() -> ReportParametersView {
        ReportParametersView {
            enrollment_term_id: None,
            include_deleted: None,
            course_id: None,
            order: None,
            users: None,
            accounts: None,
            terms: None,
            courses: None,
            sections: None,
            enrollments: None,
            groups: None,
            xlist: None,
            sis_terms_csv: None,
            sis_accounts_csv: None,
            include_enrollment_state: None,
            start_at: None,
            end_at: None,
        }
    }

    /// The form that asks for a report with these parameters. It says
    /// nothing on whether the user is to be sent a message.
    pub open spec fn form(self) -> CreateReportFormView {
        CreateReportFormView {
            enrollment_term_id: self.enrollment_term_id,
            include_deleted: self.include_deleted,
            course_id: self.course_id,
            order: self.order,
            users: self.users,
            accounts: self.accounts,
            terms: self.terms,
            courses: self.courses,
            sections: self.sections,
            enrollments: self.enrollments,
            groups: self.groups,
            xlist: self.xlist,
            sis_terms_csv: self.sis_terms_csv,
            sis_accounts_csv: self.sis_accounts_csv,
            skip_message: None,
            include_enrollment_state: self.include_enrollment_state,
            start_at: self.start_at,
            end_at: self.end_at,
        }
    }
}

impl View for ReportParameters {
    type V = ReportParametersView;

    closed spec fn view(&self) -> ReportParametersView {
        ReportParametersView {
            enrollment_term_id: self.enrollment_term_id,
            include_deleted: self.include_deleted,
            course_id: self.course_id,
            order: self.order.deep_view(),
            users: self.users,
            accounts: self.accounts,
            terms: self.terms,
            courses: self.courses,
            sections: self.sections,
            enrollments: self.enrollments,
            groups: self.groups,
            xlist: self.xlist,
            sis_terms_csv: self.sis_terms_csv,
            sis_accounts_csv: self.sis_accounts_csv,
            include_enrollment_state: self.include_enrollment_state,
            start_at: self.start_at.deep_view(),
            end_at: self.end_at.deep_view(),
        }
    }
}

impl ReportParameters {
    /// The canvas id of the term to get grades from.
    pub fn enrollment_term_id(&self) -> (value: Option<u64>)
        ensures
            value == self@.enrollment_term_id,
    {
        self.enrollment_term_id
    }

    /// If true, deleted objects will be included. If false, deleted objects
    /// will be omitted.
    pub fn include_deleted(&self) -> (value: Option<bool>)
        ensures
            value == self@.include_deleted,
    {
        self.include_deleted
    }

    /// The id of the course to report on.
    pub fn course_id(&self) -> (value: Option<u64>)
        ensures
            value == self@.course_id,
    {
        self.course_id
    }

    /// The sort order for the csv, Options: 'users', 'courses', 'outcomes'.
    pub fn order(&self) -> (value: Option<&String>)
        ensures
            value.deep_view() == self@.order,
    {
        self.order.as_ref()
    }

    /// If true, user data will be included. If false, user data will be omitted.
    pub fn users(&self) -> (value: Option<bool>)
        ensures
            value == self@.users,
    {
        self.users
    }

    /// If true, account data will be included. If false, account data will be
    /// omitted.
    pub fn accounts(&self) -> (value: Option<bool>)
        ensures
            value == self@.accounts,
    {
        self.accounts
    }

    /// If true, term data will be included. If false, term data will be omitted.
    pub fn terms(&self) -> (value: Option<bool>)
        ensures
            value == self@.terms,
    {
        self.terms
    }

    /// If true, course data will be included. If false, course data will be omitted.
    pub fn courses(&self) -> (value: Option<bool>)
        ensures
            value == self@.courses,
    {
        self.courses
    }

    /// If true, section data will be included. If false, section data will be
    /// omitted.
    pub fn sections(&self) -> (value: Option<bool>)
        ensures
            value == self@.sections,
    {
        self.sections
    }

    /// If true, enrollment data will be included. If false, enrollment data
    /// will be omitted.
    pub fn enrollments(&self) -> (value: Option<bool>)
        ensures
            value == self@.enrollments,
    {
        self.enrollments
    }

    /// If true, group data will be included. If false, group data will be omitted.
    pub fn groups(&self) -> (value: Option<bool>)
        ensures
            value == self@.groups,
    {
        self.groups
    }

    /// If true, data for crosslisted courses will be included. If false, data
    /// for crosslisted courses will be omitted.
    pub fn xlist(&self) -> (value: Option<bool>)
        ensures
            value == self@.xlist,
    {
        self.xlist
    }

    pub fn sis_terms_csv(&self) -> (value: Option<u64>)
        ensures
            value == self@.sis_terms_csv,
    {
        self.sis_terms_csv
    }

    pub fn sis_accounts_csv(&self) -> (value: Option<u64>)
        ensures
            value == self@.sis_accounts_csv,
    {
        self.sis_accounts_csv
    }

    /// If true, enrollment state will be included. If false, enrollment state
    /// will be omitted. Defaults to false.
    pub fn include_enrollment_state(&self) -> (value: Option<bool>)
        ensures
            value == self@.include_enrollment_state,
    {
        self.include_enrollment_state
    }

    /// The beginning date for submissions. Max time range is 2 weeks.
    pub fn start_at(&self) -> (value: Option<&String>)
        ensures
            value.deep_view() == self@.start_at,
    {
        self.start_at.as_ref()
    }

    /// The end date for submissions. Max time range is 2 weeks.
    pub fn end_at(&self) -> (value: Option<&String>)
        ensures
            value.deep_view() == self@.end_at,
    {
        self.end_at.as_ref()
    }

    /// Creates a new empty ReportParameters.
    pub fn new() -> (parameters: Self)
        ensures
            parameters@ == ReportParametersView::empty(),
    {
        Self {
            enrollment_term_id: None,
            include_deleted: None,
            course_id: None,
            order: None,
            users: None,
            accounts: None,
            terms: None,
            courses: None,
            sections: None,
            enrollments: None,
            groups: None,
            xlist: None,
            sis_terms_csv: None,
            sis_accounts_csv: None,
            include_enrollment_state: None,
            start_at: None,
            end_at: None,
        }
    }

    /// The parameters that a form carries. Whether the form asks for a
    /// message to the user is not one of them.
    pub fn from_form(form: CreateReportForm) -> (parameters: Self)
        ensures
            parameters@ == form@.parameters(),
    {
        Self {
            enrollment_term_id: form.enrollment_term_id,
            include_deleted: form.include_deleted,
            course_id: form.course_id,
            order: form.order,
            users: form.users,
            accounts: form.accounts,
            terms: form.terms,
            courses: form.courses,
            sections: form.sections,
            enrollments: form.enrollments,
            groups: form.groups,
            xlist: form.xlist,
            sis_terms_csv: form.sis_terms_csv,
            sis_accounts_csv: form.sis_accounts_csv,
            include_enrollment_state: form.include_enrollment_state,
            start_at: form.start_at,
            end_at: form.end_at,
        }
    }
}

impl Default for ReportParameters {
    fn default() -> (parameters: Self)
        ensures
            parameters@ == ReportParametersView::empty(),
    {
        ReportParameters::new()
    }
}

/// The form that asks for a report: the parameters of the report, and
/// whether the user is to be spared the message that it is done. Each field
/// may be absent.
pub struct CreateReportForm {
    pub enrollment_term_id: Option<u64>,
    pub include_deleted: Option<bool>,
    pub course_id: Option<u64>,
    pub order: Option<String>,
    pub users: Option<bool>,
    pub accounts: Option<bool>,
    pub terms: Option<bool>,
    pub courses: Option<bool>,
    pub sections: Option<bool>,
    pub enrollments: Option<bool>,
    pub groups: Option<bool>,
    pub xlist: Option<bool>,
    pub sis_terms_csv: Option<u64>,
    pub sis_accounts_csv: Option<u64>,
    pub skip_message: Option<bool>,
    pub include_enrollment_state: Option<bool>,
    pub start_at: Option<String>,
    pub end_at: Option<String>,
}

/// What a [`CreateReportForm`] holds.
pub struct CreateReportFormView {
    pub enrollment_term_id: Option<u64>,
    pub include_deleted: Option<bool>,
    pub course_id: Option<u64>,
    pub order: Option<Seq<char>>,
    pub users: Option<bool>,
    pub accounts: Option<bool>,
    pub terms: Option<bool>,
    pub courses: Option<bool>,
    pub sections: Option<bool>,
    pub enrollments: Option<bool>,
    pub groups: Option<bool>,
    pub xlist: Option<bool>,
    pub sis_terms_csv: Option<u64>,
    pub sis_accounts_csv: Option<u64>,
    pub skip_message: Option<bool>,
    pub include_enrollment_state: Option<bool>,
    pub start_at: Option<Seq<char>>,
    pub end_at: Option<Seq<char>>,
}

impl CreateReportFormView {
    /// The fields of the form under their names, in the order of their
    /// declaration, each with its text if it is set: a number in decimal
    /// notation, a boolean as `true` or `false`, a text as it is.
    pub open spec fn named(self) -> Seq<(Seq<char>, Option<Seq<char>>)> {
        seq![
            ("enrollment_term_id"@, decimal_opt(self.enrollment_term_id)),
            ("include_deleted"@, bool_opt(self.include_deleted)),
            ("course_id"@, decimal_opt(self.course_id)),
            ("order"@, self.order),
            ("users"@, bool_opt(self.users)),
            ("accounts"@, bool_opt(self.accounts)),
            ("terms"@, bool_opt(self.terms)),
            ("courses"@, bool_opt(self.courses)),
            ("sections"@, bool_opt(self.sections)),
            ("enrollments"@, bool_opt(self.enrollments)),
            ("groups"@, bool_opt(self.groups)),
            ("xlist"@, bool_opt(self.xlist)),
            ("sis_terms_csv"@, decimal_opt(self.sis_terms_csv)),
            ("sis_accounts_csv"@, decimal_opt(self.sis_accounts_csv)),
            ("skip_message"@, bool_opt(self.skip_message)),
            ("include_enrollment_state"@, bool_opt(self.include_enrollment_state)),
            ("start_at"@, self.start_at),
            ("end_at"@, self.end_at),
        ]
    }

    /// The form body: the fields that are set, in the order of their
    /// declaration. A field that is not set is left out.
    pub open spec fn fields(self) -> Seq<(Seq<char>, Seq<char>)> {
        present_pairs(self.named())
    }

    /// The report parameters that the form carries.
    pub open spec fn parameters(self) -> ReportParametersView {
        ReportParametersView {
            enrollment_term_id: self.enrollment_term_id,
            include_deleted: self.include_deleted,
            course_id: self.course_id,
            order: self.order,
            users: self.users,
            accounts: self.accounts,
            terms: self.terms,
            courses: self.courses,
            sections: self.sections,
            enrollments: self.enrollments,
            groups: self.groups,
            xlist: self.xlist,
            sis_terms_csv: self.sis_terms_csv,
            sis_accounts_csv: self.sis_accounts_csv,
            include_enrollment_state: self.include_enrollment_state,
            start_at: self.start_at,
            end_at: self.end_at,
        }
    }
}

impl View for CreateReportForm {
    type V = CreateReportFormView;

    open spec fn view(&self) -> CreateReportFormView {
        CreateReportFormView {
            enrollment_term_id: self.enrollment_term_id,
            include_deleted: self.include_deleted,
            course_id: self.course_id,
            order: self.order.deep_view(),
            users: self.users,
            accounts: self.accounts,
            terms: self.terms,
            courses: self.courses,
            sections: self.sections,
            enrollments: self.enrollments,
            groups: self.groups,
            xlist: self.xlist,
            sis_terms_csv: self.sis_terms_csv,
            sis_accounts_csv: self.sis_accounts_csv,
            skip_message: self.skip_message,
            include_enrollment_state: self.include_enrollment_state,
            start_at: self.start_at.deep_view(),
            end_at: self.end_at.deep_view(),
        }
    }
}

impl CreateReportForm {
    /// The fields of the form under their names, in the order of their
    /// declaration, each with its text if it is set.
    pub fn named(&self) -> (named: Vec<(String, Option<String>)>)
        ensures
            named.deep_view() == self@.named(),
    {
        let mut named: Vec<(String, Option<String>)> = Vec::new();
        named.push((String::from_str("enrollment_term_id"), decimal_option(self.enrollment_term_id)));
        named.push((String::from_str("include_deleted"), bool_option(self.include_deleted)));
        named.push((String::from_str("course_id"), decimal_option(self.course_id)));
        named.push((String::from_str("order"), text_option(&self.order)));
        named.push((String::from_str("users"), bool_option(self.users)));
        named.push((String::from_str("accounts"), bool_option(self.accounts)));
        named.push((String::from_str("terms"), bool_option(self.terms)));
        named.push((String::from_str("courses"), bool_option(self.courses)));
        named.push((String::from_str("sections"), bool_option(self.sections)));
        named.push((String::from_str("enrollments"), bool_option(self.enrollments)));
        named.push((String::from_str("groups"), bool_option(self.groups)));
        named.push((String::from_str("xlist"), bool_option(self.xlist)));
        named.push((String::from_str("sis_terms_csv"), decimal_option(self.sis_terms_csv)));
        named.push((String::from_str("sis_accounts_csv"), decimal_option(self.sis_accounts_csv)));
        named.push((String::from_str("skip_message"), bool_option(self.skip_message)));
        named.push((String::from_str("include_enrollment_state"), bool_option(self.include_enrollment_state)));
        named.push((String::from_str("start_at"), text_option(&self.start_at)));
        named.push((String::from_str("end_at"), text_option(&self.end_at)));
        named
    }

    /// The form body: the fields that are set, in the order of their
    /// declaration. A field that is not set is left out.
    pub fn form_fields(&self) -> (fields: Vec<(String, String)>)
        ensures
            fields.deep_view() == self@.fields(),
    {
        present(&self.named())
    }
}

impl From<ReportParameters> for CreateReportForm {
    /// The form that asks for a report with these parameters. It says
    /// nothing on whether the user is to be sent a message.
    fn from(value: ReportParameters) -> (form: CreateReportForm)
        ensures
            form@ == value@.form(),
    {
        Self {
            accounts: value.accounts,
            course_id: value.course_id,
            courses: value.courses,
            end_at: value.end_at,
            enrollment_term_id: value.enrollment_term_id,
            enrollments: value.enrollments,
            groups: value.groups,
            include_deleted: value.include_deleted,
            include_enrollment_state: value.include_enrollment_state,
            order: value.order,
            sections: value.sections,
            sis_accounts_csv: value.sis_accounts_csv,
            sis_terms_csv: value.sis_terms_csv,
            skip_message: None,
            start_at: value.start_at,
            terms: value.terms,
            users: value.users,
            xlist: value.xlist,
        }
    }
}

impl vstd::std_specs::convert::FromSpecImpl<ReportParameters> for CreateReportForm {
    open spec fn obeys_from_spec() -> bool {
        true
    }

    closed spec fn from_spec(value: ReportParameters) -> CreateReportForm {
        CreateReportForm {
            enrollment_term_id: value.enrollment_term_id,
            include_deleted: value.include_deleted,
            course_id: value.course_id,
            order: value.order,
            users: value.users,
            accounts: value.accounts,
            terms: value.terms,
            courses: value.courses,
            sections: value.sections,
            enrollments: value.enrollments,
            groups: value.groups,
            xlist: value.xlist,
            sis_terms_csv: value.sis_terms_csv,
            sis_accounts_csv: value.sis_accounts_csv,
            skip_message: None,
            include_enrollment_state: value.include_enrollment_state,
            start_at: value.start_at,
            end_at: value.end_at,
        }
    }
}

/// A form made from report parameters carries those parameters again, and
/// asks for nothing on the message.
pub proof fn lemma_form_keeps_parameters(parameters: ReportParametersView)
    ensures
        parameters.form().parameters() == parameters,
        parameters.form().skip_message is None,
{
}

/// Path of the reports of an account.
pub open spec fn reports_path(account_id: u64) -> Seq<char> {
    "v1/accounts/"@ + decimal(account_id as nat) + "/reports"@
}

/// Path of the reports of one type of an account.
pub open spec fn reports_by_type_path(account_id: u64, report_type: Seq<char>) -> Seq<char> {
    "v1/accounts/"@ + decimal(account_id as nat) + "/reports/"@ + report_type
}

/// Path of one report of an account.
pub open spec fn report_path(account_id: u64, report_type: Seq<char>, report_id: u64) -> Seq<char> {
    "v1/accounts/"@ + decimal(account_id as nat) + "/reports/"@ + report_type + "/"@ + decimal(
        report_id as nat,
    )
}

/// The requests of the account reports API.
///
/// Each method composes the request of one remote action; sending it and
/// decoding the answer is left to the caller.
pub trait AccountReportsExt: View<V = CanvasClientView> {
    /// Lists the reports that can be run for the account, with the
    /// parameters of each.
    fn get_available_reports_by_account(&self, account_id: u64) -> (request: Request)
        ensures
            request@ == self@.request(Method::Get, reports_path(account_id)),
    ;

    /// Generates a report instance for the account. `report_type` must be
    /// one of the available report names, which
    /// [`AccountReportsExt::get_available_reports_by_account`] lists; the
    /// server is the one to refuse another.
    ///
    /// A `CreateReportForm` can be made from a `ReportParameters` by
    /// `CreateReportForm::from`. The fields of the form that are not set are
    /// not sent.
    fn create_report(
        &self,
        account_id: u64,
        report_type: String,
        parameters: CreateReportForm,
    ) -> (request: Request)
        ensures
            request@ == self@.request(
                Method::Post,
                reports_by_type_path(account_id, report_type@),
            ).with_form(parameters@.fields()),
    ;

    /// Shows all reports that have been run for the account of a specific type.
    fn get_reports_by_type(&self, account_id: u64, report_type: String) -> (request: Request)
        ensures
            request@ == self@.request(Method::Get, reports_by_type_path(account_id, report_type@)),
    ;

    /// Returns the status of a report.
    fn get_report_by_id(
        &self,
        account_id: u64,
        report_type: String,
        report_id: u64,
    ) -> (request: Request)
        ensures
            request@ == self@.request(
                Method::Get,
                report_path(account_id, report_type@, report_id),
            ),
    ;

    /// Deletes a generated report instance.
    fn delete_report_by_id(
        &self,
        account_id: u64,
        report_type: String,
        report_id: u64,
    ) -> (request: Request)
        ensures
            request@ == self@.request(
                Method::Delete,
                report_path(account_id, report_type@, report_id),
            ),
    ;
}

fn reports_by_type_path_string(account_id: u64, report_type: &str) -> (path: String)
    ensures
        path@ == reports_by_type_path(account_id, report_type@),
{
    let mut path = String::from_str("v1/accounts/");
    path.append(decimal_string(account_id).as_str());
    path.append("/reports/");
    path.append(report_type);
    path
}

fn report_path_string(account_id: u64, report_type: &str, report_id: u64) -> (path: String)
    ensures
        path@ == report_path(account_id, report_type@, report_id),
{
    let mut path = reports_by_type_path_string(account_id, report_type);
    path.append("/");
    path.append(decimal_string(report_id).as_str());
    path
}

impl AccountReportsExt for CanvasClient {
    fn get_available_reports_by_account(&self, account_id: u64) -> (request: Request) {
        let mut path = String::from_str("v1/accounts/");
        path.append(decimal_string(account_id).as_str());
        path.append("/reports");
        self.make_query(path.as_str())
    }

    fn create_report(
        &self,
        account_id: u64,
        report_type: String,
        parameters: CreateReportForm,
    ) -> (request: Request) {
        self.make_post(reports_by_type_path_string(account_id, report_type.as_str()).as_str()).form(
            parameters.form_fields(),
        )
    }

    fn get_reports_by_type(&self, account_id: u64, report_type: String) -> (request: Request) {
        self.make_query(reports_by_type_path_string(account_id, report_type.as_str()).as_str())
    }

    fn get_report_by_id(
        &self,
        account_id: u64,
        report_type: String,
        report_id: u64,
    ) -> (request: Request) {
        self.make_query(report_path_string(account_id, report_type.as_str(), report_id).as_str())
    }

    fn delete_report_by_id(
        &self,
        account_id: u64,
        report_type: String,
        report_id: u64,
    ) -> (request: Request) {
        self.make_delete(report_path_string(account_id, report_type.as_str(), report_id).as_str())
    }
}

} // verus!
