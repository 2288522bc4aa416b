//! Account calendars: the records, the two wire forms of a visibility, and
//! the requests of the account calendars API.

use vstd::prelude::*;
use crate::canvas_client::{CanvasClient, CanvasClientView};
use crate::request::{Method, Request};
use crate::text::{bool_string, bool_text, decimal, decimal_string};

verus! {

/// The calendar of an account.
#[derive(Debug)]
pub struct AccountCalendar {
    /// The ID of the account associated with this calendar.
    id: u64,
    /// The name of the account associated with this calendar.
    name: String,
    /// The account's parent ID. `None` if this is the root account.
    parent_account_id: Option<u64>,
    /// The ID of the root account. `None` if this is the root account.
    root_account_id: Option<u64>,
    /// Whether this calendar is visible to users.
    visible: bool,
    /// Number of this account's direct sub-accounts.
    sub_account_count: u64,
    /// Asset string of the account.
    asset_string: String,
    /// URL to get full detailed events.
    calendar_event_url: String,
    /// Whether the user can create calendar events
    can_create_calendar_events: bool,
    /// API path to create events for the account.
    create_calendar_event_url: String,
    /// URL to open the more options event editor.
    new_calendar_event_url: String,
}

/// What an [`AccountCalendar`] holds.
pub struct AccountCalendarView {
    pub id: u64,
    pub name: Seq<char>,
    pub parent_account_id: Option<u64>,
    pub root_account_id: Option<u64>,
    pub visible: bool,
    pub sub_account_count: u64,
    pub asset_string: Seq<char>,
    pub calendar_event_url: Seq<char>,
    pub can_create_calendar_events: bool,
    pub create_calendar_event_url: Seq<char>,
    pub new_calendar_event_url: Seq<char>,
}

impl View for AccountCalendar {
    type V = AccountCalendarView;

    closed spec fn view(&self) -> AccountCalendarView {
        AccountCalendarView {
            id: self.id,
            name: self.name@,
            parent_account_id: self.parent_account_id,
            root_account_id: self.root_account_id,
            visible: self.visible,
            sub_account_count: self.sub_account_count,
            asset_string: self.asset_string@,
            calendar_event_url: self.calendar_event_url@,
            can_create_calendar_events: self.can_create_calendar_events,
            create_calendar_event_url: self.create_calendar_event_url@,
            new_calendar_event_url: self.new_calendar_event_url@,
        }
    }
}

impl AccountCalendar {
    /// A calendar record with the given fields, in the order of their
    /// declaration.
    pub fn new(
        id: u64,
        name: String,
        parent_account_id: Option<u64>,
        root_account_id: Option<u64>,
        visible: bool,
        sub_account_count: u64,
        asset_string: String,
        calendar_event_url: String,
        can_create_calendar_events: bool,
        create_calendar_event_url: String,
        new_calendar_event_url: String,
    ) -> (calendar: AccountCalendar)
        ensures
            calendar@ == (AccountCalendarView {
                id,
                name: name@,
                parent_account_id,
                root_account_id,
                visible,
                sub_account_count,
                asset_string: asset_string@,
                calendar_event_url: calendar_event_url@,
                can_create_calendar_events,
                create_calendar_event_url: create_calendar_event_url@,
                new_calendar_event_url: new_calendar_event_url@,
            }),
    {
        AccountCalendar {
            id,
            name,
            parent_account_id,
            root_account_id,
            visible,
            sub_account_count,
            asset_string,
            calendar_event_url,
            can_create_calendar_events,
            create_calendar_event_url,
            new_calendar_event_url,
        }
    }

    /// The ID of the account associated with this calendar.
    pub fn id(&self) -> (id: u64)
        ensures
            id == self@.id,
    {
        self.id
    }

    /// The name of the account associated with this calendar.
    pub fn name(&self) -> (name: &str)
        ensures
            name@ == self@.name,
    {
        self.name.as_str()
    }

    /// The account's parent ID. `None` if this is the root account.
    pub fn parent_account_id(&self) -> (id: Option<u64>)
        ensures
            id == self@.parent_account_id,
    {
        self.parent_account_id
    }

    /// The ID of the root account. `None` if this is the root account.
    pub fn root_account_id(&self) -> (id: Option<u64>)
        ensures
            id == self@.root_account_id,
    {
        self.root_account_id
    }

    /// Whether this calendar is visible to users.
    pub fn visible(&self) -> (visible: bool)
        ensures
            visible == self@.visible,
    {
        self.visible
    }

    /// Number of this account's direct sub-accounts.
    pub fn sub_account_count(&self) -> (count: u64)
        ensures
            count == self@.sub_account_count,
    {
        self.sub_account_count
    }

    /// Asset string of the account.
    pub fn asset_string(&self) -> (asset: &str)
        ensures
            asset@ == self@.asset_string,
    {
        self.asset_string.as_str()
    }

    /// URL to get full detailed events.
    pub fn calendar_event_url(&self) -> (url: &str)
        ensures
            url@ == self@.calendar_event_url,
    {
        self.calendar_event_url.as_str()
    }

    /// Whether the user can create calendar events
    pub fn can_create_calendar_events(&self) -> (can: bool)
        ensures
            can == self@.can_create_calendar_events,
    {
        self.can_create_calendar_events
    }

    /// API path to create events for the account.
    pub fn create_calendar_event_url(&self) -> (url: &str)
        ensures
            url@ == self@.create_calendar_event_url,
    {
        self.create_calendar_event_url.as_str()
    }

    /// URL to open the more options event editor.
    pub fn new_calendar_event_url(&self) -> (url: &str)
        ensures
            url@ == self@.new_calendar_event_url,
    {
        self.new_calendar_event_url.as_str()
    }
}

/// Whether an account calendar is shown to users.
///
/// The API writes it in two ways: as a word where it filters a listing, and
/// as a boolean where it is set. Each request picks the form its endpoint
/// reads.
#[derive(Clone, Copy, Debug, PartialEq, Eq, Structural)]
pub enum Visibility {
    Visible,
    Hidden,
}

impl Visibility {
    /// The boolean form: `true` for [`Visibility::Visible`].
    pub open spec fn spec_as_bool(&self) -> bool {
        *self == Visibility::Visible
    }

    /// The word form: `visible` or `hidden`.
    pub open spec fn text(&self) -> Seq<char> {
        match self {
            Visibility::Visible => "visible"@,
            Visibility::Hidden => "hidden"@,
        }
    }

    /// The visibility that a boolean stands for.
    pub open spec fn spec_from_bool(visible: bool) -> Visibility {
        if visible {
            Visibility::Visible
        } else {
            Visibility::Hidden
        }
    }

    /// The boolean form, as the endpoints that set a visibility read it.
    #[verifier::when_used_as_spec(spec_as_bool)]
    pub fn as_bool(&self) -> (visible: bool)
        ensures
            visible == self.spec_as_bool(),
    {
        match self {
            Visibility::Visible => true,
            Visibility::Hidden => false,
        }
    }

    /// The visibility that a boolean stands for, as the server reports it
    /// in [`AccountCalendar::visible`].
    pub fn from_bool(visible: bool) -> (visibility: Visibility)
        ensures
            visibility == Visibility::spec_from_bool(visible),
    {
        if visible {
            Visibility::Visible
        } else {
            Visibility::Hidden
        }
    }

    /// The word form, as the endpoints that filter by visibility read it.
    pub fn as_str(&self) -> (word: &'static str)
        ensures
            word@ == self.text(),
    {
        match self {
            Visibility::Visible => "visible",
            Visibility::Hidden => "hidden",
        }
    }
}

/// Writing a visibility as a boolean and reading the boolean back gives the
/// visibility that was written, and the same holds the other way round.
pub proof fn lemma_visibility_bool_round_trip(visibility: Visibility, visible: bool)
    ensures
        Visibility::spec_from_bool(visibility.spec_as_bool()) == visibility,
        Visibility::spec_from_bool(visible).spec_as_bool() == visible,
{
}

/// The visibility to give to one account's calendar in a bulk update.
pub struct AccountVisibility {
    /// The account's id.
    id: u64,
    /// Indicates the visibility of the account.
    visibility: Visibility,
}

/// What an [`AccountVisibility`] holds.
pub struct AccountVisibilityView {
    pub id: u64,
    pub visibility: Visibility,
}

impl AccountVisibilityView {
    /// The form fields that one entry of a bulk update contributes: its id,
    /// then its visibility in the boolean form.
    pub open spec fn fields(self) -> Seq<(Seq<char>, Seq<char>)> {
        seq![("id"@, decimal(self.id as nat)), ("visible"@, bool_text(self.visibility.spec_as_bool()))]
    }
}

impl View for AccountVisibility {
    type V = AccountVisibilityView;

    closed spec fn view(&self) -> AccountVisibilityView {
        AccountVisibilityView { id: self.id, visibility: self.visibility }
    }
}

impl AccountVisibility {
    /// For use in [`CalendarExt::set_many_account_calendars_visible`].
    ///
    /// `id` is the account's id, while `visibility` determines whether the
    /// account calendar is visible.
    pub fn new(id: u64, visibility: Visibility) -> (entry: AccountVisibility)
        ensures
            entry@ == (AccountVisibilityView { id, visibility }),
    {
        Self { id, visibility }
    }
}

/// The form body of a bulk update: the fields of each entry, entry after
/// entry in the order given.
pub open spec fn visibility_fields(entries: Seq<AccountVisibility>) -> Seq<(Seq<char>, Seq<char>)>
    decreases entries.len(),
{
    if entries.len() == 0 {
        seq![]
    } else {
        visibility_fields(entries.drop_last()) + entries.last()@.fields()
    }
}

/// Path of the calendars that the current user can see.
pub open spec fn calendars_path() -> Seq<char> {
    "v1/account_calendars"@
}

/// Path of one account's calendar.
pub open spec fn calendar_path(account_id: u64) -> Seq<char> {
    "v1/account_calendar/"@ + decimal(account_id as nat)
}

/// Path of the calendars of an account and of its sub-accounts.
pub open spec fn account_calendars_path(account_id: u64) -> Seq<char> {
    "v1/accounts/"@ + decimal(account_id as nat) + "/account_calendars"@
}

/// Path of the count of an account's visible calendars.
pub open spec fn visible_calendars_count_path(account_id: u64) -> Seq<char> {
    "v1/accounts/"@ + decimal(account_id as nat) + "/visible_calendars_count"@
}

/// The requests of the account calendars API.
///
/// Each method composes the request of one remote action; sending it and
/// decoding the answer is left to the caller.
pub trait CalendarExt: View<V = CanvasClientView> {
    /// Lists the account calendars available to the current user.
    ///
    /// The answer is an [`AccountCalendarsResponse`].
    fn all_calendars(&self) -> (request: Request)
        ensures
            request@ == self@.request(Method::Get, calendars_path()),
    ;

    /// Lists the account calendars available to the current user that match
    /// the search term. The server asks for a term of at least 2 characters;
    /// a shorter one is sent as it is.
    ///
    /// The answer is an [`AccountCalendarsResponse`].
    fn search_calendars(&self, search_term: &str) -> (request: Request)
        ensures
            request@ == self@.request(Method::Get, calendars_path()).with_param(
                "search_term"@,
                Some(search_term@),
            ),
    ;

    /// Gets the details of one account's calendar.
    ///
    /// The answer is an [`AccountCalendar`].
    fn calendar_by_account_id(&self, account_id: u64) -> (request: Request)
        ensures
            request@ == self@.request(Method::Get, calendar_path(account_id)),
    ;

    /// Sets an account calendar as hidden or visible.
    ///
    /// The answer is the new [`AccountCalendar`].
    fn set_account_calendar_visible(
        &self,
        account_id: u64,
        visibility: Visibility,
    ) -> (request: Request)
        ensures
            request@ == self@.request(Method::Put, calendar_path(account_id)).with_form(
                seq![("visible"@, bool_text(visibility.spec_as_bool()))],
            ),
    ;

    /// Sets the visibility of many calendars at once.
    ///
    /// The answer is an [`AccountCalendar`].
    fn set_many_account_calendars_visible(
        &self,
        account_id: u64,
        account_calendars: &[AccountVisibility],
    ) -> (request: Request)
        ensures
            request@ == self@.request(
                Method::Put,
                account_calendars_path(account_id),
            ).with_form(visibility_fields(account_calendars@)),
    ;

    /// Lists the calendars of the account and of its first level of
    /// sub-accounts that have the given visibility.
    ///
    /// The answer is an [`AllAccountCalendarsResponse`].
    fn all_account_calendars(&self, account_id: u64, filter: Visibility) -> (request: Request)
        ensures
            request@ == self@.request(
                Method::Get,
                account_calendars_path(account_id),
            ).with_param("filter"@, Some(filter.text())),
    ;

    /// Lists the calendars of the account and of its first level of
    /// sub-accounts that have the given visibility and match the search
    /// term.
    ///
    /// The answer is an [`AllAccountCalendarsResponse`].
    fn search_all_account_calendars(
        &self,
        account_id: u64,
        search_term: &str,
        filter: Visibility,
    ) -> (request: Request)
        ensures
            request@ == self@.request(
                Method::Get,
                account_calendars_path(account_id),
            ).with_param("search_term"@, Some(search_term@)).with_param(
                "filter"@,
                Some(filter.text()),
            ),
    ;

    /// Counts the visible calendars of an account.
    ///
    /// The answer is a [`CountAccountVisibleCalendarsResponse`].
    fn count_account_visible_calendars(&self, account_id: u64) -> (request: Request)
        ensures
            request@ == self@.request(
                Method::Get,
                visible_calendars_count_path(account_id),
            ),
    ;
}

fn calendar_path_string(account_id: u64) -> (path: String)
    ensures
        path@ == calendar_path(account_id),
{
    let mut path = String::from_str("v1/account_calendar/");
    path.append(decimal_string(account_id).as_str());
    path
}

fn account_calendars_path_string(account_id: u64) -> (path: String)
    ensures
        path@ == account_calendars_path(account_id),
{
    let mut path = String::from_str("v1/accounts/");
    path.append(decimal_string(account_id).as_str());
    path.append("/account_calendars");
    path
}

fn visibility_form(account_calendars: &[AccountVisibility]) -> (fields: Vec<(String, String)>)
    ensures
        fields.deep_view() == visibility_fields(account_calendars@),
{
    let ghost entries = account_calendars@;
    let mut fields: Vec<(String, String)> = Vec::new();
    let mut i: usize = 0;
    while i < account_calendars.len()
        invariant
            i <= account_calendars.len(),
            entries == account_calendars@,
            fields.deep_view() == visibility_fields(entries.take(i as int)),
        decreases account_calendars.len() - i,
    {
        assert(entries.take(i as int + 1).drop_last() =~= entries.take(i as int));
        let entry = &account_calendars[i];
        fields.push((String::from_str("id"), decimal_string(entry.id)));
        fields.push((String::from_str("visible"), bool_string(entry.visibility.as_bool())));
        i += 1;
    }
    assert(entries.take(i as int) =~= entries);
    fields
}

impl CalendarExt for CanvasClient {
    fn all_calendars(&self) -> (request: Request) {
        self.make_query("v1/account_calendars")
    }

    fn search_calendars(&self, search_term: &str) -> (request: Request) {
        self.make_query("v1/account_calendars").query(
            "search_term",
            Some(String::from_str(search_term)),
        )
    }

    fn calendar_by_account_id(&self, account_id: u64) -> (request: Request) {
        self.make_query(calendar_path_string(account_id).as_str())
    }

    fn set_account_calendar_visible(
        &self,
        account_id: u64,
        visibility: Visibility,
    ) -> (request: Request) {
        let mut fields: Vec<(String, String)> = Vec::new();
        fields.push((String::from_str("visible"), bool_string(visibility.as_bool())));
        assert(fields.deep_view() =~= seq![("visible"@, bool_text(visibility.spec_as_bool()))]);
        self.make_put(calendar_path_string(account_id).as_str()).form(fields)
    }

    fn set_many_account_calendars_visible(
        &self,
        account_id: u64,
        account_calendars: &[AccountVisibility],
    ) -> (request: Request) {
        self.make_put(account_calendars_path_string(account_id).as_str()).form(
            visibility_form(account_calendars),
        )
    }

    fn all_account_calendars(&self, account_id: u64, filter: Visibility) -> (request: Request) {
        self.make_query(account_calendars_path_string(account_id).as_str()).query(
            "filter",
            Some(String::from_str(filter.as_str())),
        )
    }

    fn search_all_account_calendars(
        &self,
        account_id: u64,
        search_term: &str,
        filter: Visibility,
    ) -> (request: Request) {
        self.make_query(account_calendars_path_string(account_id).as_str()).query(
            "search_term",
            Some(String::from_str(search_term)),
        ).query("filter", Some(String::from_str(filter.as_str())))
    }

    fn count_account_visible_calendars(&self, account_id: u64) -> (request: Request) {
        let mut path = String::from_str("v1/accounts/");
        path.append(decimal_string(account_id).as_str());
        path.append("/visible_calendars_count");
        self.make_query(path.as_str())
    }
}

/// The answer to a listing of the calendars available to the current user:
/// the calendars, nested under `account_calendars`.
pub struct AccountCalendarsResponse {
    pub account_calendars: Vec<AccountCalendar>,
}

impl AccountCalendarsResponse {
    /// Takes the calendars out of the envelope, as they are and in their
    /// order.
    pub fn into_account_calendars(self) -> (calendars: Vec<AccountCalendar>)
        ensures
            calendars == self.account_calendars,
    {
        self.account_calendars
    }
}

/// The answer to a listing of the calendars of an account and of its
/// sub-accounts: the calendars, nested under `account_calendars`.
pub struct AllAccountCalendarsResponse {
    pub account_calendars: Vec<AccountCalendar>,
}

impl AllAccountCalendarsResponse {
    /// Takes the calendars out of the envelope, as they are and in their
    /// order.
    pub fn into_account_calendars(self) -> (calendars: Vec<AccountCalendar>)
        ensures
            calendars == self.account_calendars,
    {
        self.account_calendars
    }
}

/// The answer to a count of visible calendars: the number, nested under
/// `count`.
pub struct CountAccountVisibleCalendarsResponse {
    pub count: u64,
}

impl CountAccountVisibleCalendarsResponse {
    /// Takes the number out of the envelope.
    pub fn into_count(self) -> (count: u64)
        ensures
            count == self.count,
    {
        self.count
    }
}

} // verus!
