//! What the statements of the listing and updating operations are made of:
//! which rows a query selects, how it is paged, and which columns an update
//! assigns.
use vstd::prelude::*;
use vstd::string::*;
use crate::dto::{ListAuditLogsQuery, ListEventsQuery, UpdateEventRequest, UpdateOrganizerRequest};
use crate::error::{AppError, AppErrorView};
use crate::policy::unit_result_view;

verus! {

/// The number of rows that a page holds at most: at least one.
pub open spec fn page_limit(limit: Option<i64>) -> Option<i64> {
    match limit {
        Some(l) => Some(if l < 1 {
            1i64
        } else {
            l
        }),
        None => None,
    }
}

/// The number of rows that a page holds at most.
pub fn effective_limit(limit: Option<i64>) -> (l: Option<i64>)
    ensures
        l == page_limit(limit),
{
    match limit {
        Some(l) => Some(if l < 1 {
            1
        } else {
            l
        }),
        None => None,
    }
}

/// The number of rows that a page skips: never negative.
pub open spec fn page_offset(offset: Option<i64>) -> Option<i64> {
    match offset {
        Some(o) => Some(if o < 0 {
            0i64
        } else {
            o
        }),
        None => None,
    }
}

/// The number of rows that a page skips.
pub fn effective_offset(offset: Option<i64>) -> (o: Option<i64>)
    ensures
        o == page_offset(offset),
{
    match offset {
        Some(o) => Some(if o < 0 {
            0
        } else {
            o
        }),
        None => None,
    }
}

/// Whether a query for events selects only those that start at `now` or
/// later.
pub fn upcoming_only(query: &ListEventsQuery) -> (only: bool)
    ensures
        only == (query.upcoming_only == Some(true)),
{
    match query.upcoming_only {
        Some(flag) => flag,
        None => false,
    }
}

/// Whether a query for events selects an event of `organizer_id` that starts
/// at `start`, asked at `now`.
pub open spec fn selects_event(q: ListEventsQuery, organizer_id: i64, start: i64, now: i64) -> bool {
    &&& q.organizer_id is Some ==> q.organizer_id == Some(organizer_id)
    &&& q.upcoming_only == Some(true) ==> start >= now
}

/// Whether a query for events selects an event of `organizer_id` that starts
/// at `start`, asked at `now`.
pub fn event_selected(query: &ListEventsQuery, organizer_id: i64, start: i64, now: i64) -> (selected: bool)
    ensures
        selected == selects_event(*query, organizer_id, start, now),
{
    let of_organizer = match query.organizer_id {
        Some(id) => id == organizer_id,
        None => true,
    };
    of_organizer && (!upcoming_only(query) || start >= now)
}

/// Whether a query for audit entries selects an entry for `event_id` of
/// `organizer_id`.
pub open spec fn selects_entry(q: ListAuditLogsQuery, event_id: i64, organizer_id: i64) -> bool {
    &&& q.event_id is Some ==> q.event_id == Some(event_id)
    &&& q.organizer_id is Some ==> q.organizer_id == Some(organizer_id)
}

/// Whether a query for audit entries selects an entry for `event_id` of
/// `organizer_id`.
pub fn entry_selected(query: &ListAuditLogsQuery, event_id: i64, organizer_id: i64) -> (selected: bool)
    ensures
        selected == selects_entry(*query, event_id, organizer_id),
{
    let of_event = match query.event_id {
        Some(id) => id == event_id,
        None => true,
    };
    let of_organizer = match query.organizer_id {
        Some(id) => id == organizer_id,
        None => true,
    };
    of_event && of_organizer
}

/// A column of an event that an update can assign.
#[derive(Clone, Copy, Debug, PartialEq, Eq, Structural)]
pub enum EventColumn {
    TitleDe,
    TitleEn,
    DescriptionDe,
    DescriptionEn,
    StartDateTime,
    EndDateTime,
    EventUrl,
    Location,
    PublishApp,
    PublishNewsletter,
    PublishInIcal,
    PublishWeb,
}

impl EventColumn {
    /// The name of the column.
    pub fn name(&self) -> (name: &'static str)
        ensures
            name@ == event_column_name(*self),
    {
        match self {
            EventColumn::TitleDe => "title_de",
            EventColumn::TitleEn => "title_en",
            EventColumn::DescriptionDe => "description_de",
            EventColumn::DescriptionEn => "description_en",
            EventColumn::StartDateTime => "start_date_time",
            EventColumn::EndDateTime => "end_date_time",
            EventColumn::EventUrl => "event_url",
            EventColumn::Location => "location",
            EventColumn::PublishApp => "publish_app",
            EventColumn::PublishNewsletter => "publish_newsletter",
            EventColumn::PublishInIcal => "publish_in_ical",
            EventColumn::PublishWeb => "publish_web",
        }
    }
}

pub open spec fn event_column_name(c: EventColumn) -> Seq<char> {
    match c {
        EventColumn::TitleDe => "title_de"@,
        EventColumn::TitleEn => "title_en"@,
        EventColumn::DescriptionDe => "description_de"@,
        EventColumn::DescriptionEn => "description_en"@,
        EventColumn::StartDateTime => "start_date_time"@,
        EventColumn::EndDateTime => "end_date_time"@,
        EventColumn::EventUrl => "event_url"@,
        EventColumn::Location => "location"@,
        EventColumn::PublishApp => "publish_app"@,
        EventColumn::PublishNewsletter => "publish_newsletter"@,
        EventColumn::PublishInIcal => "publish_in_ical"@,
        EventColumn::PublishWeb => "publish_web"@,
    }
}

/// A list with one more column at its end, if the request names the column.
pub open spec fn with_column<C>(list: Seq<C>, named: bool, column: C) -> Seq<C> {
    if named {
        list.push(column)
    } else {
        list
    }
}

/// The columns that an update of an event assigns: those that the request
/// names, in the order of the fields.
pub open spec fn event_columns(r: &UpdateEventRequest) -> Seq<EventColumn> {
    let c = Seq::<EventColumn>::empty();
    let c = with_column(c, r.title_de is Some, EventColumn::TitleDe);
    let c = with_column(c, r.title_en is Some, EventColumn::TitleEn);
    let c = with_column(c, r.description_de is Some, EventColumn::DescriptionDe);
    let c = with_column(c, r.description_en is Some, EventColumn::DescriptionEn);
    let c = with_column(c, r.start_date_time is Some, EventColumn::StartDateTime);
    let c = with_column(c, r.end_date_time is Some, EventColumn::EndDateTime);
    let c = with_column(c, r.event_url is Some, EventColumn::EventUrl);
    let c = with_column(c, r.location is Some, EventColumn::Location);
    let c = with_column(c, r.publish_app is Some, EventColumn::PublishApp);
    let c = with_column(c, r.publish_newsletter is Some, EventColumn::PublishNewsletter);
    let c = with_column(c, r.publish_in_ical is Some, EventColumn::PublishInIcal);
    with_column(c, r.publish_web is Some, EventColumn::PublishWeb)
}

fn add_column<C>(list: &mut Vec<C>, named: bool, column: C)
    ensures
        final(list)@ == with_column(old(list)@, named, column),
{
    if named {
        list.push(column);
    }
}

/// The columns that an update of an event assigns.
pub fn event_columns_to_update(request: &UpdateEventRequest) -> (columns: Vec<EventColumn>)
    ensures
        columns@ == event_columns(request),
        columns@.len() > 0 <==> request.names_a_field(),
{
    let mut columns: Vec<EventColumn> = Vec::new();
    add_column(&mut columns, request.title_de.is_some(), EventColumn::TitleDe);
    add_column(&mut columns, request.title_en.is_some(), EventColumn::TitleEn);
    add_column(&mut columns, request.description_de.is_some(), EventColumn::DescriptionDe);
    add_column(&mut columns, request.description_en.is_some(), EventColumn::DescriptionEn);
    add_column(&mut columns, request.start_date_time.is_some(), EventColumn::StartDateTime);
    add_column(&mut columns, request.end_date_time.is_some(), EventColumn::EndDateTime);
    add_column(&mut columns, request.event_url.is_some(), EventColumn::EventUrl);
    add_column(&mut columns, request.location.is_some(), EventColumn::Location);
    add_column(&mut columns, request.publish_app.is_some(), EventColumn::PublishApp);
    add_column(&mut columns, request.publish_newsletter.is_some(), EventColumn::PublishNewsletter);
    add_column(&mut columns, request.publish_in_ical.is_some(), EventColumn::PublishInIcal);
    add_column(&mut columns, request.publish_web.is_some(), EventColumn::PublishWeb);
    columns
}

/// A column of an organizer that an update can assign.
#[derive(Clone, Copy, Debug, PartialEq, Eq, Structural)]
pub enum OrganizerColumn {
    Name,
    DescriptionDe,
    DescriptionEn,
    WebsiteUrl,
    InstagramUrl,
    Location,
    LinkedinUrl,
    RegistrationNumber,
    NonProfit,
}

impl OrganizerColumn {
    /// The name of the column.
    pub fn name(&self) -> (name: &'static str)
        ensures
            name@ == organizer_column_name(*self),
    {
        match self {
            OrganizerColumn::Name => "name",
            OrganizerColumn::DescriptionDe => "description_de",
            OrganizerColumn::DescriptionEn => "description_en",
            OrganizerColumn::WebsiteUrl => "website_url",
            OrganizerColumn::InstagramUrl => "instagram_url",
            OrganizerColumn::Location => "location",
            OrganizerColumn::LinkedinUrl => "linkedin_url",
            OrganizerColumn::RegistrationNumber => "registration_number",
            OrganizerColumn::NonProfit => "non_profit",
        }
    }
}

pub open spec fn organizer_column_name(c: OrganizerColumn) -> Seq<char> {
    match c {
        OrganizerColumn::Name => "name"@,
        OrganizerColumn::DescriptionDe => "description_de"@,
        OrganizerColumn::DescriptionEn => "description_en"@,
        OrganizerColumn::WebsiteUrl => "website_url"@,
        OrganizerColumn::InstagramUrl => "instagram_url"@,
        OrganizerColumn::Location => "location"@,
        OrganizerColumn::LinkedinUrl => "linkedin_url"@,
        OrganizerColumn::RegistrationNumber => "registration_number"@,
        OrganizerColumn::NonProfit => "non_profit"@,
    }
}

/// The columns that an update of an organizer assigns: those that the request
/// names, in the order of the fields.
pub open spec fn organizer_columns(r: &UpdateOrganizerRequest) -> Seq<OrganizerColumn> {
    let c = Seq::<OrganizerColumn>::empty();
    let c = with_column(c, r.name is Some, OrganizerColumn::Name);
    let c = with_column(c, r.description_de is Some, OrganizerColumn::DescriptionDe);
    let c = with_column(c, r.description_en is Some, OrganizerColumn::DescriptionEn);
    let c = with_column(c, r.website_url is Some, OrganizerColumn::WebsiteUrl);
    let c = with_column(c, r.instagram_url is Some, OrganizerColumn::InstagramUrl);
    let c = with_column(c, r.location is Some, OrganizerColumn::Location);
    let c = with_column(c, r.linkedin_url is Some, OrganizerColumn::LinkedinUrl);
    let c = with_column(c, r.registration_number is Some, OrganizerColumn::RegistrationNumber);
    with_column(c, r.non_profit is Some, OrganizerColumn::NonProfit)
}

/// The columns that an update of an organizer assigns.
pub fn organizer_columns_to_update(request: &UpdateOrganizerRequest) -> (columns: Vec<OrganizerColumn>)
    ensures
        columns@ == organizer_columns(request),
        columns@.len() > 0 <==> request.names_a_field(),
{
    let mut columns: Vec<OrganizerColumn> = Vec::new();
    add_column(&mut columns, request.name.is_some(), OrganizerColumn::Name);
    add_column(&mut columns, request.description_de.is_some(), OrganizerColumn::DescriptionDe);
    add_column(&mut columns, request.description_en.is_some(), OrganizerColumn::DescriptionEn);
    add_column(&mut columns, request.website_url.is_some(), OrganizerColumn::WebsiteUrl);
    add_column(&mut columns, request.instagram_url.is_some(), OrganizerColumn::InstagramUrl);
    add_column(&mut columns, request.location.is_some(), OrganizerColumn::Location);
    add_column(&mut columns, request.linkedin_url.is_some(), OrganizerColumn::LinkedinUrl);
    add_column(
        &mut columns,
        request.registration_number.is_some(),
        OrganizerColumn::RegistrationNumber,
    );
    add_column(&mut columns, request.non_profit.is_some(), OrganizerColumn::NonProfit);
    columns
}

/// The verdict on a statement that must change or remove a row, given the
/// number of rows it touched: none means that the row does not exist, and
/// `missing` says so.
pub open spec fn touched(rows: nat, missing: Seq<char>) -> Result<(), AppErrorView> {
    if rows == 0 {
        Err(AppErrorView::NotFound(missing))
    } else {
        Ok(())
    }
}

/// Decides on a statement that must change or remove a row, given the number
/// of rows it touched.
pub fn require_touched(rows: u64, missing: &str) -> (r: Result<(), AppError>)
    ensures
        unit_result_view(r) == touched(rows as nat, missing@),
{
    if rows == 0 {
        Err(AppError::not_found(missing))
    } else {
        Ok(())
    }
}

/// The verdict on a request for an update: it must name a field.
pub open spec fn names_field(any: bool) -> Result<(), AppErrorView> {
    if any {
        Ok(())
    } else {
        Err(AppErrorView::Validation("No fields supplied for update"@))
    }
}

/// Refuses a request for an update that names no field.
pub fn require_updates(any: bool) -> (r: Result<(), AppError>)
    ensures
        unit_result_view(r) == names_field(any),
{
    if any {
        Ok(())
    } else {
        Err(AppError::validation("No fields supplied for update"))
    }
}

} // verus!
