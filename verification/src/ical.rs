//! The calendar feeds: what an event shows in a calendar, and who may read
//! the events of a feed through the programming interface.
use vstd::prelude::*;
use vstd::string::*;
use crate::error::{result_view, AppError, AppErrorView};
use crate::policy::unit_result_view;
use crate::text::{concat2, decimal, i64_to_string, opt_text, signed_decimal, u64_to_string};
use crate::trusted::{
    after_prefix, berlin_civil, in_calendar, lowercase, replace_char, replaced, strip_prefix,
    to_berlin_civil, to_lowercase, trim, trimmed, FIRST_INSTANT, LAST_INSTANT,
};

verus! {

/// A header of a request as the service reads it.
#[derive(Debug)]
pub enum HeaderText {
    /// The request has no such header.
    Missing,
    /// The header holds bytes that are no visible text.
    Unreadable,
    /// The text of the header.
    Text(String),
}

/// Mathematical value of a [`HeaderText`].
pub enum HeaderTextView {
    Missing,
    Unreadable,
    Text(Seq<char>),
}

impl View for HeaderText {
    type V = HeaderTextView;

    open spec fn view(&self) -> HeaderTextView {
        match self {
            HeaderText::Missing => HeaderTextView::Missing,
            HeaderText::Unreadable => HeaderTextView::Unreadable,
            HeaderText::Text(t) => HeaderTextView::Text(t@),
        }
    }
}

/// The failure of a request whose token is no token of the interface.
pub open spec fn invalid_api_token() -> AppErrorView {
    AppErrorView::Unauthorized("invalid API token"@)
}

/// The token that an `Authorization` header carries: what follows `Bearer `,
/// without the white space around it, which must not be empty.
pub open spec fn bearer_token(header: HeaderTextView) -> Result<Seq<char>, AppErrorView> {
    match header {
        HeaderTextView::Missing => Err(AppErrorView::Unauthorized("missing API token"@)),
        HeaderTextView::Unreadable => Err(invalid_api_token()),
        HeaderTextView::Text(text) => match after_prefix(text, "Bearer "@) {
            None => Err(invalid_api_token()),
            Some(rest) => if trimmed(rest).len() == 0 {
                Err(invalid_api_token())
            } else {
                Ok(trimmed(rest))
            },
        },
    }
}

/// Reads the token from an `Authorization` header.
pub fn extract_bearer_token(header: &HeaderText) -> (r: Result<String, AppError>)
    ensures
        result_view(r) == bearer_token(header@),
{
    let text = match header {
        HeaderText::Missing => {
            return Err(AppError::unauthorized("missing API token"));
        },
        HeaderText::Unreadable => {
            return Err(AppError::unauthorized("invalid API token"));
        },
        HeaderText::Text(text) => text,
    };
    let rest = match strip_prefix(text.as_str(), "Bearer ") {
        Some(rest) => rest,
        None => {
            return Err(AppError::unauthorized("invalid API token"));
        },
    };
    let token = trim(rest.as_str());
    if token.as_str().unicode_len() == 0 {
        return Err(AppError::unauthorized("invalid API token"));
    }
    Ok(token)
}

/// The verdict on a token, given whether it is stored as a token of the
/// interface.
pub open spec fn api_token_verdict(known: bool) -> Result<(), AppErrorView> {
    if known {
        Ok(())
    } else {
        Err(invalid_api_token())
    }
}

/// Decides on a token, given whether it is stored as a token of the
/// interface.
pub fn validate_api_token(known: bool) -> (r: Result<(), AppError>)
    ensures
        unit_result_view(r) == api_token_verdict(known),
{
    if known {
        Ok(())
    } else {
        Err(AppError::unauthorized("invalid API token"))
    }
}

/// An event together with the location of its organizer, as a calendar feed
/// reads it.
#[derive(Clone, Debug)]
pub struct EventWithOrganizer {
    pub id: i64,
    pub title_de: String,
    pub title_en: String,
    pub description_de: Option<String>,
    pub description_en: Option<String>,
    pub start_date_time: i64,
    pub end_date_time: i64,
    pub event_url: Option<String>,
    pub location: Option<String>,
    pub organizer_location: Option<String>,
}

/// What a calendar shows of an event.
#[derive(Debug)]
pub struct CalendarEntry {
    pub uid: String,
    pub summary: String,
    pub description: Option<String>,
    pub location: Option<String>,
    pub start: String,
    pub end: String,
    pub url: Option<String>,
}

/// The title that a calendar shows: the English one unless it is empty.
pub open spec fn shown_title(title_de: Seq<char>, title_en: Seq<char>) -> Seq<char> {
    if title_en.len() > 0 {
        title_en
    } else {
        title_de
    }
}

/// The description that a calendar shows: the English one unless it is absent
/// or empty.
pub open spec fn shown_description(description_de: Option<Seq<char>>, description_en: Option<Seq<char>>) -> Option<
    Seq<char>,
> {
    match description_en {
        Some(text) => if text.len() > 0 {
            Some(text)
        } else {
            description_de
        },
        None => description_de,
    }
}

/// The location that a calendar shows: that of the event, or else that of
/// its organizer.
pub open spec fn shown_location(location: Option<Seq<char>>, organizer_location: Option<Seq<char>>) -> Option<
    Seq<char>,
> {
    match location {
        Some(l) => Some(l),
        None => organizer_location,
    }
}

/// The identifier of an event in a calendar.
pub open spec fn calendar_uid(id: i64) -> Seq<char> {
    "campus-life-event-"@ + signed_decimal(id as int)
}

/// A number in decimal with at least `width` digits, zeros in front.
pub open spec fn padded(n: nat, width: nat) -> Seq<char>
    decreases width,
{
    if width == 0 || decimal(n).len() >= width {
        decimal(n)
    } else {
        seq!['0'] + padded(n, (width - 1) as nat)
    }
}

/// A local date and time in the basic notation of calendars,
/// `YYYYMMDDTHHMMSS`.
pub open spec fn basic_stamp(civil: (i32, u32, u32, u32, u32, u32)) -> Seq<char> {
    padded(civil.0 as nat, 4) + padded(civil.1 as nat, 2) + padded(civil.2 as nat, 2) + "T"@
        + padded(civil.3 as nat, 2) + padded(civil.4 as nat, 2) + padded(civil.5 as nat, 2)
}

/// The local date and time in Berlin of an instant, in the basic notation;
/// `None` where the calendar cannot hold the instant or the year has not
/// one to four digits.
pub open spec fn berlin_stamp(micros: i64) -> Option<Seq<char>> {
    if !in_calendar(micros) {
        None
    } else {
        match berlin_civil(micros) {
            Some(civil) => if 0 <= civil.0 <= 9999 {
                Some(basic_stamp(civil))
            } else {
                None
            },
            None => None,
        }
    }
}

fn pad(n: u32, width: u32) -> (text: String)
    ensures
        text@ == padded(n as nat, width as nat),
    decreases width,
{
    let digits = u64_to_string(n as u64);
    if width == 0 || digits.as_str().unicode_len() >= width as usize {
        digits
    } else {
        let rest = pad(n, width - 1);
        proof {
            reveal_strlit("0");
            assert("0"@ =~= seq!['0']);
        }
        concat2("0", rest.as_str())
    }
}

/// Writes a local date and time in the basic notation of calendars.
pub fn write_basic_stamp(year: u32, month: u32, day: u32, hour: u32, minute: u32, second: u32) -> (text:
    String)
    requires
        year <= i32::MAX,
    ensures
        text@ == basic_stamp((year as i32, month, day, hour, minute, second)),
{
    let mut text = pad(year, 4);
    text.append(pad(month, 2).as_str());
    text.append(pad(day, 2).as_str());
    text.append("T");
    text.append(pad(hour, 2).as_str());
    text.append(pad(minute, 2).as_str());
    text.append(pad(second, 2).as_str());
    text
}

/// Writes the local date and time in Berlin of an instant.
pub fn local_stamp(micros: i64) -> (text: Option<String>)
    ensures
        opt_text(text) == berlin_stamp(micros),
{
    if micros < FIRST_INSTANT || micros > LAST_INSTANT {
        return None;
    }
    match to_berlin_civil(micros) {
        Some(civil) => {
            if 0 <= civil.0 && civil.0 <= 9999 {
                Some(
                    write_basic_stamp(
                        civil.0 as u32,
                        civil.1,
                        civil.2,
                        civil.3,
                        civil.4,
                        civil.5,
                    ),
                )
            } else {
                None
            }
        },
        None => None,
    }
}

impl EventWithOrganizer {
    /// What a calendar shows of this event; `None` where an instant of the
    /// event cannot be written as a local time.
    pub fn to_ical_event(&self) -> (entry: Option<CalendarEntry>)
        ensures
            match (berlin_stamp(self.start_date_time), berlin_stamp(self.end_date_time)) {
                (Some(start), Some(end)) => entry matches Some(e) && e.uid@ == calendar_uid(self.id)
                    && e.summary@ == shown_title(self.title_de@, self.title_en@) && opt_text(
                    e.description,
                ) == shown_description(opt_text(self.description_de), opt_text(self.description_en))
                    && opt_text(e.location) == shown_location(
                    opt_text(self.location),
                    opt_text(self.organizer_location),
                ) && e.start@ == start && e.end@ == end && opt_text(e.url) == opt_text(
                    self.event_url,
                ),
                _ => entry is None,
            },
    {
        let start = match local_stamp(self.start_date_time) {
            Some(start) => start,
            None => {
                return None;
            },
        };
        let end = match local_stamp(self.end_date_time) {
            Some(end) => end,
            None => {
                return None;
            },
        };
        let summary = if self.title_en.as_str().unicode_len() > 0 {
            self.title_en.clone()
        } else {
            self.title_de.clone()
        };
        let description = match &self.description_en {
            Some(text) => {
                if text.as_str().unicode_len() > 0 {
                    Some(text.clone())
                } else {
                    self.description_de.clone()
                }
            },
            None => self.description_de.clone(),
        };
        let location = match &self.location {
            Some(l) => Some(l.clone()),
            None => self.organizer_location.clone(),
        };
        Some(
            CalendarEntry {
                uid: concat2("campus-life-event-", i64_to_string(self.id).as_str()),
                summary,
                description,
                location,
                start,
                end,
                url: self.event_url.clone(),
            },
        )
    }
}

/// The name of the file that holds the calendar of an organizer.
pub open spec fn calendar_file_name(organizer_name: Seq<char>) -> Seq<char> {
    replaced(lowercase(organizer_name), ' ', "-"@) + "-events.ics"@
}

/// The `Content-Disposition` of the calendar of an organizer.
pub open spec fn calendar_disposition(organizer_name: Seq<char>) -> Seq<char> {
    "attachment; filename=\""@ + calendar_file_name(organizer_name) + "\""@
}

/// The `Content-Disposition` of the calendar of an organizer.
pub fn organizer_content_disposition(organizer_name: &str) -> (value: String)
    ensures
        value@ == calendar_disposition(organizer_name@),
{
    let lowered = to_lowercase(organizer_name);
    let stem = replace_char(lowered.as_str(), ' ', "-");
    let mut value = "attachment; filename=\"".to_string();
    value.append(stem.as_str());
    value.append("-events.ics");
    value.append("\"");
    value
}

/// The title of the calendar of an organizer.
pub fn organizer_calendar_name(organizer_name: &str) -> (name: String)
    ensures
        name@ == organizer_name@ + " Events"@,
{
    concat2(organizer_name, " Events")
}

/// The description of the calendar of an organizer.
pub fn organizer_calendar_description(organizer_name: &str) -> (description: String)
    ensures
        description@ == "Events organized by "@ + organizer_name@,
{
    concat2("Events organized by ", organizer_name)
}

/// The headers of a response that carries a calendar.
#[derive(Debug)]
pub struct CalendarResponse {
    pub status: u16,
    pub content_type: String,
    pub content_disposition: String,
    pub cache_control: String,
    pub body: String,
}

/// Builds the response that carries a calendar.
pub fn build_ical_response_with_filename(body: String, content_disposition: String) -> (r:
    CalendarResponse)
    ensures
        r.status == crate::error::STATUS_OK,
        r.content_type@ == "text/calendar; charset=utf-8"@,
        r.content_disposition == content_disposition,
        r.cache_control@ == "public, max-age=3600"@,
        r.body == body,
{
    CalendarResponse {
        status: crate::error::STATUS_OK,
        content_type: "text/calendar; charset=utf-8".to_string(),
        content_disposition,
        cache_control: "public, max-age=3600".to_string(),
        body,
    }
}

} // verus!
