//! The bodies that responses carry.
use vstd::prelude::*;
use vstd::string::*;
use crate::models::{AccountType, EventWithOrganizer, Organizer};

verus! {

#[derive(Debug)]
pub struct ErrorResponse {
    pub message: String,
}

#[derive(Debug)]
pub struct HealthResponse {
    pub status: String,
    pub message: String,
}

/// The authenticated principal as the client sees it.
#[derive(Debug)]
pub struct AuthUserResponse {
    pub account_id: i64,
    pub display_name: String,
    pub account_type: AccountType,
    pub organizer_id: Option<i64>,
    pub can_access_newsletter: bool,
}

/// Mathematical value of an [`AuthUserResponse`].
pub struct AuthUserResponseView {
    pub account_id: i64,
    pub display_name: Seq<char>,
    pub account_type: AccountType,
    pub organizer_id: Option<i64>,
    pub can_access_newsletter: bool,
}

impl View for AuthUserResponse {
    type V = AuthUserResponseView;

    open spec fn view(&self) -> AuthUserResponseView {
        AuthUserResponseView {
            account_id: self.account_id,
            display_name: self.display_name@,
            account_type: self.account_type,
            organizer_id: self.organizer_id,
            can_access_newsletter: self.can_access_newsletter,
        }
    }
}

#[derive(Debug)]
pub struct SetupTokenResponse {
    pub setup_token: String,
}

/// What a pending invitation shows of its account.
#[derive(Debug)]
pub struct SetupTokenInfoResponse {
    pub account_name: String,
    pub account_type: AccountType,
}

/// The events of the next two weeks, for the newsletter.
#[derive(Debug)]
pub struct NewsletterDataResponse {
    pub subject: String,
    pub next_week_events: Vec<EventWithOrganizer>,
    pub following_week_events: Vec<EventWithOrganizer>,
    pub all_organizers: Vec<Organizer>,
    pub next_week_start: i64,
    pub week_after_start: i64,
}

#[derive(Debug)]
pub struct PublicEventResponse {
    pub id: i64,
    pub organizer_id: i64,
    pub organizer_name: String,
    pub title_de: String,
    pub title_en: String,
    pub description_de: Option<String>,
    pub description_en: Option<String>,
    pub start_date_time: i64,
    pub end_date_time: i64,
    pub event_url: Option<String>,
    pub location: Option<String>,
}

#[derive(Debug)]
pub struct PublicOrganizerResponse {
    pub id: i64,
    pub name: String,
    pub description_de: Option<String>,
    pub description_en: Option<String>,
    pub website_url: Option<String>,
    pub instagram_url: Option<String>,
    pub location: Option<String>,
    pub linkedin_url: Option<String>,
    pub registration_number: Option<String>,
    pub non_profit: bool,
}

/// The health check's answer.
pub fn health_check() -> (r: HealthResponse)
    ensures
        r.status@ == "ok"@,
        r.message@ == "API Services"@,
{
    HealthResponse { status: "ok".to_string(), message: "API Services".to_string() }
}

} // verus!
