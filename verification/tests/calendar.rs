use campus_life_events::error::AppError;
use campus_life_events::ical::{
    build_ical_response_with_filename, extract_bearer_token, local_stamp,
    organizer_calendar_description, organizer_calendar_name, organizer_content_disposition,
    validate_api_token, write_basic_stamp, EventWithOrganizer, HeaderText,
};

const NOW: i64 = 1_700_000_000_000_000;

fn refused<T: std::fmt::Debug>(r: Result<T, AppError>) -> String {
    match r {
        Err(AppError::Unauthorized(m)) => m,
        other => panic!("expected a refusal, got {:?}", other),
    }
}

fn text(t: &str) -> HeaderText {
    HeaderText::Text(t.to_string())
}

#[test]
fn bearer_token_is_what_follows_the_scheme() {
    assert_eq!(extract_bearer_token(&text("Bearer abc")).unwrap(), "abc");
    assert_eq!(extract_bearer_token(&text("Bearer   abc  ")).unwrap(), "abc");
    assert_eq!(extract_bearer_token(&text("Bearer a b")).unwrap(), "a b");
    assert_eq!(extract_bearer_token(&text("Bearer Bearer x")).unwrap(), "Bearer x");
}

#[test]
fn missing_and_malformed_tokens_are_told_apart() {
    assert_eq!(refused(extract_bearer_token(&HeaderText::Missing)), "missing API token");
    assert_eq!(refused(extract_bearer_token(&HeaderText::Unreadable)), "invalid API token");
    for header in ["", "Bearer", "Bearer ", "Bearer    ", "bearer abc", "Basic abc", " Bearer abc", "Bearerabc"] {
        assert_eq!(refused(extract_bearer_token(&text(header))), "invalid API token", "{:?}", header);
    }
}

#[test]
fn unknown_token_is_invalid() {
    assert!(validate_api_token(true).is_ok());
    assert_eq!(refused(validate_api_token(false)), "invalid API token");
}

#[test]
fn local_time_in_berlin_in_basic_notation() {
    // 2023-11-14T22:13:20Z is 23:13:20 in Berlin in winter.
    assert_eq!(local_stamp(NOW).as_deref(), Some("20231114T231320"));
    // 2023-07-01T12:00:00Z is 14:00:00 in Berlin in summer.
    assert_eq!(local_stamp(1_688_212_800_000_000).as_deref(), Some("20230701T140000"));
    // The epoch is 01:00:00 in Berlin.
    assert_eq!(local_stamp(0).as_deref(), Some("19700101T010000"));
    assert_eq!(local_stamp(999_999).as_deref(), Some("19700101T010000"));
    assert_eq!(local_stamp(i64::MAX), None);
    assert_eq!(local_stamp(i64::MIN), None);
}

#[test]
fn stamps_are_padded_with_zeros() {
    assert_eq!(write_basic_stamp(2024, 1, 2, 3, 4, 5), "20240102T030405");
    assert_eq!(write_basic_stamp(987, 12, 31, 23, 59, 59), "09871231T235959");
    assert_eq!(write_basic_stamp(0, 1, 1, 0, 0, 0), "00000101T000000");
}

fn event() -> EventWithOrganizer {
    EventWithOrganizer {
        id: 12,
        title_de: "Vortrag".to_string(),
        title_en: "Talk".to_string(),
        description_de: Some("Beschreibung".to_string()),
        description_en: Some("Description".to_string()),
        start_date_time: NOW,
        end_date_time: NOW + 3_600_000_000,
        event_url: Some("https://uni.example/talk".to_string()),
        location: Some("Aula".to_string()),
        organizer_location: Some("Campus".to_string()),
    }
}

#[test]
fn calendar_entry_prefers_english_and_the_location_of_the_event() {
    let entry = event().to_ical_event().unwrap();
    assert_eq!(entry.uid, "campus-life-event-12");
    assert_eq!(entry.summary, "Talk");
    assert_eq!(entry.description.as_deref(), Some("Description"));
    assert_eq!(entry.location.as_deref(), Some("Aula"));
    assert_eq!(entry.start, "20231114T231320");
    assert_eq!(entry.end, "20231115T001320");
    assert_eq!(entry.url.as_deref(), Some("https://uni.example/talk"));
}

#[test]
fn calendar_entry_falls_back_to_german_and_the_organizer() {
    let mut e = event();
    e.title_en = String::new();
    e.description_en = Some(String::new());
    e.location = None;
    e.event_url = None;
    let entry = e.to_ical_event().unwrap();
    assert_eq!(entry.summary, "Vortrag");
    assert_eq!(entry.description.as_deref(), Some("Beschreibung"));
    assert_eq!(entry.location.as_deref(), Some("Campus"));
    assert_eq!(entry.url, None);

    let mut e = event();
    e.description_en = None;
    e.description_de = None;
    e.location = None;
    e.organizer_location = None;
    let entry = e.to_ical_event().unwrap();
    assert_eq!(entry.description, None);
    assert_eq!(entry.location, None);

    let mut e = event();
    e.title_en = String::new();
    e.title_de = String::new();
    e.description_en = None;
    assert_eq!(e.to_ical_event().unwrap().summary, "");
    assert_eq!(e.to_ical_event().unwrap().description.as_deref(), Some("Beschreibung"));
}

#[test]
fn event_beyond_the_calendar_has_no_entry() {
    let mut e = event();
    e.end_date_time = i64::MAX;
    assert!(e.to_ical_event().is_none());
    let mut e = event();
    e.id = -3;
    assert_eq!(e.to_ical_event().unwrap().uid, "campus-life-event--3");
}

#[test]
fn file_name_of_an_organizer() {
    assert_eq!(
        organizer_content_disposition("Debate Club"),
        "attachment; filename=\"debate-club-events.ics\""
    );
    assert_eq!(
        organizer_content_disposition("Neuland Ingolstadt e.V."),
        "attachment; filename=\"neuland-ingolstadt-e.v.-events.ics\""
    );
    assert_eq!(organizer_content_disposition("ÄÖ  x"), "attachment; filename=\"äö--x-events.ics\"");
    assert_eq!(organizer_content_disposition(""), "attachment; filename=\"-events.ics\"");
    assert_eq!(organizer_calendar_name("Debate Club"), "Debate Club Events");
    assert_eq!(organizer_calendar_description("Debate Club"), "Events organized by Debate Club");
}

#[test]
fn calendar_response_headers() {
    let r = build_ical_response_with_filename("BEGIN:VCALENDAR".to_string(), "attachment; filename=\"x.ics\"".to_string());
    assert_eq!(r.status, 200);
    assert_eq!(r.content_type, "text/calendar; charset=utf-8");
    assert_eq!(r.content_disposition, "attachment; filename=\"x.ics\"");
    assert_eq!(r.cache_control, "public, max-age=3600");
    assert_eq!(r.body, "BEGIN:VCALENDAR");
}

#[test]
fn stamps_end_with_the_year_9999() {
    // 9999-12-31T22:59:59Z is the last second of the year in Berlin.
    assert_eq!(local_stamp(253_402_297_199_000_000).as_deref(), Some("99991231T235959"));
    // One second later Berlin is in the year 10000.
    assert_eq!(local_stamp(253_402_297_200_000_000), None);
    assert_eq!(local_stamp(253_402_300_799_999_999), None);
    assert_eq!(local_stamp(253_402_300_800_000_000), None);
    assert_eq!(local_stamp(-62_167_219_200_000_001), None);
}
