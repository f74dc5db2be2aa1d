use campus_life_events::error::{
    map_sqlx_error_to_status, AppError, DbError, EmailClientError,
};

fn database(code: Option<&str>, message: &str) -> DbError {
    DbError::Database { code: code.map(|c| c.to_string()), message: message.to_string() }
}

#[test]
fn each_kind_of_failure_has_its_status() {
    assert_eq!(AppError::not_found("gone").status_code(), 404);
    assert_eq!(AppError::validation("bad").status_code(), 400);
    assert_eq!(AppError::unauthorized("no").status_code(), 401);
    assert_eq!(AppError::internal("oops").status_code(), 500);
    assert_eq!(AppError::Email("smtp down".to_string()).status_code(), 500);
    assert_eq!(AppError::Serde("eof".to_string()).status_code(), 500);
}

#[test]
fn database_failures_are_mapped_by_code() {
    assert_eq!(map_sqlx_error_to_status(&DbError::RowNotFound), 404);
    assert_eq!(map_sqlx_error_to_status(&database(Some("23505"), "dup")), 409);
    assert_eq!(map_sqlx_error_to_status(&database(Some("23503"), "fk")), 409);
    assert_eq!(map_sqlx_error_to_status(&database(Some("P0001"), "raised")), 400);
    assert_eq!(map_sqlx_error_to_status(&database(Some("42601"), "syntax")), 500);
    assert_eq!(map_sqlx_error_to_status(&database(Some("2350"), "prefix only")), 500);
    assert_eq!(map_sqlx_error_to_status(&database(None, "no code")), 500);
    assert_eq!(map_sqlx_error_to_status(&DbError::Other), 500);
    assert_eq!(AppError::Sqlx(database(Some("23505"), "dup")).status_code(), 409);
    assert_eq!(AppError::Sqlx(DbError::RowNotFound).status_code(), 404);
}

#[test]
fn messages_are_shown_as_given() {
    assert_eq!(AppError::not_found("Event not found").message(), "Event not found");
    assert_eq!(AppError::validation("bad input").message(), "bad input");
    assert_eq!(AppError::unauthorized("missing session").message(), "missing session");
    assert_eq!(AppError::internal("broken").message(), "broken");
    assert_eq!(AppError::Email("smtp down".to_string()).message(), "smtp down");
}

#[test]
fn database_and_serialization_messages() {
    assert_eq!(AppError::Sqlx(DbError::RowNotFound).message(), "resource not found");
    assert_eq!(
        AppError::Sqlx(database(Some("23505"), "duplicate key value")).message(),
        "duplicate key value"
    );
    assert_eq!(AppError::Sqlx(DbError::Other).message(), "database error");
    assert_eq!(AppError::Serde("line 1".to_string()).message(), "unexpected error");
}

#[test]
fn mail_failures_become_application_failures() {
    match AppError::from(EmailClientError::InvalidRecipient("nobody".to_string())) {
        AppError::Validation(m) => assert_eq!(m, "nobody"),
        other => panic!("unexpected {:?}", other),
    }
    for e in [
        EmailClientError::IncompleteConfig("SMTP_HOST".to_string()),
        EmailClientError::InvalidConfig("SMTP_HOST".to_string()),
        EmailClientError::Build("SMTP_HOST".to_string()),
        EmailClientError::Transport("SMTP_HOST".to_string()),
    ] {
        match AppError::from(e) {
            AppError::Email(m) => assert_eq!(m, "SMTP_HOST"),
            other => panic!("unexpected {:?}", other),
        }
    }
}

#[test]
fn database_failure_converts_into_application_failure() {
    match AppError::from(DbError::RowNotFound) {
        AppError::Sqlx(DbError::RowNotFound) => {}
        other => panic!("unexpected {:?}", other),
    }
}
