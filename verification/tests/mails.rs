use campus_life_events::auth::{welcome_notification, Notification, PendingSetupToken};
use campus_life_events::email::{
    compose, compose_checked, recipient, registration_url, render_admin_invite_template,
    render_invite_template, render_password_reset_template, render_welcome_template, reset_url,
    smtp_settings, SmtpEnvironment, DEFAULT_SMTP_PORT,
};
use campus_life_events::error::EmailClientError;
use campus_life_events::models::AccountType;

fn env(
    host: Option<&str>,
    username: Option<&str>,
    password: Option<&str>,
    port: Option<&str>,
    from_email: Option<&str>,
    from_name: Option<&str>,
    base_url: Option<&str>,
) -> SmtpEnvironment {
    let own = |v: Option<&str>| v.map(|s| s.to_string());
    SmtpEnvironment {
        host: own(host),
        username: own(username),
        password: own(password),
        port: own(port),
        from_email: own(from_email),
        from_name: own(from_name),
        base_url: own(base_url),
    }
}

#[test]
fn without_settings_there_is_no_mail_client() {
    assert!(smtp_settings(env(None, None, None, None, None, None, None)).unwrap().is_none());
    // Port, name and address of the web client alone do not make a client.
    assert!(smtp_settings(env(None, None, None, Some("25"), None, Some("Campus"), Some("https://x")))
        .unwrap()
        .is_none());
}

#[test]
fn missing_settings_are_named_in_order() {
    let missing = |e: SmtpEnvironment| match smtp_settings(e) {
        Err(EmailClientError::IncompleteConfig(m)) => m,
        other => panic!("unexpected {:?}", other),
    };
    assert_eq!(
        missing(env(Some("h"), None, None, None, None, None, None)),
        "SMTP_USERNAME, SMTP_PASSWORD, SMTP_FROM_EMAIL"
    );
    assert_eq!(missing(env(None, Some("u"), Some("p"), None, Some("a@b.example"), None, None)), "SMTP_HOST");
    assert_eq!(
        missing(env(Some("h"), Some("u"), None, None, None, None, None)),
        "SMTP_PASSWORD, SMTP_FROM_EMAIL"
    );
    assert_eq!(
        missing(env(None, Some("u"), None, Some("x"), Some("a@b.example"), None, None)),
        "SMTP_HOST, SMTP_PASSWORD"
    );
    assert_eq!(missing(env(Some("h"), Some("u"), Some("p"), None, None, None, None)), "SMTP_FROM_EMAIL");
}

#[test]
fn complete_settings_with_defaults() {
    let s = smtp_settings(env(Some("mail.uni.example"), Some("u"), Some("p"), None, Some("noreply@uni.example"), None, None))
        .unwrap()
        .unwrap();
    assert_eq!(s.host, "mail.uni.example");
    assert_eq!(s.username, "u");
    assert_eq!(s.password, "p");
    assert_eq!(s.port, 587);
    assert_eq!(DEFAULT_SMTP_PORT, 587);
    assert_eq!(s.sender, "noreply@uni.example");
    assert_eq!(s.base_url, "http://localhost:3000");
}

#[test]
fn port_name_and_base_url_are_taken_from_the_settings() {
    let s = smtp_settings(env(
        Some("h"),
        Some("u"),
        Some("p"),
        Some("2525"),
        Some("noreply@uni.example"),
        Some("Campus Life"),
        Some("https://events.uni.example/"),
    ))
    .unwrap()
    .unwrap();
    assert_eq!(s.port, 2525);
    assert_eq!(s.sender, "Campus Life <noreply@uni.example>");
    assert_eq!(s.base_url, "https://events.uni.example/");
}

#[test]
fn blank_name_is_left_out() {
    for name in ["", "   ", "\t\n"] {
        let s = smtp_settings(env(Some("h"), Some("u"), Some("p"), None, Some("noreply@uni.example"), Some(name), None))
            .unwrap()
            .unwrap();
        assert_eq!(s.sender, "noreply@uni.example");
    }
}

#[test]
fn port_must_be_a_number_below_65536() {
    for port in ["smtp", "", "70000", "-1", "25 "] {
        match smtp_settings(env(Some("h"), Some("u"), Some("p"), Some(port), Some("noreply@uni.example"), None, None)) {
            Err(EmailClientError::InvalidConfig(m)) => assert_eq!(m, "SMTP_PORT must be a number"),
            other => panic!("unexpected {:?} for {:?}", other, port),
        }
    }
    let s = smtp_settings(env(Some("h"), Some("u"), Some("p"), Some("65535"), Some("noreply@uni.example"), None, None))
        .unwrap()
        .unwrap();
    assert_eq!(s.port, 65535);
}

#[test]
fn sender_must_be_a_mailbox() {
    for sender in ["not an address", "", "a@", "@b.example"] {
        match smtp_settings(env(Some("h"), Some("u"), Some("p"), None, Some(sender), None, None)) {
            Err(EmailClientError::InvalidConfig(m)) => assert_eq!(m, "SMTP_FROM_EMAIL is invalid"),
            other => panic!("unexpected {:?} for {:?}", other, sender),
        }
    }
}

#[test]
fn links_drop_trailing_slashes_of_the_base() {
    assert_eq!(registration_url("https://x.example", "t"), "https://x.example/register?token=t");
    assert_eq!(registration_url("https://x.example/", "t"), "https://x.example/register?token=t");
    assert_eq!(registration_url("https://x.example///", "a+b/=="), "https://x.example/register?token=a+b/==");
    assert_eq!(registration_url("", ""), "/register?token=");
    assert_eq!(registration_url("/", "t"), "/register?token=t");
    assert_eq!(reset_url("https://x.example/", "t"), "https://x.example/reset-password?token=t");
    assert_eq!(reset_url("https://x.example/app", "t"), "https://x.example/app/reset-password?token=t");
}

#[test]
fn invite_template_text() {
    let body = render_invite_template("Debate Club", "https://x.example/register?token=t");
    assert!(body.starts_with("Hallo Debate Club,\n\nDu wurdest zur Campus Life Events Plattform der THI StudVer eingeladen.\n"));
    assert!(body.contains("(gültig für 7 Tage):\n\nhttps://x.example/register?token=t\n\nBitte verwende ein sicheres Passwort"));
    assert!(body.contains("- Echtzeit-Updates: Sofortige Synchronisation zwischen allen Plattformen\nBitte richte dein Konto"));
    assert!(body.ends_with("Viele Grüße\nDas Neuland und StudVer Team\n\nCampus Life Events ist ein Projekt der THI StudVer und wird von Neuland Ingolstadt e.V. entwickelt und betrieben."));
}

#[test]
fn admin_invite_template_text() {
    assert_eq!(
        render_admin_invite_template("Root", "URL"),
        "Hallo Root,\n\ndu wurdest als Administrator*in für Campus Life Events eingeladen.\nÜber den Adminbereich kannst du Vereine verwalten, neue Accounts einladen und das Audit-Log einsehen.\n\nBitte richte dein Konto über folgenden Link ein (gültig für 7 Tage):\n\nURL\n\nViele Grüße\nDas Neuland und StudVer Team\n\nCampus Life Events ist ein Projekt der THI StudVer und wird von Neuland Ingolstadt e.V. entwickelt und betrieben."
    );
}

#[test]
fn welcome_template_describes_the_role() {
    let admin = render_welcome_template("Root", "Admin");
    assert!(admin.starts_with("Hallo Root,\n\nherzlich willkommen bei Campus Life Events! 🎉\n"));
    assert!(admin.contains("einloggen.\n\nAls Administrator*in kannst du Vereine verwalten, neue Accounts einladen und das Audit-Log einsehen.\nBei Fragen"));
    assert!(admin.ends_with("Das Neuland und StudVer Team\n\n\nCampus Life Events ist ein Projekt der THI StudVer und wird von Neuland Ingolstadt e.V. entwickelt und betrieben."));
    let organizer = render_welcome_template("Club", "Organizer");
    assert!(organizer.contains("Als Organisator*in kannst du Veranstaltungen für deinen Verein erstellen und verwalten."));
    for other in ["admin", "ADMIN", "", "Guest"] {
        assert!(render_welcome_template("X", other).contains("Du kannst die Plattform entsprechend deiner Berechtigung nutzen."));
    }
}

#[test]
fn password_reset_template_text() {
    assert_eq!(
        render_password_reset_template("Root", "URL"),
        "Hallo Root,\n\ndu hast eine Anfrage zum Zurücksetzen deines Passworts für Campus Life Events gestellt.\n\nUm dein Passwort zurückzusetzen, klicke auf folgenden Link (gültig für 10 Minuten):\nURL\n\nFalls du diese Anfrage nicht gestellt hast, kannst du diese E-Mail ignorieren.\nDein Passwort bleibt unverändert.\n\nAus Sicherheitsgründen ist dieser Link nur für 10 Minuten gültig.\n\nViele Grüße\nDas Neuland und StudVer Team\n\nCampus Life Events ist ein Projekt der THI StudVer und wird von Neuland Ingolstadt e.V. entwickelt und betrieben."
    );
}

fn reset_notification(to: &str) -> Notification {
    Notification::PasswordReset {
        recipient: to.to_string(),
        display_name: "Root".to_string(),
        reset_token: "tok".to_string(),
    }
}

#[test]
fn mails_are_composed_by_kind() {
    let mail = compose(&reset_notification("root@uni.example"), "https://x.example/").unwrap();
    assert_eq!(mail.recipient, "root@uni.example");
    assert_eq!(mail.subject, "Passwort zurücksetzen - Campus Life Events");
    assert_eq!(mail.body, render_password_reset_template("Root", "https://x.example/reset-password?token=tok"));

    let invite = Notification::OrganizerInvite {
        recipient: "club@uni.example".to_string(),
        organizer_name: "Debate Club".to_string(),
        setup_token: "a+b".to_string(),
    };
    let mail = compose(&invite, "https://x.example").unwrap();
    assert_eq!(mail.subject, "Willkommen bei Campus Life Events");
    assert_eq!(mail.body, render_invite_template("Debate Club", "https://x.example/register?token=a+b"));

    let invite = Notification::AdminInvite {
        recipient: "Second <second@uni.example>".to_string(),
        display_name: "Second".to_string(),
        setup_token: "t".to_string(),
    };
    let mail = compose(&invite, "https://x.example").unwrap();
    assert_eq!(mail.recipient, "Second <second@uni.example>");
    assert_eq!(mail.subject, "Willkommen bei Campus Life Events");
    assert_eq!(mail.body, render_admin_invite_template("Second", "https://x.example/register?token=t"));

    let pending = PendingSetupToken {
        account_id: 1,
        display_name: "Club".to_string(),
        account_type: AccountType::Organizer,
        organizer_id: Some(1),
    };
    let welcome = welcome_notification("club@uni.example", &pending);
    assert_eq!(recipient(&welcome), "club@uni.example");
    let mail = compose(&welcome, "ignored").unwrap();
    assert_eq!(mail.subject, "Willkommen bei Campus Life Events - Dein Konto ist aktiviert!");
    assert_eq!(mail.body, render_welcome_template("Club", "Organizer"));
}

#[test]
fn recipient_must_be_a_mailbox() {
    for to in ["nobody", "", "a b@c"] {
        match compose(&reset_notification(to), "https://x.example") {
            Err(EmailClientError::InvalidRecipient(m)) => assert_eq!(m, to),
            other => panic!("unexpected {:?} for {:?}", other, to),
        }
    }
    match compose_checked(&reset_notification("root@uni.example"), "https://x.example", false) {
        Err(EmailClientError::InvalidRecipient(m)) => assert_eq!(m, "root@uni.example"),
        other => panic!("unexpected {:?}", other),
    }
    assert!(compose_checked(&reset_notification("nobody"), "https://x.example", true).is_ok());
}
