//! The mails of the service: how the client is configured, and what each mail
//! says. Delivery itself happens outside this crate.
use vstd::prelude::*;
use vstd::string::*;
use crate::auth::{Notification, NotificationView};
use crate::error::EmailClientError;
use crate::text::{concat3, opt_text, str_eq};
use crate::trusted::{
    is_mailbox, mailbox_parses, parse_u16, trim, trim_end_char, trimmed, u16_of_text,
    without_trailing,
};

verus! {

/// The port that mail is submitted to where none is configured.
pub const DEFAULT_SMTP_PORT: u16 = 587;

/// The address of the web client where none is configured.
pub open spec fn default_base_url() -> Seq<char> {
    "http://localhost:3000"@
}

pub open spec fn invite_subject() -> Seq<char> {
    "Willkommen bei Campus Life Events"@
}

pub open spec fn welcome_subject() -> Seq<char> {
    "Willkommen bei Campus Life Events - Dein Konto ist aktiviert!"@
}

pub open spec fn password_reset_subject() -> Seq<char> {
    "Passwort zurücksetzen - Campus Life Events"@
}

/// What the configuration says of the mail server. An absent value was not
/// configured.
#[derive(Debug)]
pub struct SmtpEnvironment {
    pub host: Option<String>,
    pub username: Option<String>,
    pub password: Option<String>,
    pub port: Option<String>,
    pub from_email: Option<String>,
    pub from_name: Option<String>,
    pub base_url: Option<String>,
}

/// The settings of a mail client that can be built.
#[derive(Debug)]
pub struct SmtpSettings {
    pub host: String,
    pub username: String,
    pub password: String,
    pub port: u16,
    pub sender: String,
    pub base_url: String,
}

/// Mathematical value of [`SmtpSettings`].
pub struct SmtpSettingsView {
    pub host: Seq<char>,
    pub username: Seq<char>,
    pub password: Seq<char>,
    pub port: u16,
    pub sender: Seq<char>,
    pub base_url: Seq<char>,
}

impl View for SmtpSettings {
    type V = SmtpSettingsView;

    open spec fn view(&self) -> SmtpSettingsView {
        SmtpSettingsView {
            host: self.host@,
            username: self.username@,
            password: self.password@,
            port: self.port,
            sender: self.sender@,
            base_url: self.base_url@,
        }
    }
}

/// Mathematical value of an [`EmailClientError`].
pub enum EmailClientErrorView {
    IncompleteConfig(Seq<char>),
    InvalidConfig(Seq<char>),
    InvalidRecipient(Seq<char>),
    Build(Seq<char>),
    Transport(Seq<char>),
}

impl View for EmailClientError {
    type V = EmailClientErrorView;

    open spec fn view(&self) -> EmailClientErrorView {
        match self {
            EmailClientError::IncompleteConfig(m) => EmailClientErrorView::IncompleteConfig(m@),
            EmailClientError::InvalidConfig(m) => EmailClientErrorView::InvalidConfig(m@),
            EmailClientError::InvalidRecipient(m) => EmailClientErrorView::InvalidRecipient(m@),
            EmailClientError::Build(m) => EmailClientErrorView::Build(m@),
            EmailClientError::Transport(m) => EmailClientErrorView::Transport(m@),
        }
    }
}

/// The names of the required settings that are absent, in the order host,
/// user name, password, sender, separated by a comma and a space.
pub open spec fn missing_settings(host: bool, username: bool, password: bool, from_email: bool) -> Seq<char> {
    let first = if host {
        "SMTP_HOST"@
    } else {
        Seq::<char>::empty()
    };
    let second = listed(first, username, "SMTP_USERNAME"@);
    let third = listed(second, password, "SMTP_PASSWORD"@);
    listed(third, from_email, "SMTP_FROM_EMAIL"@)
}

/// A list with one more name at its end, if the name is missing.
pub open spec fn listed(list: Seq<char>, missing: bool, name: Seq<char>) -> Seq<char> {
    if !missing {
        list
    } else if list.len() == 0 {
        name
    } else {
        list + ", "@ + name
    }
}

fn list_missing(list: String, missing: bool, name: &str) -> (out: String)
    ensures
        out@ == listed(list@, missing, name@),
{
    if !missing {
        list
    } else if list.as_str().unicode_len() == 0 {
        assert(list@ + name@ =~= name@);
        let mut out = list;
        out.append(name);
        out
    } else {
        let mut out = list;
        out.append(", ");
        out.append(name);
        out
    }
}

/// The sender of every mail: the address, preceded by the name where one is
/// configured that is not blank.
pub open spec fn sender_spec(from_name: Option<Seq<char>>, from_email: Seq<char>) -> Seq<char> {
    match from_name {
        Some(name) => if trimmed(name).len() > 0 {
            name + " <"@ + from_email + ">"@
        } else {
            from_email
        },
        None => from_email,
    }
}

/// The port of the mail server: the configured one, which must be a number, or
/// the default.
pub open spec fn configured_port(port: Option<Seq<char>>) -> Result<u16, EmailClientErrorView> {
    match port {
        Some(text) => match u16_of_text(text) {
            Some(n) => Ok(n),
            None => Err(EmailClientErrorView::InvalidConfig("SMTP_PORT must be a number"@)),
        },
        None => Ok(DEFAULT_SMTP_PORT),
    }
}

/// The settings that a configuration amounts to. Without host, user name,
/// password and sender there is no mail client; with some of them only, the
/// configuration is incomplete; with all of them, the port must be a number
/// and the sender a mailbox.
pub open spec fn configured_settings(
    host: Option<Seq<char>>,
    username: Option<Seq<char>>,
    password: Option<Seq<char>>,
    port: Option<Seq<char>>,
    from_email: Option<Seq<char>>,
    from_name: Option<Seq<char>>,
    base_url: Option<Seq<char>>,
) -> Result<Option<SmtpSettingsView>, EmailClientErrorView> {
    if host is None && username is None && password is None && from_email is None {
        Ok(None)
    } else if host is None || username is None || password is None || from_email is None {
        Err(
            EmailClientErrorView::IncompleteConfig(
                missing_settings(host is None, username is None, password is None, from_email is None),
            ),
        )
    } else {
        match configured_port(port) {
            Err(e) => Err(e),
            Ok(port) => if !is_mailbox(sender_spec(from_name, from_email->0)) {
                Err(EmailClientErrorView::InvalidConfig("SMTP_FROM_EMAIL is invalid"@))
            } else {
                Ok(
                    Some(
                        SmtpSettingsView {
                            host: host->0,
                            username: username->0,
                            password: password->0,
                            port,
                            sender: sender_spec(from_name, from_email->0),
                            base_url: match base_url {
                                Some(url) => url,
                                None => default_base_url(),
                            },
                        },
                    ),
                )
            },
        }
    }
}

/// The mathematical value of the outcome of reading the configuration.
pub open spec fn settings_result_view(r: Result<Option<SmtpSettings>, EmailClientError>) -> Result<
    Option<SmtpSettingsView>,
    EmailClientErrorView,
> {
    match r {
        Ok(Some(s)) => Ok(Some(s@)),
        Ok(None) => Ok(None),
        Err(e) => Err(e@),
    }
}

/// Works out the settings of the mail client from the configuration.
pub fn smtp_settings(env: SmtpEnvironment) -> (r: Result<Option<SmtpSettings>, EmailClientError>)
    ensures
        settings_result_view(r) == configured_settings(
            opt_text(env.host),
            opt_text(env.username),
            opt_text(env.password),
            opt_text(env.port),
            opt_text(env.from_email),
            opt_text(env.from_name),
            opt_text(env.base_url),
        ),
{
    let base_url = match env.base_url {
        Some(url) => url,
        None => "http://localhost:3000".to_string(),
    };
    let (host, username, password, from_email) = match (
        env.host,
        env.username,
        env.password,
        env.from_email,
    ) {
        (Some(host), Some(username), Some(password), Some(from_email)) => (
            host,
            username,
            password,
            from_email,
        ),
        (None, None, None, None) => {
            return Ok(None);
        },
        (host, username, password, from_email) => {
            let list = list_missing(String::new(), host.is_none(), "SMTP_HOST");
            assert(list@ =~= if host is None {
                "SMTP_HOST"@
            } else {
                Seq::<char>::empty()
            });
            let list = list_missing(list, username.is_none(), "SMTP_USERNAME");
            let list = list_missing(list, password.is_none(), "SMTP_PASSWORD");
            let list = list_missing(list, from_email.is_none(), "SMTP_FROM_EMAIL");
            return Err(EmailClientError::IncompleteConfig(list));
        },
    };
    let port = match &env.port {
        Some(text) => match parse_u16(text.as_str()) {
            Some(n) => n,
            None => {
                return Err(EmailClientError::InvalidConfig("SMTP_PORT must be a number".to_string()));
            },
        },
        None => DEFAULT_SMTP_PORT,
    };
    let named = match &env.from_name {
        Some(name) => trim(name.as_str()).as_str().unicode_len() > 0,
        None => false,
    };
    let sender = match &env.from_name {
        Some(name) => {
            if named {
                let mut sender = name.clone();
                sender.append(" <");
                sender.append(from_email.as_str());
                sender.append(">");
                sender
            } else {
                from_email
            }
        },
        None => from_email,
    };
    if !mailbox_parses(sender.as_str()) {
        return Err(EmailClientError::InvalidConfig("SMTP_FROM_EMAIL is invalid".to_string()));
    }
    Ok(Some(SmtpSettings { host, username, password, port, sender, base_url }))
}

/// The page on which an invitation is redeemed.
pub open spec fn registration_url_text(base_url: Seq<char>, token: Seq<char>) -> Seq<char> {
    without_trailing(base_url, '/') + "/register?token="@ + token
}

/// The page on which an invitation is redeemed.
pub fn registration_url(base_url: &str, token: &str) -> (url: String)
    ensures
        url@ == registration_url_text(base_url@, token@),
{
    let trimmed = trim_end_char(base_url, '/');
    concat3(trimmed.as_str(), "/register?token=", token)
}

/// The page on which a password is reset.
pub open spec fn reset_url_text(base_url: Seq<char>, token: Seq<char>) -> Seq<char> {
    without_trailing(base_url, '/') + "/reset-password?token="@ + token
}

/// The page on which a password is reset.
pub fn reset_url(base_url: &str, token: &str) -> (url: String)
    ensures
        url@ == reset_url_text(base_url@, token@),
{
    let trimmed = trim_end_char(base_url, '/');
    concat3(trimmed.as_str(), "/reset-password?token=", token)
}

pub open spec fn greeting() -> Seq<char> {
    "Hallo "@
}

pub open spec fn invite_opening() -> Seq<char> {
    ",\n\nDu wurdest zur Campus Life Events Plattform der THI StudVer eingeladen.\nAls zentrale Plattform für die Veranstaltungen der Vereine an der THI bietet sie dir die Möglichkeit, deine Veranstaltungen zu planen und zu verwalten.\n\nWas dich erwartet:\n- Einfache Veranstaltungsverwaltung: Erstelle und verwalte deine Events intuitiv\n- Campus Life Newsletter: Automatische Integration in den wöchentlichen Newsletter für alle Studierenden\n- Neuland Next App Integration: Deine Veranstaltungen werden direkt in der App präsentiert\n- Moderne Benutzeroberfläche: Der bisherige Moodle-Kurs wird durch diese neue Plattform ersetzt\n- Ein eigener iCal-Kalender für deine Veranstaltungen, zum einfachen Import in Kalender-Apps\n- Echtzeit-Updates: Sofortige Synchronisation zwischen allen Plattformen\nBitte richte dein Konto über folgenden Link ein (gültig für 7 Tage):\n\n"@
}

pub open spec fn invite_closing() -> Seq<char> {
    "\n\nBitte verwende ein sicheres Passwort, um dein Konto zu schützen und teile es nur mit den Organisator*innen deines Vereins.\nDu kannst das Passwort auch auf das von CampusLife vergebene Moodle Passwort ändern, aus Sicherheitsgründen empfehlen wir dies aber nicht.\n\nViele Grüße\nDas Neuland und StudVer Team\n\nCampus Life Events ist ein Projekt der THI StudVer und wird von Neuland Ingolstadt e.V. entwickelt und betrieben."@
}

/// The text that invites an organizer.
pub open spec fn invite_text(organizer_name: Seq<char>, registration_url: Seq<char>) -> Seq<char> {
    greeting() + organizer_name + invite_opening() + registration_url + invite_closing()
}

/// Writes the text that invites an organizer.
pub fn render_invite_template(organizer_name: &str, registration_url: &str) -> (body: String)
    ensures
        body@ == invite_text(organizer_name@, registration_url@),
{
    let mut body = "Hallo ".to_string();
    body.append(organizer_name);
    body.append(
        ",\n\nDu wurdest zur Campus Life Events Plattform der THI StudVer eingeladen.\nAls zentrale Plattform für die Veranstaltungen der Vereine an der THI bietet sie dir die Möglichkeit, deine Veranstaltungen zu planen und zu verwalten.\n\nWas dich erwartet:\n- Einfache Veranstaltungsverwaltung: Erstelle und verwalte deine Events intuitiv\n- Campus Life Newsletter: Automatische Integration in den wöchentlichen Newsletter für alle Studierenden\n- Neuland Next App Integration: Deine Veranstaltungen werden direkt in der App präsentiert\n- Moderne Benutzeroberfläche: Der bisherige Moodle-Kurs wird durch diese neue Plattform ersetzt\n- Ein eigener iCal-Kalender für deine Veranstaltungen, zum einfachen Import in Kalender-Apps\n- Echtzeit-Updates: Sofortige Synchronisation zwischen allen Plattformen\nBitte richte dein Konto über folgenden Link ein (gültig für 7 Tage):\n\n",
    );
    body.append(registration_url);
    body.append(
        "\n\nBitte verwende ein sicheres Passwort, um dein Konto zu schützen und teile es nur mit den Organisator*innen deines Vereins.\nDu kannst das Passwort auch auf das von CampusLife vergebene Moodle Passwort ändern, aus Sicherheitsgründen empfehlen wir dies aber nicht.\n\nViele Grüße\nDas Neuland und StudVer Team\n\nCampus Life Events ist ein Projekt der THI StudVer und wird von Neuland Ingolstadt e.V. entwickelt und betrieben.",
    );
    body
}

pub open spec fn admin_invite_opening() -> Seq<char> {
    ",\n\ndu wurdest als Administrator*in für Campus Life Events eingeladen.\nÜber den Adminbereich kannst du Vereine verwalten, neue Accounts einladen und das Audit-Log einsehen.\n\nBitte richte dein Konto über folgenden Link ein (gültig für 7 Tage):\n\n"@
}

pub open spec fn signature() -> Seq<char> {
    "\n\nViele Grüße\nDas Neuland und StudVer Team\n\nCampus Life Events ist ein Projekt der THI StudVer und wird von Neuland Ingolstadt e.V. entwickelt und betrieben."@
}

/// The text that invites an administrator.
pub open spec fn admin_invite_text(display_name: Seq<char>, registration_url: Seq<char>) -> Seq<char> {
    greeting() + display_name + admin_invite_opening() + registration_url + signature()
}

/// Writes the text that invites an administrator.
pub fn render_admin_invite_template(display_name: &str, registration_url: &str) -> (body: String)
    ensures
        body@ == admin_invite_text(display_name@, registration_url@),
{
    let mut body = "Hallo ".to_string();
    body.append(display_name);
    body.append(
        ",\n\ndu wurdest als Administrator*in für Campus Life Events eingeladen.\nÜber den Adminbereich kannst du Vereine verwalten, neue Accounts einladen und das Audit-Log einsehen.\n\nBitte richte dein Konto über folgenden Link ein (gültig für 7 Tage):\n\n",
    );
    body.append(registration_url);
    body.append(
        "\n\nViele Grüße\nDas Neuland und StudVer Team\n\nCampus Life Events ist ein Projekt der THI StudVer und wird von Neuland Ingolstadt e.V. entwickelt und betrieben.",
    );
    body
}

/// What a welcome mail says of the role of the account.
pub open spec fn role_description(account_type: Seq<char>) -> Seq<char> {
    if account_type == "Admin"@ {
        "Als Administrator*in kannst du Vereine verwalten, neue Accounts einladen und das Audit-Log einsehen."@
    } else if account_type == "Organizer"@ {
        "Als Organisator*in kannst du Veranstaltungen für deinen Verein erstellen und verwalten."@
    } else {
        "Du kannst die Plattform entsprechend deiner Berechtigung nutzen."@
    }
}

pub open spec fn welcome_opening() -> Seq<char> {
    ",\n\nherzlich willkommen bei Campus Life Events! 🎉\nDein Konto wurde erfolgreich aktiviert und du kannst dich jetzt in die Plattform einloggen.\n\n"@
}

pub open spec fn welcome_closing() -> Seq<char> {
    "\nBei Fragen oder Problemen wende dich gerne an uns.\n\nViele Grüße\nDas Neuland und StudVer Team\n\n\nCampus Life Events ist ein Projekt der THI StudVer und wird von Neuland Ingolstadt e.V. entwickelt und betrieben."@
}

/// The text that welcomes an account after its setup.
pub open spec fn welcome_text(display_name: Seq<char>, account_type: Seq<char>) -> Seq<char> {
    greeting() + display_name + welcome_opening() + role_description(account_type)
        + welcome_closing()
}

/// Writes the text that welcomes an account after its setup.
pub fn render_welcome_template(display_name: &str, account_type: &str) -> (body: String)
    ensures
        body@ == welcome_text(display_name@, account_type@),
{
    let role = if str_eq(account_type, "Admin") {
        "Als Administrator*in kannst du Vereine verwalten, neue Accounts einladen und das Audit-Log einsehen."
    } else if str_eq(account_type, "Organizer") {
        "Als Organisator*in kannst du Veranstaltungen für deinen Verein erstellen und verwalten."
    } else {
        "Du kannst die Plattform entsprechend deiner Berechtigung nutzen."
    };
    let mut body = "Hallo ".to_string();
    body.append(display_name);
    body.append(
        ",\n\nherzlich willkommen bei Campus Life Events! 🎉\nDein Konto wurde erfolgreich aktiviert und du kannst dich jetzt in die Plattform einloggen.\n\n",
    );
    body.append(role);
    body.append(
        "\nBei Fragen oder Problemen wende dich gerne an uns.\n\nViele Grüße\nDas Neuland und StudVer Team\n\n\nCampus Life Events ist ein Projekt der THI StudVer und wird von Neuland Ingolstadt e.V. entwickelt und betrieben.",
    );
    body
}

pub open spec fn reset_opening() -> Seq<char> {
    ",\n\ndu hast eine Anfrage zum Zurücksetzen deines Passworts für Campus Life Events gestellt.\n\nUm dein Passwort zurückzusetzen, klicke auf folgenden Link (gültig für 10 Minuten):\n"@
}

pub open spec fn reset_closing() -> Seq<char> {
    "\n\nFalls du diese Anfrage nicht gestellt hast, kannst du diese E-Mail ignorieren.\nDein Passwort bleibt unverändert.\n\nAus Sicherheitsgründen ist dieser Link nur für 10 Minuten gültig.\n\nViele Grüße\nDas Neuland und StudVer Team\n\nCampus Life Events ist ein Projekt der THI StudVer und wird von Neuland Ingolstadt e.V. entwickelt und betrieben."@
}

/// The text that carries a reset link.
pub open spec fn password_reset_text(display_name: Seq<char>, reset_url: Seq<char>) -> Seq<char> {
    greeting() + display_name + reset_opening() + reset_url + reset_closing()
}

/// Writes the text that carries a reset link.
pub fn render_password_reset_template(display_name: &str, reset_url: &str) -> (body: String)
    ensures
        body@ == password_reset_text(display_name@, reset_url@),
{
    let mut body = "Hallo ".to_string();
    body.append(display_name);
    body.append(
        ",\n\ndu hast eine Anfrage zum Zurücksetzen deines Passworts für Campus Life Events gestellt.\n\nUm dein Passwort zurückzusetzen, klicke auf folgenden Link (gültig für 10 Minuten):\n",
    );
    body.append(reset_url);
    body.append(
        "\n\nFalls du diese Anfrage nicht gestellt hast, kannst du diese E-Mail ignorieren.\nDein Passwort bleibt unverändert.\n\nAus Sicherheitsgründen ist dieser Link nur für 10 Minuten gültig.\n\nViele Grüße\nDas Neuland und StudVer Team\n\nCampus Life Events ist ein Projekt der THI StudVer und wird von Neuland Ingolstadt e.V. entwickelt und betrieben.",
    );
    body
}

/// A mail that is ready to be handed to the mail server.
#[derive(Debug)]
pub struct OutgoingMail {
    pub recipient: String,
    pub subject: String,
    pub body: String,
}

/// Mathematical value of an [`OutgoingMail`].
pub struct OutgoingMailView {
    pub recipient: Seq<char>,
    pub subject: Seq<char>,
    pub body: Seq<char>,
}

impl View for OutgoingMail {
    type V = OutgoingMailView;

    open spec fn view(&self) -> OutgoingMailView {
        OutgoingMailView { recipient: self.recipient@, subject: self.subject@, body: self.body@ }
    }
}

/// The recipient of a notification.
pub open spec fn recipient_of(n: NotificationView) -> Seq<char> {
    match n {
        NotificationView::OrganizerInvite { recipient, organizer_name, setup_token } => recipient,
        NotificationView::AdminInvite { recipient, display_name, setup_token } => recipient,
        NotificationView::Welcome { recipient, display_name, account_type } => recipient,
        NotificationView::PasswordReset { recipient, display_name, reset_token } => recipient,
    }
}

/// The subject of a notification.
pub open spec fn subject_of(n: NotificationView) -> Seq<char> {
    match n {
        NotificationView::OrganizerInvite { recipient, organizer_name, setup_token } =>
            invite_subject(),
        NotificationView::AdminInvite { recipient, display_name, setup_token } => invite_subject(),
        NotificationView::Welcome { recipient, display_name, account_type } => welcome_subject(),
        NotificationView::PasswordReset { recipient, display_name, reset_token } =>
            password_reset_subject(),
    }
}

/// The text of a notification for a web client at `base_url`.
pub open spec fn body_of(n: NotificationView, base_url: Seq<char>) -> Seq<char> {
    match n {
        NotificationView::OrganizerInvite { recipient, organizer_name, setup_token } => invite_text(
            organizer_name,
            registration_url_text(base_url, setup_token),
        ),
        NotificationView::AdminInvite { recipient, display_name, setup_token } => admin_invite_text(
            display_name,
            registration_url_text(base_url, setup_token),
        ),
        NotificationView::Welcome { recipient, display_name, account_type } => welcome_text(
            display_name,
            account_type,
        ),
        NotificationView::PasswordReset { recipient, display_name, reset_token } =>
            password_reset_text(display_name, reset_url_text(base_url, reset_token)),
    }
}

/// The mail that a notification amounts to: its recipient must be a mailbox.
pub open spec fn composed(n: NotificationView, base_url: Seq<char>) -> Result<
    OutgoingMailView,
    EmailClientErrorView,
> {
    if !is_mailbox(recipient_of(n)) {
        Err(EmailClientErrorView::InvalidRecipient(recipient_of(n)))
    } else {
        Ok(
            OutgoingMailView {
                recipient: recipient_of(n),
                subject: subject_of(n),
                body: body_of(n, base_url),
            },
        )
    }
}

/// The mathematical value of the outcome of composing a mail.
pub open spec fn mail_result_view(r: Result<OutgoingMail, EmailClientError>) -> Result<
    OutgoingMailView,
    EmailClientErrorView,
> {
    match r {
        Ok(m) => Ok(m@),
        Err(e) => Err(e@),
    }
}

/// Composes the mail for a notification, given whether its recipient is a
/// mailbox.
pub fn compose_checked(notification: &Notification, base_url: &str, recipient_is_mailbox: bool) -> (r:
    Result<OutgoingMail, EmailClientError>)
    ensures
        mail_result_view(r) == if !recipient_is_mailbox {
            Err::<OutgoingMailView, _>(
                EmailClientErrorView::InvalidRecipient(recipient_of(notification@)),
            )
        } else {
            Ok::<_, EmailClientErrorView>(
                OutgoingMailView {
                    recipient: recipient_of(notification@),
                    subject: subject_of(notification@),
                    body: body_of(notification@, base_url@),
                },
            )
        },
{
    match notification {
        Notification::OrganizerInvite { recipient, organizer_name, setup_token } => {
            if !recipient_is_mailbox {
                return Err(EmailClientError::InvalidRecipient(recipient.clone()));
            }
            let url = registration_url(base_url, setup_token.as_str());
            Ok(
                OutgoingMail {
                    recipient: recipient.clone(),
                    subject: "Willkommen bei Campus Life Events".to_string(),
                    body: render_invite_template(organizer_name.as_str(), url.as_str()),
                },
            )
        },
        Notification::AdminInvite { recipient, display_name, setup_token } => {
            if !recipient_is_mailbox {
                return Err(EmailClientError::InvalidRecipient(recipient.clone()));
            }
            let url = registration_url(base_url, setup_token.as_str());
            Ok(
                OutgoingMail {
                    recipient: recipient.clone(),
                    subject: "Willkommen bei Campus Life Events".to_string(),
                    body: render_admin_invite_template(display_name.as_str(), url.as_str()),
                },
            )
        },
        Notification::Welcome { recipient, display_name, account_type } => {
            if !recipient_is_mailbox {
                return Err(EmailClientError::InvalidRecipient(recipient.clone()));
            }
            Ok(
                OutgoingMail {
                    recipient: recipient.clone(),
                    subject: "Willkommen bei Campus Life Events - Dein Konto ist aktiviert!".to_string(),
                    body: render_welcome_template(display_name.as_str(), account_type.as_str()),
                },
            )
        },
        Notification::PasswordReset { recipient, display_name, reset_token } => {
            if !recipient_is_mailbox {
                return Err(EmailClientError::InvalidRecipient(recipient.clone()));
            }
            let url = reset_url(base_url, reset_token.as_str());
            Ok(
                OutgoingMail {
                    recipient: recipient.clone(),
                    subject: "Passwort zurücksetzen - Campus Life Events".to_string(),
                    body: render_password_reset_template(display_name.as_str(), url.as_str()),
                },
            )
        },
    }
}

/// The recipient of a notification.
pub fn recipient(notification: &Notification) -> (to: &String)
    ensures
        to@ == recipient_of(notification@),
{
    match notification {
        Notification::OrganizerInvite { recipient, organizer_name, setup_token } => recipient,
        Notification::AdminInvite { recipient, display_name, setup_token } => recipient,
        Notification::Welcome { recipient, display_name, account_type } => recipient,
        Notification::PasswordReset { recipient, display_name, reset_token } => recipient,
    }
}

/// Composes the mail for a notification.
pub fn compose(notification: &Notification, base_url: &str) -> (r: Result<OutgoingMail, EmailClientError>)
    ensures
        mail_result_view(r) == composed(notification@, base_url@),
{
    let is_mailbox = mailbox_parses(recipient(notification).as_str());
    compose_checked(notification, base_url, is_mailbox)
}

} // verus!
