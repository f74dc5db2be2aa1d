//! The stored state and the statements that read and change it.
//!
//! [`Database`] keeps every table in memory. Each method stands for one
//! statement; its contract says over the mathematical model of
//! [`crate::state`] what the statement returns and what it leaves behind.
use vstd::prelude::*;
use vstd::string::*;
use crate::dto::{CreateEventRequest, UpdateEventRequest, UpdateOrganizerRequest};
use crate::error::{DbError, DbErrorView};
use crate::models::{
    Account, AccountType, AccountView, AuditLogEntry, AuditLogEntryView, AuditType, Event,
    EventView, Organizer, OrganizerView, PasswordResetToken, PasswordResetTokenView, Session,
};
use crate::seqs::{
    any_match, first_match, lemma_filter_push, lemma_first_match_at, lemma_first_match_none,
    lemma_mapped_below_all, lemma_mapped_below_step, lemma_subrange_all, mapped_below,
};
use crate::state;
use crate::state::{DatabaseView, wf};
use crate::text::{opt_str_eq, opt_text, str_eq};

verus! {

pub open spec fn account_views(rows: Seq<Account>) -> Seq<AccountView> {
    rows.map_values(|a: Account| a@)
}

pub open spec fn organizer_views(rows: Seq<Organizer>) -> Seq<OrganizerView> {
    rows.map_values(|o: Organizer| o@)
}

pub open spec fn reset_token_views(rows: Seq<PasswordResetToken>) -> Seq<PasswordResetTokenView> {
    rows.map_values(|t: PasswordResetToken| t@)
}

pub open spec fn event_views(rows: Seq<Event>) -> Seq<EventView> {
    rows.map_values(|e: Event| e@)
}

pub open spec fn audit_views(rows: Seq<AuditLogEntry>) -> Seq<AuditLogEntryView> {
    rows.map_values(|e: AuditLogEntry| e@)
}

/// The mathematical value of an optional account.
pub open spec fn opt_account_view(a: Option<Account>) -> Option<AccountView> {
    match a {
        Some(a) => Some(a@),
        None => None,
    }
}

/// The mathematical value of the outcome of a statement.
pub open spec fn db_result_view<T>(r: Result<T, DbError>) -> Result<T, DbErrorView> {
    match r {
        Ok(v) => Ok(v),
        Err(e) => Err(e@),
    }
}

/// The tables of the service, held in memory.
pub struct Database {
    accounts: Vec<Account>,
    organizers: Vec<Organizer>,
    sessions: Vec<Session>,
    reset_tokens: Vec<PasswordResetToken>,
    events: Vec<Event>,
    audit_log: Vec<AuditLogEntry>,
    next_account_id: i64,
    next_organizer_id: i64,
    next_reset_token_id: i64,
    next_event_id: i64,
    next_audit_id: i64,
}

impl View for Database {
    type V = DatabaseView;

    closed spec fn view(&self) -> DatabaseView {
        DatabaseView {
            accounts: account_views(self.accounts@),
            organizers: organizer_views(self.organizers@),
            sessions: self.sessions@,
            reset_tokens: reset_token_views(self.reset_tokens@),
            events: event_views(self.events@),
            audit_log: audit_views(self.audit_log@),
            next_account_id: self.next_account_id,
            next_organizer_id: self.next_organizer_id,
            next_reset_token_id: self.next_reset_token_id,
            next_event_id: self.next_event_id,
            next_audit_id: self.next_audit_id,
        }
    }
}

fn unique_violation() -> (e: DbError)
    ensures
        e@ == state::unique_violation(),
{
    DbError::Database {
        code: Some("23505".to_string()),
        message: "duplicate key value violates unique constraint".to_string(),
    }
}

fn check_violation() -> (e: DbError)
    ensures
        e@ == state::check_violation(),
{
    DbError::Database {
        code: Some("23514".to_string()),
        message: "new row violates check constraint".to_string(),
    }
}

fn foreign_key_violation() -> (e: DbError)
    ensures
        e@ == state::foreign_key_violation(),
{
    DbError::Database {
        code: Some("23503".to_string()),
        message: "insert or update violates foreign key constraint".to_string(),
    }
}

fn sequence_exhausted() -> (e: DbError)
    ensures
        e@ == state::sequence_exhausted(),
{
    DbError::Database {
        code: Some("2200H".to_string()),
        message: "nextval: reached maximum value of sequence".to_string(),
    }
}

impl Database {
    /// Whether the constraints of the schema hold.
    pub open spec fn wf(&self) -> bool {
        wf(self@)
    }

    /// A database without rows.
    pub fn new() -> (db: Database)
        ensures
            db@ == state::empty_database(),
            db.wf(),
    {
        let db = Database {
            accounts: Vec::new(),
            organizers: Vec::new(),
            sessions: Vec::new(),
            reset_tokens: Vec::new(),
            events: Vec::new(),
            audit_log: Vec::new(),
            next_account_id: 1,
            next_organizer_id: 1,
            next_reset_token_id: 1,
            next_event_id: 1,
            next_audit_id: 1,
        };
        assert(db@.accounts =~= Seq::empty());
        assert(db@.organizers =~= Seq::empty());
        assert(db@.reset_tokens =~= Seq::empty());
        assert(db@.events =~= Seq::empty());
        assert(db@.audit_log =~= Seq::empty());
        db
    }

    /// The account with the given e-mail address.
    pub fn find_account_by_email(&self, email: &str) -> (found: Option<Account>)
        ensures
            opt_account_view(found) == first_match(self@.accounts, state::has_email(email@)),
    {
        let mut i: usize = 0;
        while i < self.accounts.len()
            invariant
                i <= self.accounts.len(),
                forall|j: int| 0 <= j < i ==> !state::has_email(email@)(#[trigger] self@.accounts[j]),
            decreases self.accounts.len() - i,
        {
            if opt_str_eq(&self.accounts[i].email, email) {
                proof {
                    lemma_first_match_at(self@.accounts, state::has_email(email@), i as int);
                }
                return Some(self.accounts[i].duplicate());
            }
            i = i + 1;
        }
        proof {
            lemma_first_match_none(self@.accounts, state::has_email(email@));
        }
        None
    }

    /// The account that carries the given setup token.
    pub fn find_account_by_setup_token(&self, token: &str) -> (found: Option<Account>)
        ensures
            opt_account_view(found) == first_match(self@.accounts, state::has_setup_token(token@)),
    {
        let mut i: usize = 0;
        while i < self.accounts.len()
            invariant
                i <= self.accounts.len(),
                forall|j: int|
                    0 <= j < i ==> !state::has_setup_token(token@)(#[trigger] self@.accounts[j]),
            decreases self.accounts.len() - i,
        {
            if opt_str_eq(&self.accounts[i].setup_token, token) {
                proof {
                    lemma_first_match_at(self@.accounts, state::has_setup_token(token@), i as int);
                }
                return Some(self.accounts[i].duplicate());
            }
            i = i + 1;
        }
        proof {
            lemma_first_match_none(self@.accounts, state::has_setup_token(token@));
        }
        None
    }

    /// The account with the given number.
    pub fn find_account_by_id(&self, id: i64) -> (found: Option<Account>)
        ensures
            opt_account_view(found) == first_match(self@.accounts, state::has_account_id(id)),
    {
        let mut i: usize = 0;
        while i < self.accounts.len()
            invariant
                i <= self.accounts.len(),
                forall|j: int| 0 <= j < i ==> !state::has_account_id(id)(#[trigger] self@.accounts[j]),
            decreases self.accounts.len() - i,
        {
            if self.accounts[i].id == id {
                proof {
                    lemma_first_match_at(self@.accounts, state::has_account_id(id), i as int);
                }
                return Some(self.accounts[i].duplicate());
            }
            i = i + 1;
        }
        proof {
            lemma_first_match_none(self@.accounts, state::has_account_id(id));
        }
        None
    }

    fn email_exists(&self, email: &str) -> (found: bool)
        ensures
            found == any_match(self@.accounts, state::has_email(email@)),
    {
        let mut i: usize = 0;
        while i < self.accounts.len()
            invariant
                i <= self.accounts.len(),
                forall|j: int| 0 <= j < i ==> !state::has_email(email@)(#[trigger] self@.accounts[j]),
            decreases self.accounts.len() - i,
        {
            if opt_str_eq(&self.accounts[i].email, email) {
                assert(state::has_email(email@)(self@.accounts[i as int]));
                return true;
            }
            i = i + 1;
        }
        false
    }

    fn setup_token_exists(&self, token: &str) -> (found: bool)
        ensures
            found == any_match(self@.accounts, state::has_setup_token(token@)),
    {
        let mut i: usize = 0;
        while i < self.accounts.len()
            invariant
                i <= self.accounts.len(),
                forall|j: int|
                    0 <= j < i ==> !state::has_setup_token(token@)(#[trigger] self@.accounts[j]),
            decreases self.accounts.len() - i,
        {
            if opt_str_eq(&self.accounts[i].setup_token, token) {
                assert(state::has_setup_token(token@)(self@.accounts[i as int]));
                return true;
            }
            i = i + 1;
        }
        false
    }

    /// Stores the account of a new invitation and returns its number.
    pub fn insert_account(
        &mut self,
        account_type: AccountType,
        organizer_id: Option<i64>,
        display_name: String,
        email: String,
        token: String,
        expires_at: i64,
        now: i64,
    ) -> (r: Result<i64, DbError>)
        requires
            old(self).wf(),
        ensures
            final(self).wf(),
            (final(self)@, db_result_view(r)) == state::insert_account(
                old(self)@,
                account_type,
                organizer_id,
                display_name@,
                email@,
                token@,
                expires_at,
                now,
            ),
    {
        let is_organizer = match account_type {
            AccountType::Organizer => true,
            AccountType::Admin => false,
        };
        if is_organizer != organizer_id.is_some() {
            return Err(check_violation());
        }
        if self.email_exists(email.as_str()) || self.setup_token_exists(token.as_str()) {
            return Err(unique_violation());
        }
        if self.next_account_id == i64::MAX {
            return Err(sequence_exhausted());
        }
        let id = self.next_account_id;
        let ghost before = self@;
        let ghost row = state::invited_account(
            id,
            account_type,
            organizer_id,
            display_name@,
            email@,
            token@,
            expires_at,
            now,
        );
        self.accounts.push(
            Account {
                id,
                account_type,
                organizer_id,
                display_name,
                email: Some(email),
                password_hash: None,
                setup_token: Some(token),
                setup_token_expires_at: Some(expires_at),
                created_at: now,
                updated_at: now,
            },
        );
        self.next_account_id = id + 1;
        proof {
            assert(self@.accounts =~= before.accounts.push(row));
            state::lemma_insert_account_keeps_wf(
                before,
                account_type,
                organizer_id,
                row.display_name,
                row.email->0,
                row.setup_token->0,
                expires_at,
                now,
            );
        }
        Ok(id)
    }

    fn email_taken_by_other(&self, id: i64, email: &str) -> (taken: bool)
        ensures
            taken == state::email_taken_by_other(self@, id, email@),
    {
        let mut i: usize = 0;
        while i < self.accounts.len()
            invariant
                i <= self.accounts.len(),
                forall|j: int|
                    0 <= j < i ==> !((#[trigger] self@.accounts[j]).email == Some(email@)
                        && self@.accounts[j].id != id),
            decreases self.accounts.len() - i,
        {
            if self.accounts[i].id != id && opt_str_eq(&self.accounts[i].email, email) {
                assert(self@.accounts[i as int].email == Some(email@));
                return true;
            }
            i = i + 1;
        }
        false
    }

    /// Completes the setup of the account `id` if it still carries `token` and
    /// has no password, and returns the number of rows changed.
    pub fn complete_setup(
        &mut self,
        id: i64,
        token: &str,
        email: &str,
        password_hash: &str,
        now: i64,
    ) -> (r: Result<u64, DbError>)
        requires
            old(self).wf(),
        ensures
            final(self).wf(),
            final(self)@ == state::complete_setup(
                old(self)@,
                id,
                token@,
                email@,
                password_hash@,
                now,
            ).0,
            match state::complete_setup(old(self)@, id, token@, email@, password_hash@, now).1 {
                Ok(rows) => r matches Ok(n) && n == rows,
                Err(e) => r matches Err(err) && err@ == e,
            },
    {
        let ghost before = self@;
        let ghost p = state::awaits_setup(id, token@);
        let mut matches: u64 = 0;
        let mut i: usize = 0;
        while i < self.accounts.len()
            invariant
                i <= self.accounts.len(),
                matches <= i,
                matches == self@.accounts.subrange(0, i as int).filter(p).len(),
                matches == 0 ==> forall|j: int| 0 <= j < i ==> !p(#[trigger] self@.accounts[j]),
                matches > 0 ==> any_match(self@.accounts, p),
                p == state::awaits_setup(id, token@),
            decreases self.accounts.len() - i,
        {
            proof {
                lemma_filter_push(self@.accounts.subrange(0, i as int), p, self@.accounts[i as int]);
                assert(self@.accounts.subrange(0, i + 1) =~= self@.accounts.subrange(0, i as int).push(
                    self@.accounts[i as int],
                ));
            }
            if self.accounts[i].id == id && opt_str_eq(&self.accounts[i].setup_token, token)
                && self.accounts[i].password_hash.is_none() {
                assert(p(self@.accounts[i as int]));
                matches = matches + 1;
            }
            i = i + 1;
        }
        proof {
            lemma_subrange_all(self@.accounts);
        }
        if matches == 0 {
            return Ok(0);
        }
        if self.email_taken_by_other(id, email) {
            return Err(unique_violation());
        }
        let ghost f = |a: AccountView|
            if state::awaits_setup(id, token@)(a) {
                state::completed(a, email@, password_hash@, now)
            } else {
                a
            };
        let mut i: usize = 0;
        while i < self.accounts.len()
            invariant
                i <= self.accounts.len(),
                self@ == (DatabaseView { accounts: self@.accounts, ..before }),
                mapped_below(self@.accounts, before.accounts, f, i as int),
                f == |a: AccountView|
                    if state::awaits_setup(id, token@)(a) {
                        state::completed(a, email@, password_hash@, now)
                    } else {
                        a
                    },
            decreases self.accounts.len() - i,
        {
            let ghost prev = self@.accounts;
            assert(prev[i as int] == before.accounts[i as int]);
            if self.accounts[i].id == id && opt_str_eq(&self.accounts[i].setup_token, token)
                && self.accounts[i].password_hash.is_none() {
                self.accounts[i].email = Some(email.to_string());
                self.accounts[i].password_hash = Some(password_hash.to_string());
                self.accounts[i].setup_token = None;
                self.accounts[i].setup_token_expires_at = None;
                self.accounts[i].updated_at = now;
            }
            proof {
                assert(self@.accounts =~= prev.update(i as int, f(prev[i as int])));
                lemma_mapped_below_step(prev, self@.accounts, before.accounts, f, i as int);
            }
            i = i + 1;
        }
        proof {
            lemma_mapped_below_all(self@.accounts, before.accounts, f);
            state::lemma_complete_setup_keeps_wf(before, id, token@, email@, password_hash@, now);
        }
        Ok(matches)
    }

    /// Sets a new password for the account `id`.
    pub fn set_password(&mut self, id: i64, password_hash: &str, now: i64)
        requires
            old(self).wf(),
        ensures
            final(self).wf(),
            final(self)@ == state::set_password(old(self)@, id, password_hash@, now),
    {
        let ghost before = self@;
        let ghost f = |a: AccountView|
            if a.id == id {
                AccountView { password_hash: Some(password_hash@), updated_at: now, ..a }
            } else {
                a
            };
        let mut i: usize = 0;
        while i < self.accounts.len()
            invariant
                i <= self.accounts.len(),
                self@ == (DatabaseView { accounts: self@.accounts, ..before }),
                mapped_below(self@.accounts, before.accounts, f, i as int),
                f == |a: AccountView|
                    if a.id == id {
                        AccountView { password_hash: Some(password_hash@), updated_at: now, ..a }
                    } else {
                        a
                    },
            decreases self.accounts.len() - i,
        {
            let ghost prev = self@.accounts;
            assert(prev[i as int] == before.accounts[i as int]);
            if self.accounts[i].id == id {
                self.accounts[i].password_hash = Some(password_hash.to_string());
                self.accounts[i].updated_at = now;
            }
            proof {
                assert(self@.accounts =~= prev.update(i as int, f(prev[i as int])));
                lemma_mapped_below_step(prev, self@.accounts, before.accounts, f, i as int);
            }
            i = i + 1;
        }
        proof {
            lemma_mapped_below_all(self@.accounts, before.accounts, f);
            state::lemma_set_password_keeps_wf(before, id, password_hash@, now);
        }
    }

    fn count_pending_accounts_of_organizer(&self, organizer_id: i64) -> (rows: u64)
        ensures
            rows == self@.accounts.filter(state::is_pending_account_of_organizer(organizer_id)).len(),
    {
        let ghost p = state::is_pending_account_of_organizer(organizer_id);
        let mut rows: u64 = 0;
        let mut i: usize = 0;
        while i < self.accounts.len()
            invariant
                i <= self.accounts.len(),
                rows <= i,
                rows == self@.accounts.subrange(0, i as int).filter(p).len(),
                p == state::is_pending_account_of_organizer(organizer_id),
            decreases self.accounts.len() - i,
        {
            proof {
                lemma_filter_push(self@.accounts.subrange(0, i as int), p, self@.accounts[i as int]);
                assert(self@.accounts.subrange(0, i + 1) =~= self@.accounts.subrange(0, i as int).push(
                    self@.accounts[i as int],
                ));
            }
            if is_pending_account_of_organizer(&self.accounts[i], organizer_id) {
                rows = rows + 1;
            }
            i = i + 1;
        }
        proof {
            lemma_subrange_all(self@.accounts);
        }
        rows
    }

    fn token_taken_by_other(&self, organizer_id: i64, token: &str) -> (taken: bool)
        ensures
            taken == state::token_taken_by_other(self@, organizer_id, token@),
    {
        let mut i: usize = 0;
        while i < self.accounts.len()
            invariant
                i <= self.accounts.len(),
                forall|j: int|
                    0 <= j < i ==> !((#[trigger] self@.accounts[j]).setup_token == Some(token@)
                        && !state::is_pending_account_of_organizer(organizer_id)(self@.accounts[j])),
            decreases self.accounts.len() - i,
        {
            if !is_pending_account_of_organizer(&self.accounts[i], organizer_id) && opt_str_eq(
                &self.accounts[i].setup_token,
                token,
            ) {
                assert(self@.accounts[i as int].setup_token == Some(token@));
                return true;
            }
            i = i + 1;
        }
        false
    }

    /// Issues a fresh setup token to the account of an organizer, if it has no
    /// password yet, and returns the number of rows changed.
    pub fn reissue_setup_token(&mut self, organizer_id: i64, token: &str, expires_at: i64, now: i64) -> (r:
        Result<u64, DbError>)
        requires
            old(self).wf(),
        ensures
            final(self).wf(),
            final(self)@ == state::reissue_setup_token(
                old(self)@,
                organizer_id,
                token@,
                expires_at,
                now,
            ).0,
            match state::reissue_setup_token(old(self)@, organizer_id, token@, expires_at, now).1 {
                Ok(rows) => r matches Ok(n) && n == rows,
                Err(e) => r matches Err(err) && err@ == e,
            },
    {
        let ghost before = self@;
        let rows = self.count_pending_accounts_of_organizer(organizer_id);
        if rows == 0 {
            return Ok(0);
        }
        if rows > 1 || self.token_taken_by_other(organizer_id, token) {
            return Err(unique_violation());
        }
        let ghost f = |a: AccountView|
            if state::is_pending_account_of_organizer(organizer_id)(a) {
                AccountView {
                    setup_token: Some(token@),
                    setup_token_expires_at: Some(expires_at),
                    updated_at: now,
                    ..a
                }
            } else {
                a
            };
        let mut i: usize = 0;
        while i < self.accounts.len()
            invariant
                i <= self.accounts.len(),
                self@ == (DatabaseView { accounts: self@.accounts, ..before }),
                mapped_below(self@.accounts, before.accounts, f, i as int),
                f == |a: AccountView|
                    if state::is_pending_account_of_organizer(organizer_id)(a) {
                        AccountView {
                            setup_token: Some(token@),
                            setup_token_expires_at: Some(expires_at),
                            updated_at: now,
                            ..a
                        }
                    } else {
                        a
                    },
            decreases self.accounts.len() - i,
        {
            let ghost prev = self@.accounts;
            assert(prev[i as int] == before.accounts[i as int]);
            if is_pending_account_of_organizer(&self.accounts[i], organizer_id) {
                self.accounts[i].setup_token = Some(token.to_string());
                self.accounts[i].setup_token_expires_at = Some(expires_at);
                self.accounts[i].updated_at = now;
            }
            proof {
                assert(self@.accounts =~= prev.update(i as int, f(prev[i as int])));
                lemma_mapped_below_step(prev, self@.accounts, before.accounts, f, i as int);
            }
            i = i + 1;
        }
        proof {
            lemma_mapped_below_all(self@.accounts, before.accounts, f);
            state::lemma_reissue_setup_token_keeps_wf(before, organizer_id, token@, expires_at, now);
        }
        Ok(rows)
    }

    fn session_exists(&self, id: u128) -> (found: bool)
        ensures
            found == any_match(self@.sessions, state::has_session_id(id)),
    {
        let mut i: usize = 0;
        while i < self.sessions.len()
            invariant
                i <= self.sessions.len(),
                forall|j: int| 0 <= j < i ==> !state::has_session_id(id)(#[trigger] self@.sessions[j]),
            decreases self.sessions.len() - i,
        {
            if self.sessions[i].id == id {
                assert(state::has_session_id(id)(self@.sessions[i as int]));
                return true;
            }
            i = i + 1;
        }
        false
    }

    fn account_exists(&self, id: i64) -> (found: bool)
        ensures
            found == any_match(self@.accounts, state::has_account_id(id)),
    {
        let mut i: usize = 0;
        while i < self.accounts.len()
            invariant
                i <= self.accounts.len(),
                forall|j: int| 0 <= j < i ==> !state::has_account_id(id)(#[trigger] self@.accounts[j]),
            decreases self.accounts.len() - i,
        {
            if self.accounts[i].id == id {
                assert(state::has_account_id(id)(self@.accounts[i as int]));
                return true;
            }
            i = i + 1;
        }
        false
    }

    /// Stores a session.
    pub fn insert_session(&mut self, session: Session) -> (r: Result<(), DbError>)
        requires
            old(self).wf(),
        ensures
            final(self).wf(),
            (final(self)@, db_result_view(r)) == state::insert_session(old(self)@, session),
    {
        let ghost before = self@;
        if self.session_exists(session.id) {
            return Err(unique_violation());
        }
        if !self.account_exists(session.account_id) {
            return Err(foreign_key_violation());
        }
        self.sessions.push(session);
        proof {
            state::lemma_insert_session_keeps_wf(before, session);
        }
        Ok(())
    }

    /// The account that the session `id` stands for at `now`.
    pub fn find_session_account(&self, id: u128, now: i64) -> (found: Option<Account>)
        ensures
            opt_account_view(found) == state::session_account(self@, id, now),
    {
        let mut i: usize = 0;
        while i < self.sessions.len()
            invariant
                i <= self.sessions.len(),
                forall|j: int|
                    0 <= j < i ==> !state::is_live_session(id, now)(#[trigger] self@.sessions[j]),
            decreases self.sessions.len() - i,
        {
            if self.sessions[i].id == id && self.sessions[i].expires_at > now {
                proof {
                    lemma_first_match_at(self@.sessions, state::is_live_session(id, now), i as int);
                }
                return self.find_account_by_id(self.sessions[i].account_id);
            }
            i = i + 1;
        }
        proof {
            lemma_first_match_none(self@.sessions, state::is_live_session(id, now));
        }
        None
    }

    /// Removes the session `id`, if it is stored.
    pub fn delete_session(&mut self, id: u128)
        requires
            old(self).wf(),
        ensures
            final(self).wf(),
            final(self)@ == state::delete_session(old(self)@, id),
    {
        let ghost before = self@;
        let ghost keep = state::is_other_session(id);
        let mut kept: Vec<Session> = Vec::new();
        let mut i: usize = 0;
        while i < self.sessions.len()
            invariant
                i <= self.sessions.len(),
                kept@ == self.sessions@.subrange(0, i as int).filter(keep),
                keep == state::is_other_session(id),
            decreases self.sessions.len() - i,
        {
            let s = self.sessions[i];
            proof {
                lemma_filter_push(self.sessions@.subrange(0, i as int), keep, s);
                assert(self.sessions@.subrange(0, i + 1) =~= self.sessions@.subrange(0, i as int).push(
                    s,
                ));
            }
            if s.id != id {
                kept.push(s);
            }
            i = i + 1;
        }
        proof {
            lemma_subrange_all(self.sessions@);
            state::lemma_delete_sessions_keeps_wf(before, keep);
        }
        self.sessions = kept;
    }

    /// Removes every session of an account.
    pub fn delete_sessions_of(&mut self, account_id: i64)
        requires
            old(self).wf(),
        ensures
            final(self).wf(),
            final(self)@ == state::delete_sessions_of(old(self)@, account_id),
    {
        let ghost before = self@;
        let ghost keep = state::belongs_to_other_account(account_id);
        let mut kept: Vec<Session> = Vec::new();
        let mut i: usize = 0;
        while i < self.sessions.len()
            invariant
                i <= self.sessions.len(),
                kept@ == self.sessions@.subrange(0, i as int).filter(keep),
                keep == state::belongs_to_other_account(account_id),
            decreases self.sessions.len() - i,
        {
            let s = self.sessions[i];
            proof {
                lemma_filter_push(self.sessions@.subrange(0, i as int), keep, s);
                assert(self.sessions@.subrange(0, i + 1) =~= self.sessions@.subrange(0, i as int).push(
                    s,
                ));
            }
            if s.account_id != account_id {
                kept.push(s);
            }
            i = i + 1;
        }
        proof {
            lemma_subrange_all(self.sessions@);
            state::lemma_delete_sessions_keeps_wf(before, keep);
        }
        self.sessions = kept;
    }

    /// Removes the reset tokens of an account that were never used.
    pub fn delete_unused_reset_tokens(&mut self, account_id: i64)
        requires
            old(self).wf(),
        ensures
            final(self).wf(),
            final(self)@ == state::delete_unused_reset_tokens(old(self)@, account_id),
    {
        let ghost before = self@;
        let ghost keep = state::survives_new_request(account_id);
        let mut kept: Vec<PasswordResetToken> = Vec::new();
        let mut i: usize = 0;
        while i < self.reset_tokens.len()
            invariant
                i <= self.reset_tokens.len(),
                reset_token_views(kept@) == self@.reset_tokens.subrange(0, i as int).filter(keep),
                keep == state::survives_new_request(account_id),
            decreases self.reset_tokens.len() - i,
        {
            proof {
                lemma_filter_push(
                    self@.reset_tokens.subrange(0, i as int),
                    keep,
                    self@.reset_tokens[i as int],
                );
                assert(self@.reset_tokens.subrange(0, i + 1) =~= self@.reset_tokens.subrange(
                    0,
                    i as int,
                ).push(self@.reset_tokens[i as int]));
            }
            if !(self.reset_tokens[i].account_id == account_id && self.reset_tokens[i].used_at.is_none()) {
                let ghost earlier = reset_token_views(kept@);
                kept.push(self.reset_tokens[i].duplicate());
                assert(reset_token_views(kept@) =~= earlier.push(self@.reset_tokens[i as int]));
            }
            i = i + 1;
        }
        proof {
            lemma_subrange_all(self@.reset_tokens);
            state::lemma_delete_reset_tokens_keeps_wf(before, keep);
        }
        self.reset_tokens = kept;
    }

    fn reset_token_exists(&self, token: &str) -> (found: bool)
        ensures
            found == any_match(self@.reset_tokens, state::has_reset_token(token@)),
    {
        let mut i: usize = 0;
        while i < self.reset_tokens.len()
            invariant
                i <= self.reset_tokens.len(),
                forall|j: int|
                    0 <= j < i ==> !state::has_reset_token(token@)(#[trigger] self@.reset_tokens[j]),
            decreases self.reset_tokens.len() - i,
        {
            if str_eq(self.reset_tokens[i].token.as_str(), token) {
                assert(state::has_reset_token(token@)(self@.reset_tokens[i as int]));
                return true;
            }
            i = i + 1;
        }
        false
    }

    /// Stores a reset token for an account and returns its number.
    pub fn insert_reset_token(&mut self, account_id: i64, token: String, expires_at: i64, now: i64) -> (r:
        Result<i64, DbError>)
        requires
            old(self).wf(),
        ensures
            final(self).wf(),
            (final(self)@, db_result_view(r)) == state::insert_reset_token(
                old(self)@,
                account_id,
                token@,
                expires_at,
                now,
            ),
    {
        let ghost before = self@;
        if self.reset_token_exists(token.as_str()) {
            return Err(unique_violation());
        }
        if self.next_reset_token_id == i64::MAX {
            return Err(sequence_exhausted());
        }
        let id = self.next_reset_token_id;
        let ghost row = PasswordResetTokenView {
            id,
            account_id,
            token: token@,
            expires_at,
            used_at: None,
            created_at: now,
        };
        self.reset_tokens.push(
            PasswordResetToken { id, account_id, token, expires_at, used_at: None, created_at: now },
        );
        self.next_reset_token_id = id + 1;
        proof {
            assert(self@.reset_tokens =~= before.reset_tokens.push(row));
            state::lemma_insert_reset_token_keeps_wf(before, account_id, row.token, expires_at, now);
        }
        Ok(id)
    }

    /// The reset token that `token` redeems at `now`, with the account it was
    /// issued to.
    pub fn find_usable_reset_token(&self, token: &str, now: i64) -> (found: Option<
        (PasswordResetToken, Account),
    >)
        ensures
            match state::usable_reset_token(self@, token@, now) {
                Some(pair) => found matches Some(f) && f.0@ == pair.0 && f.1@ == pair.1,
                None => found is None,
            },
    {
        let mut i: usize = 0;
        while i < self.reset_tokens.len()
            invariant
                i <= self.reset_tokens.len(),
                forall|j: int|
                    0 <= j < i ==> !state::is_usable_reset_token(token@, now)(
                        #[trigger] self@.reset_tokens[j],
                    ),
            decreases self.reset_tokens.len() - i,
        {
            if str_eq(self.reset_tokens[i].token.as_str(), token) && self.reset_tokens[i].expires_at
                > now && self.reset_tokens[i].used_at.is_none() {
                proof {
                    lemma_first_match_at(
                        self@.reset_tokens,
                        state::is_usable_reset_token(token@, now),
                        i as int,
                    );
                }
                return match self.find_account_by_id(self.reset_tokens[i].account_id) {
                    Some(account) => Some((self.reset_tokens[i].duplicate(), account)),
                    None => None,
                };
            }
            i = i + 1;
        }
        proof {
            lemma_first_match_none(self@.reset_tokens, state::is_usable_reset_token(token@, now));
        }
        None
    }

    /// The number of rows that marking the reset token `id` as used would
    /// change.
    pub fn unused_reset_token_rows(&self, id: i64) -> (rows: u64)
        ensures
            rows == state::unused_reset_token_rows(self@, id),
    {
        let ghost p = state::is_unused_reset_token(id);
        let mut rows: u64 = 0;
        let mut i: usize = 0;
        while i < self.reset_tokens.len()
            invariant
                i <= self.reset_tokens.len(),
                rows <= i,
                rows == self@.reset_tokens.subrange(0, i as int).filter(p).len(),
                p == state::is_unused_reset_token(id),
            decreases self.reset_tokens.len() - i,
        {
            proof {
                lemma_filter_push(
                    self@.reset_tokens.subrange(0, i as int),
                    p,
                    self@.reset_tokens[i as int],
                );
                assert(self@.reset_tokens.subrange(0, i + 1) =~= self@.reset_tokens.subrange(
                    0,
                    i as int,
                ).push(self@.reset_tokens[i as int]));
            }
            if self.reset_tokens[i].id == id && self.reset_tokens[i].used_at.is_none() {
                rows = rows + 1;
            }
            i = i + 1;
        }
        proof {
            lemma_subrange_all(self@.reset_tokens);
        }
        rows
    }

    /// Marks the reset token `id` as used at `now`, if it was never used.
    pub fn mark_reset_token_used(&mut self, id: i64, now: i64)
        requires
            old(self).wf(),
        ensures
            final(self).wf(),
            final(self)@ == state::mark_reset_token_used(old(self)@, id, now),
    {
        let ghost before = self@;
        let ghost f = |t: PasswordResetTokenView|
            if state::is_unused_reset_token(id)(t) {
                PasswordResetTokenView { used_at: Some(now), ..t }
            } else {
                t
            };
        let mut i: usize = 0;
        while i < self.reset_tokens.len()
            invariant
                i <= self.reset_tokens.len(),
                self@ == (DatabaseView { reset_tokens: self@.reset_tokens, ..before }),
                mapped_below(self@.reset_tokens, before.reset_tokens, f, i as int),
                f == |t: PasswordResetTokenView|
                    if state::is_unused_reset_token(id)(t) {
                        PasswordResetTokenView { used_at: Some(now), ..t }
                    } else {
                        t
                    },
            decreases self.reset_tokens.len() - i,
        {
            let ghost prev = self@.reset_tokens;
            assert(prev[i as int] == before.reset_tokens[i as int]);
            if self.reset_tokens[i].id == id && self.reset_tokens[i].used_at.is_none() {
                self.reset_tokens[i].used_at = Some(now);
            }
            proof {
                assert(self@.reset_tokens =~= prev.update(i as int, f(prev[i as int])));
                lemma_mapped_below_step(prev, self@.reset_tokens, before.reset_tokens, f, i as int);
            }
            i = i + 1;
        }
        proof {
            lemma_mapped_below_all(self@.reset_tokens, before.reset_tokens, f);
            state::lemma_mark_reset_token_used_keeps_wf(before, id, now);
        }
    }

    /// Stores an organizer with the given name and returns its number.
    pub fn insert_organizer(&mut self, name: String, now: i64) -> (r: Result<i64, DbError>)
        requires
            old(self).wf(),
        ensures
            final(self).wf(),
            (final(self)@, db_result_view(r)) == state::insert_organizer(old(self)@, name@, now),
    {
        let ghost before = self@;
        if self.next_organizer_id == i64::MAX {
            return Err(sequence_exhausted());
        }
        let id = self.next_organizer_id;
        let ghost row = state::new_organizer(id, name@, now);
        self.organizers.push(
            Organizer {
                id,
                name,
                description_de: None,
                description_en: None,
                website_url: None,
                instagram_url: None,
                location: None,
                linkedin_url: None,
                registration_number: None,
                non_profit: false,
                newsletter: false,
                created_at: now,
                updated_at: now,
            },
        );
        self.next_organizer_id = id + 1;
        proof {
            assert(self@.organizers =~= before.organizers.push(row));
            assert(self@ == state::insert_organizer(before, row.name, now).0);
        }
        Ok(id)
    }

    /// Whether the organizer `id` may read the newsletter data.
    pub fn organizer_newsletter(&self, id: i64) -> (flag: Option<bool>)
        ensures
            flag == state::organizer_newsletter(self@, id),
    {
        let mut i: usize = 0;
        while i < self.organizers.len()
            invariant
                i <= self.organizers.len(),
                forall|j: int|
                    0 <= j < i ==> !state::has_organizer_id(id)(#[trigger] self@.organizers[j]),
            decreases self.organizers.len() - i,
        {
            if self.organizers[i].id == id {
                proof {
                    lemma_first_match_at(self@.organizers, state::has_organizer_id(id), i as int);
                }
                return Some(self.organizers[i].newsletter);
            }
            i = i + 1;
        }
        proof {
            lemma_first_match_none(self@.organizers, state::has_organizer_id(id));
        }
        None
    }

    /// Grants or withdraws the newsletter permission of the organizer `id` and
    /// returns the number of rows changed.
    pub fn set_organizer_newsletter(&mut self, id: i64, newsletter: bool, now: i64) -> (rows: u64)
        requires
            old(self).wf(),
        ensures
            final(self).wf(),
            final(self)@ == state::set_organizer_newsletter(old(self)@, id, newsletter, now),
            rows == state::count_organizers(old(self)@, id),
    {
        let ghost before = self@;
        let ghost p = state::has_organizer_id(id);
        let ghost f = |o: OrganizerView|
            if o.id == id {
                OrganizerView { newsletter, updated_at: now, ..o }
            } else {
                o
            };
        let mut rows: u64 = 0;
        let mut i: usize = 0;
        while i < self.organizers.len()
            invariant
                i <= self.organizers.len(),
                rows <= i,
                rows == before.organizers.subrange(0, i as int).filter(p).len(),
                p == state::has_organizer_id(id),
                self@ == (DatabaseView { organizers: self@.organizers, ..before }),
                mapped_below(self@.organizers, before.organizers, f, i as int),
                f == |o: OrganizerView|
                    if o.id == id {
                        OrganizerView { newsletter, updated_at: now, ..o }
                    } else {
                        o
                    },
            decreases self.organizers.len() - i,
        {
            let ghost prev = self@.organizers;
            assert(prev[i as int] == before.organizers[i as int]);
            proof {
                lemma_filter_push(
                    before.organizers.subrange(0, i as int),
                    p,
                    before.organizers[i as int],
                );
                assert(before.organizers.subrange(0, i + 1) =~= before.organizers.subrange(
                    0,
                    i as int,
                ).push(before.organizers[i as int]));
            }
            if self.organizers[i].id == id {
                self.organizers[i].newsletter = newsletter;
                self.organizers[i].updated_at = now;
                rows = rows + 1;
            }
            proof {
                assert(self@.organizers =~= prev.update(i as int, f(prev[i as int])));
                lemma_mapped_below_step(prev, self@.organizers, before.organizers, f, i as int);
            }
            i = i + 1;
        }
        proof {
            lemma_mapped_below_all(self@.organizers, before.organizers, f);
            lemma_subrange_all(before.organizers);
            assert(self@ == state::set_organizer_newsletter(before, id, newsletter, now));
        }
        rows
    }

    /// The organizer with the given number.
    pub fn find_organizer(&self, id: i64) -> (found: Option<Organizer>)
        ensures
            match state::organizer_by_id(self@, id) {
                Some(o) => found matches Some(f) && f@ == o,
                None => found is None,
            },
    {
        let mut i: usize = 0;
        while i < self.organizers.len()
            invariant
                i <= self.organizers.len(),
                forall|j: int|
                    0 <= j < i ==> !state::has_organizer_id(id)(#[trigger] self@.organizers[j]),
            decreases self.organizers.len() - i,
        {
            if self.organizers[i].id == id {
                proof {
                    lemma_first_match_at(self@.organizers, state::has_organizer_id(id), i as int);
                }
                return Some(self.organizers[i].duplicate());
            }
            i = i + 1;
        }
        proof {
            lemma_first_match_none(self@.organizers, state::has_organizer_id(id));
        }
        None
    }

    /// The account that was invited for an organizer.
    pub fn find_account_of_organizer(&self, organizer_id: i64) -> (found: Option<Account>)
        ensures
            opt_account_view(found) == state::account_of_organizer(self@, organizer_id),
    {
        let mut i: usize = 0;
        while i < self.accounts.len()
            invariant
                i <= self.accounts.len(),
                forall|j: int|
                    0 <= j < i ==> !state::is_account_of_organizer(organizer_id)(
                        #[trigger] self@.accounts[j],
                    ),
            decreases self.accounts.len() - i,
        {
            if is_account_of_organizer(&self.accounts[i], organizer_id) {
                proof {
                    lemma_first_match_at(
                        self@.accounts,
                        state::is_account_of_organizer(organizer_id),
                        i as int,
                    );
                }
                return Some(self.accounts[i].duplicate());
            }
            i = i + 1;
        }
        proof {
            lemma_first_match_none(self@.accounts, state::is_account_of_organizer(organizer_id));
        }
        None
    }

    /// Stores an invited organizer together with its account and returns the
    /// number of the organizer. Where the account cannot be stored, nothing is.
    pub fn invite_organizer(&mut self, name: &str, email: &str, token: &str, expires_at: i64, now: i64) -> (r:
        Result<i64, DbError>)
        requires
            old(self).wf(),
        ensures
            final(self).wf(),
            (final(self)@, db_result_view(r)) == state::invite_organizer(
                old(self)@,
                name@,
                email@,
                token@,
                expires_at,
                now,
            ),
    {
        if self.next_organizer_id == i64::MAX {
            return Err(sequence_exhausted());
        }
        if self.email_exists(email) || self.setup_token_exists(token) {
            return Err(unique_violation());
        }
        if self.next_account_id == i64::MAX {
            return Err(sequence_exhausted());
        }
        let organizer_id = match self.insert_organizer(name.to_string(), now) {
            Ok(id) => id,
            Err(e) => {
                assert(false);
                return Err(e);
            },
        };
        match self.insert_account(
            AccountType::Organizer,
            Some(organizer_id),
            name.to_string(),
            email.to_string(),
            token.to_string(),
            expires_at,
            now,
        ) {
            Ok(_) => Ok(organizer_id),
            Err(e) => {
                assert(false);
                Err(e)
            },
        }
    }

    fn organizer_exists(&self, id: i64) -> (found: bool)
        ensures
            found == any_match(self@.organizers, state::has_organizer_id(id)),
    {
        let mut i: usize = 0;
        while i < self.organizers.len()
            invariant
                i <= self.organizers.len(),
                forall|j: int|
                    0 <= j < i ==> !state::has_organizer_id(id)(#[trigger] self@.organizers[j]),
            decreases self.organizers.len() - i,
        {
            if self.organizers[i].id == id {
                assert(state::has_organizer_id(id)(self@.organizers[i as int]));
                return true;
            }
            i = i + 1;
        }
        false
    }

    /// The event that [`Database::insert_event`] would store and return, or
    /// the failure it would end in.
    pub fn draft_event(&self, organizer_id: i64, payload: &CreateEventRequest, now: i64) -> (r: Result<
        Event,
        DbError,
    >)
        ensures
            match state::insert_event(self@, organizer_id, payload@, now).1 {
                Ok(e) => r matches Ok(event) && event@ == e,
                Err(e) => r matches Err(err) && err@ == e,
            },
    {
        if !self.organizer_exists(organizer_id) {
            return Err(foreign_key_violation());
        }
        if self.next_event_id == i64::MAX {
            return Err(sequence_exhausted());
        }
        Ok(
            Event {
                id: self.next_event_id,
                organizer_id,
                title_de: payload.title_de.clone(),
                title_en: payload.title_en.clone(),
                description_de: payload.description_de.clone(),
                description_en: payload.description_en.clone(),
                start_date_time: payload.start_date_time,
                end_date_time: Some(payload.end_date_time),
                event_url: payload.event_url.clone(),
                location: payload.location.clone(),
                publish_app: payload.publish_app,
                publish_newsletter: payload.publish_newsletter,
                publish_in_ical: payload.publish_in_ical,
                publish_web: payload.publish_web,
                created_at: now,
                updated_at: now,
            },
        )
    }

    /// Stores an event for an organizer and returns it.
    pub fn insert_event(&mut self, organizer_id: i64, payload: &CreateEventRequest, now: i64) -> (r: Result<
        Event,
        DbError,
    >)
        requires
            old(self).wf(),
        ensures
            final(self).wf(),
            final(self)@ == state::insert_event(old(self)@, organizer_id, payload@, now).0,
            match state::insert_event(old(self)@, organizer_id, payload@, now).1 {
                Ok(e) => r matches Ok(event) && event@ == e,
                Err(e) => r matches Err(err) && err@ == e,
            },
    {
        let ghost before = self@;
        let event = match self.draft_event(organizer_id, payload, now) {
            Ok(event) => event,
            Err(e) => {
                return Err(e);
            },
        };
        self.events.push(event.duplicate());
        self.next_event_id = self.next_event_id + 1;
        proof {
            assert(self@.events =~= before.events.push(event@));
            assert(self@ == state::insert_event(before, organizer_id, payload@, now).0);
        }
        Ok(event)
    }

    /// The event with the given number.
    pub fn find_event(&self, id: i64) -> (found: Option<Event>)
        ensures
            match state::event_by_id(self@, id) {
                Some(e) => found matches Some(f) && f@ == e,
                None => found is None,
            },
    {
        let mut i: usize = 0;
        while i < self.events.len()
            invariant
                i <= self.events.len(),
                forall|j: int| 0 <= j < i ==> !state::has_event_id(id)(#[trigger] self@.events[j]),
            decreases self.events.len() - i,
        {
            if self.events[i].id == id {
                proof {
                    lemma_first_match_at(self@.events, state::has_event_id(id), i as int);
                }
                return Some(self.events[i].duplicate());
            }
            i = i + 1;
        }
        proof {
            lemma_first_match_none(self@.events, state::has_event_id(id));
        }
        None
    }

    /// Changes the event `id` as the request says.
    pub fn update_event(&mut self, id: i64, payload: &UpdateEventRequest, now: i64)
        requires
            old(self).wf(),
        ensures
            final(self).wf(),
            final(self)@ == state::update_event(old(self)@, id, payload@, now),
    {
        let ghost before = self@;
        let ghost c = payload@;
        let ghost f = |e: EventView|
            if e.id == id {
                state::changed_event(e, c, now)
            } else {
                e
            };
        let mut i: usize = 0;
        while i < self.events.len()
            invariant
                i <= self.events.len(),
                c == payload@,
                self@ == (DatabaseView { events: self@.events, ..before }),
                mapped_below(self@.events, before.events, f, i as int),
                f == |e: EventView|
                    if e.id == id {
                        state::changed_event(e, c, now)
                    } else {
                        e
                    },
            decreases self.events.len() - i,
        {
            let ghost prev = self@.events;
            assert(prev[i as int] == before.events[i as int]);
            if self.events[i].id == id {
                let changed = changed_event(&self.events[i], payload, now);
                self.events[i] = changed;
            }
            proof {
                assert(self@.events =~= prev.update(i as int, f(prev[i as int])));
                lemma_mapped_below_step(prev, self@.events, before.events, f, i as int);
            }
            i = i + 1;
        }
        proof {
            lemma_mapped_below_all(self@.events, before.events, f);
            assert(self@ == state::update_event(before, id, c, now));
        }
    }

    /// Removes the event `id`, if it is stored.
    pub fn delete_event(&mut self, id: i64)
        requires
            old(self).wf(),
        ensures
            final(self).wf(),
            final(self)@ == state::delete_event(old(self)@, id),
    {
        let ghost before = self@;
        let ghost keep = state::is_other_event(id);
        let mut kept: Vec<Event> = Vec::new();
        let mut i: usize = 0;
        while i < self.events.len()
            invariant
                i <= self.events.len(),
                event_views(kept@) == self@.events.subrange(0, i as int).filter(keep),
                keep == state::is_other_event(id),
            decreases self.events.len() - i,
        {
            proof {
                lemma_filter_push(self@.events.subrange(0, i as int), keep, self@.events[i as int]);
                assert(self@.events.subrange(0, i + 1) =~= self@.events.subrange(0, i as int).push(
                    self@.events[i as int],
                ));
            }
            if self.events[i].id != id {
                let ghost earlier = event_views(kept@);
                kept.push(self.events[i].duplicate());
                assert(event_views(kept@) =~= earlier.push(self@.events[i as int]));
            }
            i = i + 1;
        }
        proof {
            lemma_subrange_all(self@.events);
        }
        self.events = kept;
        proof {
            assert(self@ == state::delete_event(before, id));
        }
    }

    /// Whether the counter of the audit log is used up.
    pub fn audit_log_full(&self) -> (full: bool)
        ensures
            full == (self@.next_audit_id == i64::MAX),
    {
        self.next_audit_id == i64::MAX
    }

    /// Appends an entry to the audit log.
    pub fn insert_audit(
        &mut self,
        event_id: i64,
        organizer_id: i64,
        user_id: i64,
        audit_type: AuditType,
        old_data: Option<String>,
        new_data: Option<String>,
        now: i64,
    ) -> (r: Result<(), DbError>)
        requires
            old(self).wf(),
        ensures
            final(self).wf(),
            (final(self)@, db_result_view(r)) == state::insert_audit(
                old(self)@,
                event_id,
                organizer_id,
                user_id,
                audit_type,
                opt_text(old_data),
                opt_text(new_data),
                now,
            ),
    {
        let ghost before = self@;
        if self.next_audit_id == i64::MAX {
            return Err(sequence_exhausted());
        }
        let id = self.next_audit_id;
        let ghost row = state::audit_entry(
            id,
            event_id,
            organizer_id,
            user_id,
            audit_type,
            opt_text(old_data),
            opt_text(new_data),
            now,
        );
        self.audit_log.push(
            AuditLogEntry {
                id,
                event_id,
                organizer_id,
                user_id: Some(user_id),
                audit_type,
                at: now,
                old_data,
                new_data,
            },
        );
        self.next_audit_id = id + 1;
        proof {
            assert(self@.audit_log =~= before.audit_log.push(row));
            assert(self@ == state::insert_audit(
                before,
                event_id,
                organizer_id,
                user_id,
                audit_type,
                row.old_data,
                row.new_data,
                now,
            ).0);
        }
        Ok(())
    }

    /// The entries of the audit log, oldest first.
    pub fn audit_entries(&self) -> (entries: Vec<AuditLogEntry>)
        ensures
            audit_views(entries@) == self@.audit_log,
    {
        let mut entries: Vec<AuditLogEntry> = Vec::new();
        let mut i: usize = 0;
        while i < self.audit_log.len()
            invariant
                i <= self.audit_log.len(),
                audit_views(entries@) == self@.audit_log.subrange(0, i as int),
            decreases self.audit_log.len() - i,
        {
            let ghost earlier = audit_views(entries@);
            entries.push(self.audit_log[i].duplicate());
            assert(audit_views(entries@) =~= earlier.push(self@.audit_log[i as int]));
            assert(self@.audit_log.subrange(0, i + 1) =~= self@.audit_log.subrange(0, i as int).push(
                self@.audit_log[i as int],
            ));
            i = i + 1;
        }
        proof {
            lemma_subrange_all(self@.audit_log);
        }
        entries
    }

    /// The accounts of a role, in the order in which they were stored.
    pub fn accounts_of_type(&self, account_type: AccountType) -> (rows: Vec<Account>)
        ensures
            account_views(rows@) == self@.accounts.filter(state::has_account_type(account_type)),
    {
        let ghost keep = state::has_account_type(account_type);
        let mut rows: Vec<Account> = Vec::new();
        let mut i: usize = 0;
        while i < self.accounts.len()
            invariant
                i <= self.accounts.len(),
                account_views(rows@) == self@.accounts.subrange(0, i as int).filter(keep),
                keep == state::has_account_type(account_type),
            decreases self.accounts.len() - i,
        {
            proof {
                lemma_filter_push(self@.accounts.subrange(0, i as int), keep, self@.accounts[i as int]);
                assert(self@.accounts.subrange(0, i + 1) =~= self@.accounts.subrange(0, i as int).push(
                    self@.accounts[i as int],
                ));
            }
            if self.accounts[i].account_type == account_type {
                let ghost earlier = account_views(rows@);
                rows.push(self.accounts[i].duplicate());
                assert(account_views(rows@) =~= earlier.push(self@.accounts[i as int]));
            }
            i = i + 1;
        }
        proof {
            lemma_subrange_all(self@.accounts);
        }
        rows
    }

    /// The organizers, in the order in which they were stored.
    pub fn all_organizers(&self) -> (rows: Vec<Organizer>)
        ensures
            organizer_views(rows@) == self@.organizers,
    {
        let mut rows: Vec<Organizer> = Vec::new();
        let mut i: usize = 0;
        while i < self.organizers.len()
            invariant
                i <= self.organizers.len(),
                organizer_views(rows@) == self@.organizers.subrange(0, i as int),
            decreases self.organizers.len() - i,
        {
            let ghost earlier = organizer_views(rows@);
            rows.push(self.organizers[i].duplicate());
            assert(organizer_views(rows@) =~= earlier.push(self@.organizers[i as int]));
            assert(self@.organizers.subrange(0, i + 1) =~= self@.organizers.subrange(0, i as int).push(
                self@.organizers[i as int],
            ));
            i = i + 1;
        }
        proof {
            lemma_subrange_all(self@.organizers);
        }
        rows
    }

    /// Changes the organizer `id` as the request says.
    pub fn update_organizer(&mut self, id: i64, payload: &UpdateOrganizerRequest, now: i64)
        requires
            old(self).wf(),
        ensures
            final(self).wf(),
            final(self)@ == state::update_organizer(old(self)@, id, payload@, now),
    {
        let ghost before = self@;
        let ghost c = payload@;
        let ghost f = |o: OrganizerView|
            if o.id == id {
                state::changed_organizer(o, c, now)
            } else {
                o
            };
        let mut i: usize = 0;
        while i < self.organizers.len()
            invariant
                i <= self.organizers.len(),
                c == payload@,
                self@ == (DatabaseView { organizers: self@.organizers, ..before }),
                mapped_below(self@.organizers, before.organizers, f, i as int),
                f == |o: OrganizerView|
                    if o.id == id {
                        state::changed_organizer(o, c, now)
                    } else {
                        o
                    },
            decreases self.organizers.len() - i,
        {
            let ghost prev = self@.organizers;
            assert(prev[i as int] == before.organizers[i as int]);
            if self.organizers[i].id == id {
                let changed = changed_organizer(&self.organizers[i], payload, now);
                self.organizers[i] = changed;
            }
            proof {
                assert(self@.organizers =~= prev.update(i as int, f(prev[i as int])));
                lemma_mapped_below_step(prev, self@.organizers, before.organizers, f, i as int);
            }
            i = i + 1;
        }
        proof {
            lemma_mapped_below_all(self@.organizers, before.organizers, f);
            assert(self@ == state::update_organizer(before, id, c, now));
        }
    }

    /// The events, in the order in which they were stored.
    pub fn all_events(&self) -> (rows: Vec<Event>)
        ensures
            event_views(rows@) == self@.events,
    {
        let mut rows: Vec<Event> = Vec::new();
        let mut i: usize = 0;
        while i < self.events.len()
            invariant
                i <= self.events.len(),
                event_views(rows@) == self@.events.subrange(0, i as int),
            decreases self.events.len() - i,
        {
            let ghost earlier = event_views(rows@);
            rows.push(self.events[i].duplicate());
            assert(event_views(rows@) =~= earlier.push(self@.events[i as int]));
            assert(self@.events.subrange(0, i + 1) =~= self@.events.subrange(0, i as int).push(
                self@.events[i as int],
            ));
            i = i + 1;
        }
        proof {
            lemma_subrange_all(self@.events);
        }
        rows
    }
}

fn is_pending_account_of_organizer(a: &Account, organizer_id: i64) -> (is: bool)
    ensures
        is == state::is_pending_account_of_organizer(organizer_id)(a@),
{
    is_account_of_organizer(a, organizer_id) && a.password_hash.is_none()
}

fn is_account_of_organizer(a: &Account, organizer_id: i64) -> (is: bool)
    ensures
        is == state::is_account_of_organizer(organizer_id)(a@),
{
    let same_organizer = match a.organizer_id {
        Some(o) => o == organizer_id,
        None => false,
    };
    same_organizer && a.account_type == AccountType::Organizer
}

fn changed_text(change: &Option<String>, current: &String) -> (text: String)
    ensures
        text@ == state::changed(opt_text(*change), current@),
{
    match change {
        Some(v) => v.clone(),
        None => current.clone(),
    }
}

fn changed_opt_text(change: &Option<String>, current: &Option<String>) -> (text: Option<String>)
    ensures
        opt_text(text) == state::changed_opt(opt_text(*change), opt_text(*current)),
{
    match change {
        Some(v) => Some(v.clone()),
        None => current.clone(),
    }
}

fn changed_flag(change: Option<bool>, current: bool) -> (flag: bool)
    ensures
        flag == state::changed(change, current),
{
    match change {
        Some(v) => v,
        None => current,
    }
}

/// The event after a change at `now`: every field that the request names takes
/// the value of the request.
pub fn changed_event(e: &Event, payload: &UpdateEventRequest, now: i64) -> (event: Event)
    ensures
        event@ == state::changed_event(e@, payload@, now),
{
    Event {
        id: e.id,
        organizer_id: e.organizer_id,
        title_de: changed_text(&payload.title_de, &e.title_de),
        title_en: changed_text(&payload.title_en, &e.title_en),
        description_de: changed_opt_text(&payload.description_de, &e.description_de),
        description_en: changed_opt_text(&payload.description_en, &e.description_en),
        start_date_time: match payload.start_date_time {
            Some(v) => v,
            None => e.start_date_time,
        },
        end_date_time: match payload.end_date_time {
            Some(v) => Some(v),
            None => e.end_date_time,
        },
        event_url: changed_opt_text(&payload.event_url, &e.event_url),
        location: changed_opt_text(&payload.location, &e.location),
        publish_app: changed_flag(payload.publish_app, e.publish_app),
        publish_newsletter: changed_flag(payload.publish_newsletter, e.publish_newsletter),
        publish_in_ical: changed_flag(payload.publish_in_ical, e.publish_in_ical),
        publish_web: changed_flag(payload.publish_web, e.publish_web),
        created_at: e.created_at,
        updated_at: now,
    }
}

/// The organizer after a change at `now`: every field that the request names
/// takes the value of the request.
pub fn changed_organizer(o: &Organizer, payload: &UpdateOrganizerRequest, now: i64) -> (organizer:
    Organizer)
    ensures
        organizer@ == state::changed_organizer(o@, payload@, now),
{
    Organizer {
        id: o.id,
        name: changed_text(&payload.name, &o.name),
        description_de: changed_opt_text(&payload.description_de, &o.description_de),
        description_en: changed_opt_text(&payload.description_en, &o.description_en),
        website_url: changed_opt_text(&payload.website_url, &o.website_url),
        instagram_url: changed_opt_text(&payload.instagram_url, &o.instagram_url),
        location: changed_opt_text(&payload.location, &o.location),
        linkedin_url: changed_opt_text(&payload.linkedin_url, &o.linkedin_url),
        registration_number: changed_opt_text(
            &payload.registration_number,
            &o.registration_number,
        ),
        non_profit: changed_flag(payload.non_profit, o.non_profit),
        newsletter: o.newsletter,
        created_at: o.created_at,
        updated_at: now,
    }
}

} // verus!
