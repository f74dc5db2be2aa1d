//! What holds of the operations taken together: tokens are redeemed once,
//! a new password ends every session, and no initialized account keeps a
//! setup token.
use vstd::prelude::*;
use crate::admin::{
    invitation_expiry, invite_admin_outcome, update_organizer_permissions_outcome,
};
use crate::auth::{
    change_password_outcome, init_account_outcome, invalid_setup_token, login_outcome,
    logout_outcome, new_password_hash, new_session, open_session_outcome,
    pending_setup_token, redeem_reset_outcome, redeem_setup_outcome,
    request_password_reset_outcome, reset_password_outcome, rotate_password_outcome,
    PendingSetupTokenView,
};
use crate::dto::{CreateEventRequestView, UpdateEventRequestView};
use crate::cookies::session_cookie_text;
use crate::error::{AppErrorView, STATUS_CREATED, STATUS_NO_CONTENT, STATUS_OK};
use crate::policy::policy_verdict;
use crate::events::{
    create_event_outcome, delete_event_outcome, record_audit_outcome, update_event_outcome,
};
use crate::models::{
    snapshots_match_type, AccountType, AccountView, AuditType, EventView, PasswordResetTokenView,
    Session,
};
use crate::organizers::{create_organizer_outcome, generate_setup_token_outcome};
use crate::seqs::{
    any_match, first_match, lemma_any_match_members, lemma_filter_members,
    lemma_first_match_is_member, lemma_map_members, lemma_push_members,
};
use crate::shared::{account_of_request, account_of_session, principal_of_request};
use crate::state::{accounts_settled, one_unused_reset_token, wf, DatabaseView};
use crate::state;
use crate::trusted::{argon2_accepts, argon2_phc, uuid_text};

verus! {

/// A setup token that no account carries redeems nothing: the attempt fails as
/// already initialized and changes nothing.
pub proof fn law_absent_setup_token_is_refused(
    db: DatabaseView,
    a: PendingSetupTokenView,
    token: Seq<char>,
    email: Seq<char>,
    password_hash: Seq<char>,
    session_id: u128,
    session_text: Seq<char>,
    secure: bool,
    now: i64,
)
    requires
        !any_match(db.accounts, state::has_setup_token(token)),
    ensures
        redeem_setup_outcome(
            db,
            a,
            token,
            email,
            password_hash,
            session_id,
            session_text,
            secure,
            now,
        ) == (db, Err::<crate::auth::InitAccountOutcomeView, AppErrorView>(
                AppErrorView::Validation("account already initialized"@),
            )),
{
    assert(!any_match(db.accounts, state::awaits_setup(a.account_id, token))) by {
        if any_match(db.accounts, state::awaits_setup(a.account_id, token)) {
            let i = choose|i: int|
                0 <= i < db.accounts.len() && state::awaits_setup(a.account_id, token)(
                    #[trigger] db.accounts[i],
                );
            assert(state::has_setup_token(token)(db.accounts[i]));
        }
    }
}

/// Once a setup token was redeemed, no account carries it.
pub proof fn law_redeemed_setup_token_is_gone(
    db: DatabaseView,
    a: PendingSetupTokenView,
    token: Seq<char>,
    email: Seq<char>,
    password_hash: Seq<char>,
    session_id: u128,
    session_text: Seq<char>,
    secure: bool,
    now: i64,
)
    requires
        wf(db),
        redeem_setup_outcome(
            db,
            a,
            token,
            email,
            password_hash,
            session_id,
            session_text,
            secure,
            now,
        ).1 is Ok,
    ensures
        !any_match(
            redeem_setup_outcome(
                db,
                a,
                token,
                email,
                password_hash,
                session_id,
                session_text,
                secure,
                now,
            ).0.accounts,
            state::has_setup_token(token),
        ),
{
    let p = state::awaits_setup(a.account_id, token);
    let f = |x: AccountView|
        if state::awaits_setup(a.account_id, token)(x) {
            state::completed(x, email, password_hash, now)
        } else {
            x
        };
    let completed = state::complete_setup(db, a.account_id, token, email, password_hash, now).0;
    let after = redeem_setup_outcome(
        db,
        a,
        token,
        email,
        password_hash,
        session_id,
        session_text,
        secure,
        now,
    ).0;
    assert(after.accounts == completed.accounts);
    assert(any_match(db.accounts, p));
    assert(completed.accounts == db.accounts.map_values(f));
    let k = choose|k: int| 0 <= k < db.accounts.len() && p(#[trigger] db.accounts[k]);
    assert(db.accounts.contains(db.accounts[k]));
    if any_match(completed.accounts, state::has_setup_token(token)) {
        let i = choose|i: int|
            0 <= i < completed.accounts.len() && state::has_setup_token(token)(
                #[trigger] completed.accounts[i],
            );
        assert(completed.accounts[i] == f(db.accounts[i]));
        assert(db.accounts.contains(db.accounts[i]));
        assert(db.accounts[i] == db.accounts[k]);
    }
}

/// A setup token is redeemed at most once: after a redemption that succeeded,
/// every further attempt with the same token, by whomever and with whatever
/// address, password or session, fails as already initialized, and changes
/// nothing: no account, and no session.
pub proof fn law_setup_token_single_use(
    db: DatabaseView,
    token: Seq<char>,
    first: PendingSetupTokenView,
    email: Seq<char>,
    password_hash: Seq<char>,
    session_id: u128,
    session_text: Seq<char>,
    secure: bool,
    now: i64,
    second: PendingSetupTokenView,
    other_email: Seq<char>,
    other_password_hash: Seq<char>,
    other_session_id: u128,
    other_session_text: Seq<char>,
    later: i64,
)
    requires
        wf(db),
        redeem_setup_outcome(
            db,
            first,
            token,
            email,
            password_hash,
            session_id,
            session_text,
            secure,
            now,
        ).1 is Ok,
    ensures
        ({
            let after = redeem_setup_outcome(
                db,
                first,
                token,
                email,
                password_hash,
                session_id,
                session_text,
                secure,
                now,
            ).0;
            redeem_setup_outcome(
                after,
                second,
                token,
                other_email,
                other_password_hash,
                other_session_id,
                other_session_text,
                secure,
                later,
            ) == (
                after,
                Err::<crate::auth::InitAccountOutcomeView, AppErrorView>(
                AppErrorView::Validation("account already initialized"@),
            ),
            )
        }),
{
    law_redeemed_setup_token_is_gone(
        db,
        first,
        token,
        email,
        password_hash,
        session_id,
        session_text,
        secure,
        now,
    );
    let after = redeem_setup_outcome(
        db,
        first,
        token,
        email,
        password_hash,
        session_id,
        session_text,
        secure,
        now,
    ).0;
    law_absent_setup_token_is_refused(
        after,
        second,
        token,
        other_email,
        other_password_hash,
        other_session_id,
        other_session_text,
        secure,
        later,
    );
}

/// An invitation is accepted at most once: after a setup that succeeded, every
/// further setup with the same token, with whatever address, password, salt
/// or session and at any instant, fails as an invalid setup token and changes
/// nothing.
pub proof fn law_invitation_is_accepted_once(
    db: DatabaseView,
    token: Seq<char>,
    email: Seq<char>,
    password: Seq<char>,
    secure: bool,
    now: i64,
    session_id: u128,
    salt: Seq<char>,
    other_email: Seq<char>,
    other_password: Seq<char>,
    other_secure: bool,
    later: i64,
    other_session_id: u128,
    other_salt: Seq<char>,
)
    requires
        wf(db),
        init_account_outcome(db, token, email, password, secure, now, session_id, salt).1 is Ok,
    ensures
        ({
            let after = init_account_outcome(
                db,
                token,
                email,
                password,
                secure,
                now,
                session_id,
                salt,
            ).0;
            init_account_outcome(
                after,
                token,
                other_email,
                other_password,
                other_secure,
                later,
                other_session_id,
                other_salt,
            ) == (after, Err::<crate::auth::InitAccountOutcomeView, AppErrorView>(
                    invalid_setup_token(),
                ))
        }),
{
    let pending = pending_setup_token(db, token, now)->Ok_0;
    let hash = new_password_hash(password, salt, "failed to hash password"@)->Ok_0;
    let issued = token;
    law_redeemed_setup_token_is_gone(
        db,
        pending,
        issued,
        email,
        hash,
        session_id,
        uuid_text(session_id),
        secure,
        now,
    );
    let after = init_account_outcome(db, token, email, password, secure, now, session_id, salt).0;
    lemma_first_match_is_member(after.accounts, state::has_setup_token(issued));
}

/// When a setup is owed success: the token is pending, the password
/// satisfies the policy and can be hashed with the salt, the address belongs
/// to no other account and the session identifier is not in use. The answer
/// then carries the name and role of the invited account and the cookie of
/// the new session, which is the one session that is added.
pub proof fn law_pending_setup_succeeds(
    db: DatabaseView,
    token: Seq<char>,
    email: Seq<char>,
    password: Seq<char>,
    secure: bool,
    now: i64,
    session_id: u128,
    salt: Seq<char>,
)
    requires
        wf(db),
        pending_setup_token(db, token, now) is Ok,
        policy_verdict(password) is Ok,
        argon2_phc(password, salt) is Some,
        !state::email_taken_by_other(db, pending_setup_token(db, token, now)->Ok_0.account_id, email),
        !any_match(db.sessions, state::has_session_id(session_id)),
    ensures
        ({
            let invited = pending_setup_token(db, token, now)->Ok_0;
            let outcome = init_account_outcome(
                db,
                token,
                email,
                password,
                secure,
                now,
                session_id,
                salt,
            );
            &&& outcome.1 matches Ok(o) && o.response.status == STATUS_OK
                && o.response.body.account_id == invited.account_id
                && o.response.body.display_name == invited.display_name
                && o.response.body.account_type == invited.account_type
                && o.response.body.organizer_id == invited.organizer_id
                && o.response.set_cookie == session_cookie_text(uuid_text(session_id), secure)
            &&& outcome.0.sessions == db.sessions.push(
                new_session(session_id, invited.account_id, now),
            )
        }),
{
    let invited = pending_setup_token(db, token, now)->Ok_0;
    let hash = argon2_phc(password, salt)->0;
    lemma_first_match_is_member(db.accounts, state::has_setup_token(token));
    let a = first_match(db.accounts, state::has_setup_token(token))->0;
    let p = state::awaits_setup(invited.account_id, token);
    assert(p(a));
    let i = choose|i: int| 0 <= i < db.accounts.len() && db.accounts[i] == a;
    assert(p(db.accounts[i]));
    lemma_filter_members(db.accounts, p);
    assert(db.accounts.filter(p).contains(a));
    let completed = state::complete_setup(db, invited.account_id, token, email, hash, now).0;
    assert(completed.accounts[i].id == invited.account_id);
    assert(state::has_account_id(invited.account_id)(completed.accounts[i]));
}

/// When a change of password is owed success: the request is signed in, the
/// account accepts the current password, and the new one satisfies the policy
/// and is hashed with the salt to a hash that accepts it, as every hash that
/// the hasher returns does. Then the answer is 204, no session of the
/// account is left, the calling one included, the sessions of other accounts
/// are as they were, and the account accepts the new password.
pub proof fn law_change_password_succeeds(
    db: DatabaseView,
    cookie_header: Option<Seq<char>>,
    current_password: Seq<char>,
    new_password: Seq<char>,
    now: i64,
    salt: Seq<char>,
)
    requires
        wf(db),
        account_of_request(db, cookie_header, now) matches Ok(a) && a.password_hash matches Some(
            hash,
        ) && argon2_accepts(current_password, hash),
        policy_verdict(new_password) is Ok,
        argon2_phc(new_password, salt) matches Some(hash) && argon2_accepts(new_password, hash),
    ensures
        ({
            let a = account_of_request(db, cookie_header, now)->Ok_0;
            let outcome = change_password_outcome(
                db,
                cookie_header,
                current_password,
                new_password,
                now,
                salt,
            );
            &&& outcome.1 == Ok::<u16, AppErrorView>(STATUS_NO_CONTENT)
            &&& forall|s: Session| #[trigger]
                outcome.0.sessions.contains(s) <==> db.sessions.contains(s) && s.account_id != a.id
            &&& crate::auth::account_accepts(outcome.0, a.id, new_password)
        }),
{
    let a = account_of_request(db, cookie_header, now)->Ok_0;
    let hash = argon2_phc(new_password, salt)->0;
    lemma_account_of_request_is_member(db, cookie_header, now);
    lemma_filter_members(db.sessions, state::belongs_to_other_account(a.id));
    law_new_password_is_accepted(db, a, hash, new_password, 0, now);
    law_password_is_replaced(db, a.id, hash, now);
    let i = choose|i: int| 0 <= i < db.accounts.len() && db.accounts[i] == a;
    let after = change_password_outcome(db, cookie_header, current_password, new_password, now, salt).0;
    assert(after.accounts[i].id == a.id);
    assert(after.accounts.contains(after.accounts[i]));
}

/// When the invitation of an organizer is owed success: an administrator
/// asks, no account has the address or carries the token, and the counters are
/// not used up. Then the answer is 201 with the token, and the store gains one
/// organizer with the name and one account for it that has no password and
/// carries the token for seven days.
pub proof fn law_organizer_invitation_succeeds(
    db: DatabaseView,
    cookie_header: Option<Seq<char>>,
    name: Seq<char>,
    email: Seq<char>,
    now: i64,
    setup_token: Seq<char>,
)
    requires
        principal_of_request(db, cookie_header, now) matches Ok(user) && user.is_admin(),
        !any_match(db.accounts, state::has_email(email)),
        !any_match(db.accounts, state::has_setup_token(setup_token)),
        db.next_organizer_id < i64::MAX,
        db.next_account_id < i64::MAX,
    ensures
        ({
            let outcome = create_organizer_outcome(db, cookie_header, name, email, now, setup_token);
            &&& outcome.1 matches Ok(invitation) && invitation.status == STATUS_CREATED
                && invitation.setup_token == setup_token
            &&& outcome.0.organizers == db.organizers.push(
                state::new_organizer(db.next_organizer_id, name, now),
            )
            &&& outcome.0.accounts == db.accounts.push(
                state::invited_account(
                    db.next_account_id,
                    AccountType::Organizer,
                    Some(db.next_organizer_id),
                    name,
                    email,
                    setup_token,
                    invitation_expiry(now),
                    now,
                ),
            )
            &&& outcome.0.sessions == db.sessions
        }),
{
}

/// A setup that succeeds opens one session, for the account that was
/// invited, and leaves the sessions that were there as they were.
pub proof fn law_setup_opens_one_session(
    db: DatabaseView,
    token: Seq<char>,
    email: Seq<char>,
    password: Seq<char>,
    secure: bool,
    now: i64,
    session_id: u128,
    salt: Seq<char>,
)
    requires
        init_account_outcome(db, token, email, password, secure, now, session_id, salt).1 is Ok,
    ensures
        init_account_outcome(db, token, email, password, secure, now, session_id, salt).0.sessions
            == db.sessions.push(
            new_session(session_id, pending_setup_token(db, token, now)->Ok_0.account_id, now),
        ),
{
}

/// What one attempt to complete a setup brings along besides the token.
pub struct SetupAttempt {
    pub email: Seq<char>,
    pub password: Seq<char>,
    pub secure: bool,
    pub now: i64,
    pub session_id: u128,
    pub salt: Seq<char>,
}

/// The store after a number of attempts, one after the other, to complete a
/// setup with one token.
pub open spec fn after_setup_attempts(db: DatabaseView, token: Seq<char>, attempts: Seq<SetupAttempt>) -> DatabaseView
    decreases attempts.len(),
{
    if attempts.len() == 0 {
        db
    } else {
        let a = attempts.last();
        init_account_outcome(
            after_setup_attempts(db, token, attempts.drop_last()),
            token,
            a.email,
            a.password,
            a.secure,
            a.now,
            a.session_id,
            a.salt,
        ).0
    }
}

/// Of any number of attempts with one setup token, one after the other, at
/// most one succeeds: after the attempt that succeeded, every further one
/// fails as an invalid setup token, and all of them together leave the store
/// as the winner left it: no further session, and the address and password of
/// the winner.
pub proof fn law_one_setup_attempt_wins(
    db: DatabaseView,
    token: Seq<char>,
    winner: SetupAttempt,
    losers: Seq<SetupAttempt>,
)
    requires
        wf(db),
        init_account_outcome(
            db,
            token,
            winner.email,
            winner.password,
            winner.secure,
            winner.now,
            winner.session_id,
            winner.salt,
        ).1 is Ok,
    ensures
        ({
            let won = init_account_outcome(
                db,
                token,
                winner.email,
                winner.password,
                winner.secure,
                winner.now,
                winner.session_id,
                winner.salt,
            ).0;
            &&& after_setup_attempts(won, token, losers) == won
            &&& forall|k: int|
                0 <= k < losers.len() ==> init_account_outcome(
                    #[trigger] after_setup_attempts(won, token, losers.subrange(0, k)),
                    token,
                    losers[k].email,
                    losers[k].password,
                    losers[k].secure,
                    losers[k].now,
                    losers[k].session_id,
                    losers[k].salt,
                ).1 == Err::<crate::auth::InitAccountOutcomeView, AppErrorView>(
                    invalid_setup_token(),
                )
        }),
{
    let won = init_account_outcome(
        db,
        token,
        winner.email,
        winner.password,
        winner.secure,
        winner.now,
        winner.session_id,
        winner.salt,
    ).0;
    lemma_setup_attempts_change_nothing(db, token, winner, losers);
    assert forall|k: int| 0 <= k < losers.len() implies init_account_outcome(
        #[trigger] after_setup_attempts(won, token, losers.subrange(0, k)),
        token,
        losers[k].email,
        losers[k].password,
        losers[k].secure,
        losers[k].now,
        losers[k].session_id,
        losers[k].salt,
    ).1 == Err::<crate::auth::InitAccountOutcomeView, AppErrorView>(invalid_setup_token()) by {
        lemma_setup_attempts_change_nothing(db, token, winner, losers.subrange(0, k));
        law_invitation_is_accepted_once(
            db,
            token,
            winner.email,
            winner.password,
            winner.secure,
            winner.now,
            winner.session_id,
            winner.salt,
            losers[k].email,
            losers[k].password,
            losers[k].secure,
            losers[k].now,
            losers[k].session_id,
            losers[k].salt,
        );
    }
}

/// Attempts with a setup token that was redeemed leave the store as it is.
pub proof fn lemma_setup_attempts_change_nothing(
    db: DatabaseView,
    token: Seq<char>,
    winner: SetupAttempt,
    losers: Seq<SetupAttempt>,
)
    requires
        wf(db),
        init_account_outcome(
            db,
            token,
            winner.email,
            winner.password,
            winner.secure,
            winner.now,
            winner.session_id,
            winner.salt,
        ).1 is Ok,
    ensures
        after_setup_attempts(
            init_account_outcome(
                db,
                token,
                winner.email,
                winner.password,
                winner.secure,
                winner.now,
                winner.session_id,
                winner.salt,
            ).0,
            token,
            losers,
        ) == init_account_outcome(
            db,
            token,
            winner.email,
            winner.password,
            winner.secure,
            winner.now,
            winner.session_id,
            winner.salt,
        ).0,
    decreases losers.len(),
{
    if losers.len() > 0 {
        let a = losers.last();
        lemma_setup_attempts_change_nothing(db, token, winner, losers.drop_last());
        law_invitation_is_accepted_once(
            db,
            token,
            winner.email,
            winner.password,
            winner.secure,
            winner.now,
            winner.session_id,
            winner.salt,
            a.email,
            a.password,
            a.secure,
            a.now,
            a.session_id,
            a.salt,
        );
    }
}

/// Once a reset token was redeemed it redeems nothing: no reset token with its
/// text is usable at any instant.
pub proof fn law_redeemed_reset_token_is_unusable(
    db: DatabaseView,
    token: Seq<char>,
    now: i64,
    password_hash: Seq<char>,
    later: i64,
)
    requires
        wf(db),
        state::usable_reset_token(db, token, now) is Some,
    ensures
        ({
            let found = state::usable_reset_token(db, token, now)->0;
            state::usable_reset_token(
                redeem_reset_outcome(db, found.0.id, found.0.account_id, password_hash, now),
                token,
                later,
            ) is None
        }),
{
    let found = state::usable_reset_token(db, token, now)->0;
    let t = found.0;
    lemma_first_match_is_member(db.reset_tokens, state::is_usable_reset_token(token, now));
    let after = redeem_reset_outcome(db, t.id, t.account_id, password_hash, now);
    let f = |x: PasswordResetTokenView|
        if state::is_unused_reset_token(t.id)(x) {
            PasswordResetTokenView { used_at: Some(now), ..x }
        } else {
            x
        };
    assert(after.reset_tokens == db.reset_tokens.map_values(f));
    lemma_map_members(db.reset_tokens, f);
    lemma_first_match_is_member(after.reset_tokens, state::is_usable_reset_token(token, later));
    if first_match(after.reset_tokens, state::is_usable_reset_token(token, later)) is Some {
        let y = first_match(after.reset_tokens, state::is_usable_reset_token(token, later))->0;
        let x = choose|x: PasswordResetTokenView| #[trigger]
            db.reset_tokens.contains(x) && f(x) == y;
        assert(x.token == t.token);
        assert(x == t);
    }
}

/// A reset token is redeemed at most once: after a reset that succeeded, every
/// further reset with the same token fails as invalid, and changes nothing.
pub proof fn law_reset_token_single_use(
    db: DatabaseView,
    token: Seq<char>,
    new_password: Seq<char>,
    now: i64,
    salt: Seq<char>,
    other_password: Seq<char>,
    later: i64,
    other_salt: Seq<char>,
)
    requires
        wf(db),
        reset_password_outcome(db, token, new_password, now, salt).1 is Ok,
    ensures
        ({
            let after = reset_password_outcome(db, token, new_password, now, salt).0;
            reset_password_outcome(after, token, other_password, later, other_salt) == (
                after,
                Err::<u16, AppErrorView>(crate::auth::invalid_reset_token()),
            )
        }),
{
    let hash = crate::trusted::argon2_phc(new_password, salt)->0;
    law_redeemed_reset_token_is_unusable(db, token, now, hash, later);
}

/// Ending the sessions of an account ends each of them: a session identifier
/// that stood for the account stands for nothing afterwards, at any instant,
/// while the sessions of other accounts stay.
pub proof fn law_sessions_of_account_end(db: DatabaseView, account_id: i64, s: Session, later: i64)
    requires
        wf(db),
        db.sessions.contains(s),
    ensures
        s.account_id == account_id ==> account_of_session(
            state::delete_sessions_of(db, account_id),
            s.id,
            later,
        ) == Err::<AccountView, _>(AppErrorView::Unauthorized("invalid or expired session"@)),
        s.account_id != account_id ==> state::delete_sessions_of(db, account_id).sessions.contains(s),
        forall|t: Session| #[trigger]
            state::delete_sessions_of(db, account_id).sessions.contains(t) ==> t.account_id
                != account_id && db.sessions.contains(t),
{
    let after = state::delete_sessions_of(db, account_id);
    lemma_filter_members(db.sessions, state::belongs_to_other_account(account_id));
    lemma_first_match_is_member(after.sessions, state::is_live_session(s.id, later));
    if s.account_id == account_id {
        if first_match(after.sessions, state::is_live_session(s.id, later)) is Some {
            let t = first_match(after.sessions, state::is_live_session(s.id, later))->0;
            assert(db.sessions.contains(t));
            assert(t == s);
        }
    }
}

/// After a change of password every session that was issued to the account
/// fails to resolve: the request is unauthorized, at any instant.
pub proof fn law_password_change_ends_sessions(
    db: DatabaseView,
    cookie_header: Option<Seq<char>>,
    current_password: Seq<char>,
    new_password: Seq<char>,
    now: i64,
    salt: Seq<char>,
    s: Session,
    later: i64,
)
    requires
        wf(db),
        change_password_outcome(db, cookie_header, current_password, new_password, now, salt).1 is Ok,
        account_of_request(db, cookie_header, now) matches Ok(a) && db.sessions.contains(s)
            && s.account_id == a.id,
    ensures
        account_of_session(
            change_password_outcome(db, cookie_header, current_password, new_password, now, salt).0,
            s.id,
            later,
        ) == Err::<AccountView, _>(AppErrorView::Unauthorized("invalid or expired session"@)),
{
    let a = account_of_request(db, cookie_header, now)->Ok_0;
    let hash = crate::trusted::argon2_phc(new_password, salt)->0;
    let updated = state::set_password(db, a.id, hash, now);
    state::lemma_set_password_keeps_wf(db, a.id, hash, now);
    law_sessions_of_account_end(updated, a.id, s, later);
}

/// After a password reset every session that was issued to the account of the
/// token fails to resolve: the request is unauthorized, at any instant.
pub proof fn law_password_reset_ends_sessions(
    db: DatabaseView,
    token: Seq<char>,
    new_password: Seq<char>,
    now: i64,
    salt: Seq<char>,
    s: Session,
    later: i64,
)
    requires
        wf(db),
        reset_password_outcome(db, token, new_password, now, salt).1 is Ok,
        state::usable_reset_token(db, token, now) matches Some(found) && db.sessions.contains(s)
            && s.account_id == found.0.account_id,
    ensures
        account_of_session(
            reset_password_outcome(db, token, new_password, now, salt).0,
            s.id,
            later,
        ) == Err::<AccountView, _>(AppErrorView::Unauthorized("invalid or expired session"@)),
{
    let found = state::usable_reset_token(db, token, now)->0;
    let hash = crate::trusted::argon2_phc(new_password, salt)->0;
    let updated = state::set_password(db, found.0.account_id, hash, now);
    state::lemma_set_password_keeps_wf(db, found.0.account_id, hash, now);
    let marked = state::mark_reset_token_used(updated, found.0.id, now);
    state::lemma_mark_reset_token_used_keeps_wf(updated, found.0.id, now);
    law_sessions_of_account_end(marked, found.0.account_id, s, later);
}

/// Where the accounts are settled, an account with a password carries no
/// setup token.
pub proof fn law_initialized_account_has_no_setup_token(db: DatabaseView, a: AccountView)
    requires
        accounts_settled(db),
        db.accounts.contains(a),
        a.password_hash is Some,
    ensures
        a.setup_token is None,
{
}

/// The empty database is well formed and its accounts are settled.
pub proof fn law_empty_database_is_settled()
    ensures
        wf(state::empty_database()),
        accounts_settled(state::empty_database()),
{
}

/// Opening a session leaves the accounts settled.
pub proof fn law_open_session_keeps_settled(
    db: DatabaseView,
    a: PendingSetupTokenView,
    session_id: u128,
    session_text: Seq<char>,
    secure: bool,
    now: i64,
)
    requires
        accounts_settled(db),
    ensures
        accounts_settled(open_session_outcome(db, a, session_id, session_text, secure, now).0),
{
}

/// Signing in leaves the accounts settled.
pub proof fn law_login_keeps_settled(
    db: DatabaseView,
    email: Seq<char>,
    password: Seq<char>,
    secure: bool,
    now: i64,
    session_id: u128,
)
    requires
        accounts_settled(db),
    ensures
        accounts_settled(login_outcome(db, email, password, secure, now, session_id).0),
{
}

/// Redeeming a setup token leaves the accounts settled: the account that is
/// initialized loses its token in the same step.
pub proof fn law_redeem_setup_keeps_settled(
    db: DatabaseView,
    a: PendingSetupTokenView,
    token: Seq<char>,
    email: Seq<char>,
    password_hash: Seq<char>,
    session_id: u128,
    session_text: Seq<char>,
    secure: bool,
    now: i64,
)
    requires
        accounts_settled(db),
    ensures
        accounts_settled(
            redeem_setup_outcome(
                db,
                a,
                token,
                email,
                password_hash,
                session_id,
                session_text,
                secure,
                now,
            ).0,
        ),
{
    state::lemma_complete_setup_keeps_settled(db, a.account_id, token, email, password_hash, now);
}

/// Completing the setup of an account leaves the accounts settled.
pub proof fn law_init_account_keeps_settled(
    db: DatabaseView,
    token: Seq<char>,
    email: Seq<char>,
    password: Seq<char>,
    secure: bool,
    now: i64,
    session_id: u128,
    salt: Seq<char>,
)
    requires
        accounts_settled(db),
    ensures
        accounts_settled(
            init_account_outcome(db, token, email, password, secure, now, session_id, salt).0,
        ),
{
    let outcome = init_account_outcome(db, token, email, password, secure, now, session_id, salt);
    if outcome.0 != db {
        let pending = pending_setup_token(db, token, now)->Ok_0;
        let hash = crate::trusted::argon2_phc(password, salt)->0;
        law_redeem_setup_keeps_settled(
            db,
            pending,
            token,
            email,
            hash,
            session_id,
            crate::trusted::uuid_text(session_id),
            secure,
            now,
        );
    }
}

/// Signing out leaves the accounts settled.
pub proof fn law_logout_keeps_settled(db: DatabaseView, cookie_header: Option<Seq<char>>, secure: bool)
    requires
        accounts_settled(db),
    ensures
        accounts_settled(logout_outcome(db, cookie_header, secure).0),
{
}

/// Changing a password leaves the accounts settled.
pub proof fn law_change_password_keeps_settled(
    db: DatabaseView,
    cookie_header: Option<Seq<char>>,
    current_password: Seq<char>,
    new_password: Seq<char>,
    now: i64,
    salt: Seq<char>,
)
    requires
        wf(db),
        accounts_settled(db),
    ensures
        accounts_settled(
            change_password_outcome(db, cookie_header, current_password, new_password, now, salt).0,
        ),
{
    let outcome = change_password_outcome(
        db,
        cookie_header,
        current_password,
        new_password,
        now,
        salt,
    );
    if outcome.0 != db {
        let a = account_of_request(db, cookie_header, now)->Ok_0;
        let hash = crate::trusted::argon2_phc(new_password, salt)->0;
        lemma_account_of_request_is_member(db, cookie_header, now);
        state::lemma_set_password_keeps_settled(db, a.id, hash, now);
    }
}

/// The account that a request resolves to is one of the stored accounts.
pub proof fn lemma_account_of_request_is_member(
    db: DatabaseView,
    cookie_header: Option<Seq<char>>,
    now: i64,
)
    ensures
        account_of_request(db, cookie_header, now) matches Ok(a) ==> db.accounts.contains(a),
{
    if account_of_request(db, cookie_header, now) is Ok {
        let value = crate::cookies::cookie_value(cookie_header, "session_id"@)->0;
        let id = crate::trusted::uuid_parse(value)->0;
        lemma_first_match_is_member(db.sessions, state::is_live_session(id, now));
        let s = first_match(db.sessions, state::is_live_session(id, now))->0;
        lemma_first_match_is_member(db.accounts, state::has_account_id(s.account_id));
    }
}

/// The principal of a request is an administrator exactly when it acts for no
/// organizer: no administrator has an organizer, and every organizer account
/// has one.
pub proof fn law_principal_role_agrees(db: DatabaseView, cookie_header: Option<Seq<char>>, now: i64)
    requires
        wf(db),
    ensures
        principal_of_request(db, cookie_header, now) matches Ok(user) ==> (user.is_admin()
            <==> user.organizer_id is None),
{
    lemma_account_of_request_is_member(db, cookie_header, now);
    if account_of_request(db, cookie_header, now) is Ok {
        let a = account_of_request(db, cookie_header, now)->Ok_0;
        assert(state::role_agrees(a));
    }
}

/// Every stored session resolves to its account until it expires: no session
/// is left without the account that it belongs to.
pub proof fn law_stored_session_resolves(db: DatabaseView, s: Session, now: i64)
    requires
        wf(db),
        db.sessions.contains(s),
        s.expires_at > now,
    ensures
        state::session_account(db, s.id, now) matches Some(a) && a.id == s.account_id
            && db.accounts.contains(a),
{
    let i = choose|i: int| 0 <= i < db.sessions.len() && db.sessions[i] == s;
    assert(state::is_live_session(s.id, now)(db.sessions[i]));
    lemma_first_match_is_member(db.sessions, state::is_live_session(s.id, now));
    let found = first_match(db.sessions, state::is_live_session(s.id, now))->0;
    assert(found == s);
    assert(any_match(db.accounts, state::has_account_id(s.account_id)));
    lemma_first_match_is_member(db.accounts, state::has_account_id(s.account_id));
}

/// Asking for a password reset leaves the accounts settled: a reset token is
/// stored only for an account that has a password.
pub proof fn law_request_password_reset_keeps_settled(
    db: DatabaseView,
    email: Seq<char>,
    now: i64,
    reset_token: Seq<char>,
)
    requires
        wf(db),
        accounts_settled(db),
    ensures
        accounts_settled(request_password_reset_outcome(db, email, now, reset_token).0),
{
    let outcome = request_password_reset_outcome(db, email, now, reset_token);
    if outcome.0 != db {
        lemma_first_match_is_member(db.accounts, state::has_email(email));
        let a = first_match(db.accounts, state::has_email(email))->0;
        let cleaned = state::delete_unused_reset_tokens(db, a.id);
        state::lemma_delete_reset_tokens_keeps_settled(db, state::survives_new_request(a.id));
        state::lemma_insert_reset_token_keeps_settled(
            cleaned,
            a.id,
            reset_token,
            (now + crate::auth::RESET_TOKEN_TTL_MICROS) as i64,
            now,
        );
    }
}

/// Resetting a password leaves the accounts settled.
pub proof fn law_reset_password_keeps_settled(
    db: DatabaseView,
    token: Seq<char>,
    new_password: Seq<char>,
    now: i64,
    salt: Seq<char>,
)
    requires
        accounts_settled(db),
    ensures
        accounts_settled(reset_password_outcome(db, token, new_password, now, salt).0),
{
    let outcome = reset_password_outcome(db, token, new_password, now, salt);
    if outcome.0 != db {
        let found = state::usable_reset_token(db, token, now)->0;
        let hash = crate::trusted::argon2_phc(new_password, salt)->0;
        lemma_first_match_is_member(db.reset_tokens, state::is_usable_reset_token(token, now));
        state::lemma_set_password_keeps_settled(db, found.0.account_id, hash, now);
        state::lemma_mark_reset_token_used_keeps_settled(
            state::set_password(db, found.0.account_id, hash, now),
            found.0.id,
            now,
        );
    }
}

/// Inviting an administrator leaves the accounts settled.
pub proof fn law_invite_admin_keeps_settled(
    db: DatabaseView,
    cookie_header: Option<Seq<char>>,
    display_name: Seq<char>,
    email: Seq<char>,
    now: i64,
    setup_token: Seq<char>,
)
    requires
        wf(db),
        accounts_settled(db),
    ensures
        accounts_settled(
            invite_admin_outcome(db, cookie_header, display_name, email, now, setup_token).0,
        ),
{
    state::lemma_insert_account_keeps_settled(
        db,
        AccountType::Admin,
        None,
        display_name,
        email,
        setup_token,
        invitation_expiry(now),
        now,
    );
}

/// Inviting an organizer leaves the accounts settled.
pub proof fn law_create_organizer_keeps_settled(
    db: DatabaseView,
    cookie_header: Option<Seq<char>>,
    name: Seq<char>,
    email: Seq<char>,
    now: i64,
    setup_token: Seq<char>,
)
    requires
        wf(db),
        accounts_settled(db),
    ensures
        accounts_settled(create_organizer_outcome(db, cookie_header, name, email, now, setup_token).0),
{
    let with_organizer = state::insert_organizer(db, name, now).0;
    state::lemma_insert_account_keeps_settled(
        with_organizer,
        AccountType::Organizer,
        Some(db.next_organizer_id),
        name,
        email,
        setup_token,
        invitation_expiry(now),
        now,
    );
}

/// Issuing a fresh setup token leaves the accounts settled: an initialized
/// account is never given one, so no account returns to the state before its
/// setup.
pub proof fn law_generate_setup_token_keeps_settled(
    db: DatabaseView,
    cookie_header: Option<Seq<char>>,
    id: i64,
    now: i64,
    setup_token: Seq<char>,
)
    requires
        accounts_settled(db),
    ensures
        accounts_settled(generate_setup_token_outcome(db, cookie_header, id, now, setup_token).0),
{
    state::lemma_reissue_setup_token_keeps_settled(db, id, setup_token, invitation_expiry(now), now);
}

/// Changing the permissions of an organizer leaves the accounts settled.
pub proof fn law_update_organizer_permissions_keeps_settled(
    db: DatabaseView,
    cookie_header: Option<Seq<char>>,
    id: i64,
    newsletter: bool,
    now: i64,
)
    requires
        accounts_settled(db),
    ensures
        accounts_settled(
            update_organizer_permissions_outcome(db, cookie_header, id, newsletter, now).0,
        ),
{
}

/// Whether exactly one entry was appended to the audit log between two
/// states: one of the given kind for the given event, with the snapshots that
/// the kind calls for.
pub open spec fn recorded_once(before: DatabaseView, after: DatabaseView, audit_type: AuditType, event_id: i64) -> bool {
    &&& after.audit_log.len() == before.audit_log.len() + 1
    &&& after.audit_log.drop_last() == before.audit_log
    &&& after.audit_log.last().audit_type == audit_type
    &&& after.audit_log.last().event_id == event_id
    &&& snapshots_match_type(after.audit_log.last())
}

/// Every event that is created is recorded once, as a creation with its new
/// state only; where the creation fails, nothing is stored and nothing is
/// recorded.
pub proof fn law_create_event_is_audited(
    db: DatabaseView,
    cookie_header: Option<Seq<char>>,
    request: CreateEventRequestView,
    now: i64,
)
    ensures
        match create_event_outcome(db, cookie_header, request, now) {
            (after, Ok(event)) => recorded_once(db, after, AuditType::Create, event.id)
                && after.events == db.events.push(event),
            (after, Err(_)) => after == db,
        },
{
    let outcome = create_event_outcome(db, cookie_header, request, now);
    if outcome.1 is Ok {
        assert(outcome.0.audit_log.drop_last() =~= db.audit_log);
    }
}

/// Every change of an event is recorded once, as an update with the states
/// before and after; where the change fails, nothing is changed and nothing is
/// recorded.
pub proof fn law_update_event_is_audited(
    db: DatabaseView,
    cookie_header: Option<Seq<char>>,
    id: i64,
    names_a_field: bool,
    changes: UpdateEventRequestView,
    now: i64,
)
    ensures
        match update_event_outcome(db, cookie_header, id, names_a_field, changes, now) {
            (after, Ok(event)) => recorded_once(db, after, AuditType::Update, event.id)
                && after.events == state::update_event(db, id, changes, now).events,
            (after, Err(_)) => after == db,
        },
{
    let outcome = update_event_outcome(db, cookie_header, id, names_a_field, changes, now);
    if outcome.1 is Ok {
        assert(outcome.0.audit_log.drop_last() =~= db.audit_log);
    }
}

/// Every removal of an event is recorded once, as a deletion with the old
/// state only; where the removal fails, nothing is removed and nothing is
/// recorded.
pub proof fn law_delete_event_is_audited(
    db: DatabaseView,
    cookie_header: Option<Seq<char>>,
    id: i64,
    now: i64,
)
    ensures
        match delete_event_outcome(db, cookie_header, id, now) {
            (after, Ok(_)) => recorded_once(db, after, AuditType::Delete, id)
                && after.events == state::delete_event(db, id).events,
            (after, Err(_)) => after == db,
        },
{
    let outcome = delete_event_outcome(db, cookie_header, id, now);
    if outcome.1 is Ok {
        assert(outcome.0.audit_log.drop_last() =~= db.audit_log);
        lemma_first_match_is_member(db.events, state::has_event_id(id));
    }
}

/// The audit log only grows: recording appends one entry or nothing, and
/// leaves every earlier entry as it was.
pub proof fn law_audit_log_is_append_only(
    db: DatabaseView,
    event_id: i64,
    organizer_id: i64,
    user_id: i64,
    audit_type: AuditType,
    old_data: Option<EventView>,
    new_data: Option<EventView>,
    now: i64,
)
    ensures
        ({
            let outcome = record_audit_outcome(
                db,
                event_id,
                organizer_id,
                user_id,
                audit_type,
                old_data,
                new_data,
                now,
            );
            &&& outcome.1 is Err ==> outcome.0 == db
            &&& outcome.1 is Ok ==> outcome.0.audit_log.len() == db.audit_log.len() + 1
                && outcome.0.audit_log.drop_last() == db.audit_log
                && outcome.0.audit_log.last().user_id == Some(user_id)
                && outcome.0.audit_log.last().at == now
        }),
{
    let outcome = record_audit_outcome(
        db,
        event_id,
        organizer_id,
        user_id,
        audit_type,
        old_data,
        new_data,
        now,
    );
    if outcome.1 is Ok {
        assert(outcome.0.audit_log.drop_last() =~= db.audit_log);
    }
}

/// A session that was opened resolves to its account from the instant at
/// which it was opened until its lifetime is over, and no longer.
pub proof fn law_opened_session_resolves(
    db: DatabaseView,
    a: PendingSetupTokenView,
    session_id: u128,
    session_text: Seq<char>,
    secure: bool,
    now: i64,
    later: i64,
)
    requires
        wf(db),
        crate::auth::valid_instant(now),
        open_session_outcome(db, a, session_id, session_text, secure, now).1 is Ok,
    ensures
        ({
            let after = open_session_outcome(db, a, session_id, session_text, secure, now).0;
            let resolved = state::session_account(after, session_id, later);
            &&& later < now + crate::cookies::SESSION_TTL_MICROS ==> resolved is Some
                && resolved->0.id == a.account_id && db.accounts.contains(resolved->0)
            &&& later >= now + crate::cookies::SESSION_TTL_MICROS ==> resolved is None
        }),
{
    let session = crate::auth::new_session(session_id, a.account_id, now);
    let after = open_session_outcome(db, a, session_id, session_text, secure, now).0;
    state::lemma_insert_session_keeps_wf(db, session);
    lemma_push_members(db.sessions, session);
    lemma_any_match_members(db.sessions, state::has_session_id(session_id));
    lemma_any_match_members(db.accounts, state::has_account_id(a.account_id));
    lemma_first_match_is_member(after.sessions, state::is_live_session(session_id, later));
    lemma_first_match_is_member(after.accounts, state::has_account_id(a.account_id));
    assert(after.sessions.contains(session));
    if later < now + crate::cookies::SESSION_TTL_MICROS {
        let i = choose|i: int| 0 <= i < after.sessions.len() && after.sessions[i] == session;
        assert(state::is_live_session(session_id, later)(after.sessions[i]));
        let found = first_match(after.sessions, state::is_live_session(session_id, later))->0;
        assert(found == session);
        let x = choose|x: AccountView| #[trigger]
            db.accounts.contains(x) && state::has_account_id(a.account_id)(x);
        let k = choose|k: int| 0 <= k < db.accounts.len() && db.accounts[k] == x;
        assert(state::has_account_id(a.account_id)(after.accounts[k]));
    } else {
        if first_match(after.sessions, state::is_live_session(session_id, later)) is Some {
            let found = first_match(after.sessions, state::is_live_session(session_id, later))->0;
            assert(found == session);
        }
    }
}

/// After a setup that succeeded, the account is found by the address of the
/// setup and carries the password hash of the setup.
pub proof fn law_completed_account_is_found_by_email(
    db: DatabaseView,
    a: PendingSetupTokenView,
    token: Seq<char>,
    email: Seq<char>,
    password_hash: Seq<char>,
    session_id: u128,
    session_text: Seq<char>,
    secure: bool,
    now: i64,
)
    requires
        wf(db),
        redeem_setup_outcome(
            db,
            a,
            token,
            email,
            password_hash,
            session_id,
            session_text,
            secure,
            now,
        ).1 is Ok,
    ensures
        ({
            let after = redeem_setup_outcome(
                db,
                a,
                token,
                email,
                password_hash,
                session_id,
                session_text,
                secure,
                now,
            ).0;
            let found = first_match(after.accounts, state::has_email(email));
            found is Some && found->0.id == a.account_id && found->0.password_hash == Some(
                password_hash,
            ) && found->0.setup_token is None
        }),
{
    let p = state::awaits_setup(a.account_id, token);
    let f = |x: AccountView|
        if state::awaits_setup(a.account_id, token)(x) {
            state::completed(x, email, password_hash, now)
        } else {
            x
        };
    let completed = state::complete_setup(db, a.account_id, token, email, password_hash, now).0;
    let after = redeem_setup_outcome(
        db,
        a,
        token,
        email,
        password_hash,
        session_id,
        session_text,
        secure,
        now,
    ).0;
    assert(after.accounts == completed.accounts);
    assert(completed.accounts == db.accounts.map_values(f));
    state::lemma_complete_setup_keeps_wf(db, a.account_id, token, email, password_hash, now);
    let k = choose|k: int| 0 <= k < db.accounts.len() && p(#[trigger] db.accounts[k]);
    assert(completed.accounts[k] == f(db.accounts[k]));
    assert(state::has_email(email)(completed.accounts[k]));
    assert(completed.accounts.contains(completed.accounts[k]));
    lemma_first_match_is_member(completed.accounts, state::has_email(email));
    let found = first_match(completed.accounts, state::has_email(email))->0;
    assert(found == completed.accounts[k]);
}

/// After the password of an account was set, every row of the account carries
/// the new hash, and the rows of other accounts are as they were.
pub proof fn law_password_is_replaced(db: DatabaseView, id: i64, password_hash: Seq<char>, now: i64)
    ensures
        forall|x: AccountView| #[trigger]
            state::set_password(db, id, password_hash, now).accounts.contains(x) ==> if x.id == id {
                x.password_hash == Some(password_hash)
            } else {
                db.accounts.contains(x)
            },
        forall|x: AccountView| #[trigger]
            db.accounts.contains(x) && x.id == id ==> state::set_password(
                db,
                id,
                password_hash,
                now,
            ).accounts.contains(
                AccountView { password_hash: Some(password_hash), updated_at: now, ..x },
            ),
{
    let f = |a: AccountView|
        if a.id == id {
            AccountView { password_hash: Some(password_hash), updated_at: now, ..a }
        } else {
            a
        };
    assert(state::set_password(db, id, password_hash, now).accounts == db.accounts.map_values(f));
    lemma_map_members(db.accounts, f);
    assert forall|x: AccountView| #[trigger]
        state::set_password(db, id, password_hash, now).accounts.contains(x) implies if x.id == id {
        x.password_hash == Some(password_hash)
    } else {
        db.accounts.contains(x)
    } by {
        let y = choose|y: AccountView| #[trigger] db.accounts.contains(y) && f(y) == x;
    }
    assert forall|x: AccountView| #[trigger] db.accounts.contains(x) && x.id == id implies state::set_password(
        db,
        id,
        password_hash,
        now,
    ).accounts.contains(AccountView { password_hash: Some(password_hash), updated_at: now, ..x }) by {
        assert(f(x) == AccountView { password_hash: Some(password_hash), updated_at: now, ..x });
    }
}

/// Once the password hash of an account is one that Argon2 accepts for a
/// password, the account accepts the password, also after its sessions were
/// ended and a reset token was marked as used.
pub proof fn law_new_password_is_accepted(
    db: DatabaseView,
    a: AccountView,
    password_hash: Seq<char>,
    password: Seq<char>,
    token_id: i64,
    now: i64,
)
    requires
        db.accounts.contains(a),
        crate::trusted::argon2_accepts(password, password_hash),
    ensures
        crate::auth::account_accepts(
            rotate_password_outcome(db, a.id, password_hash, now),
            a.id,
            password,
        ),
        crate::auth::account_accepts(
            redeem_reset_outcome(db, token_id, a.id, password_hash, now),
            a.id,
            password,
        ),
{
    law_password_is_replaced(db, a.id, password_hash, now);
    let updated = state::set_password(db, a.id, password_hash, now);
    let witness = AccountView { password_hash: Some(password_hash), updated_at: now, ..a };
    assert(updated.accounts.contains(witness));
    assert(rotate_password_outcome(db, a.id, password_hash, now).accounts == updated.accounts);
    assert(redeem_reset_outcome(db, token_id, a.id, password_hash, now).accounts
        == updated.accounts);
}

/// Creating, changing and removing events, and changing an organizer, leave
/// the accounts settled.
pub proof fn law_events_and_organizers_keep_settled(
    db: DatabaseView,
    cookie_header: Option<Seq<char>>,
    id: i64,
    request: CreateEventRequestView,
    names_a_field: bool,
    changes: UpdateEventRequestView,
    organizer_changes: crate::dto::UpdateOrganizerRequestView,
    now: i64,
)
    requires
        accounts_settled(db),
    ensures
        accounts_settled(create_event_outcome(db, cookie_header, request, now).0),
        accounts_settled(
            update_event_outcome(db, cookie_header, id, names_a_field, changes, now).0,
        ),
        accounts_settled(delete_event_outcome(db, cookie_header, id, now).0),
        accounts_settled(
            crate::organizers::update_organizer_outcome(
                db,
                cookie_header,
                id,
                names_a_field,
                organizer_changes,
                now,
            ).0,
        ),
{
}

/// A request for a password reset leaves each account with at most one reset
/// token that was never used: the tokens that the account had are removed
/// before the new one is stored.
pub proof fn law_request_leaves_one_unused_reset_token(
    db: DatabaseView,
    email: Seq<char>,
    now: i64,
    reset_token: Seq<char>,
)
    requires
        one_unused_reset_token(db),
    ensures
        one_unused_reset_token(request_password_reset_outcome(db, email, now, reset_token).0),
{
    let after = request_password_reset_outcome(db, email, now, reset_token).0;
    if after != db {
        let a = first_match(db.accounts, state::has_email(email))->0;
        let cleaned = state::delete_unused_reset_tokens(db, a.id);
        lemma_filter_members(db.reset_tokens, state::survives_new_request(a.id));
        if after != cleaned {
            let row = PasswordResetTokenView {
                id: cleaned.next_reset_token_id,
                account_id: a.id,
                token: reset_token,
                expires_at: (now + crate::auth::RESET_TOKEN_TTL_MICROS) as i64,
                used_at: None,
                created_at: now,
            };
            assert(after.reset_tokens == cleaned.reset_tokens.push(row));
            lemma_push_members(cleaned.reset_tokens, row);
        }
    }
}

/// A password reset leaves each account with at most one reset token that was
/// never used.
pub proof fn law_reset_leaves_one_unused_reset_token(
    db: DatabaseView,
    token: Seq<char>,
    new_password: Seq<char>,
    now: i64,
    salt: Seq<char>,
)
    requires
        one_unused_reset_token(db),
    ensures
        one_unused_reset_token(reset_password_outcome(db, token, new_password, now, salt).0),
{
    let after = reset_password_outcome(db, token, new_password, now, salt).0;
    if after != db {
        let found = state::usable_reset_token(db, token, now)->0;
        let f = |x: PasswordResetTokenView|
            if state::is_unused_reset_token(found.0.id)(x) {
                PasswordResetTokenView { used_at: Some(now), ..x }
            } else {
                x
            };
        assert(after.reset_tokens == db.reset_tokens.map_values(f));
        lemma_map_members(db.reset_tokens, f);
        assert forall|s: PasswordResetTokenView, t: PasswordResetTokenView|
            #![trigger after.reset_tokens.contains(s), after.reset_tokens.contains(t)]
            after.reset_tokens.contains(s) && after.reset_tokens.contains(t) && s.account_id
                == t.account_id && s.used_at is None && t.used_at is None implies s == t by {
            let x = choose|x: PasswordResetTokenView| #[trigger]
                db.reset_tokens.contains(x) && f(x) == s;
            let y = choose|y: PasswordResetTokenView| #[trigger]
                db.reset_tokens.contains(y) && f(y) == t;
        }
    }
}

} // verus!
