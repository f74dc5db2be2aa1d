//! Creating, changing and removing events, each with its entry in the audit
//! log.
//!
//! A change and its audit entry are stored together or not at all: where the
//! entry cannot be written, the change is not made.
use vstd::prelude::*;
use vstd::string::*;
use crate::cookies::opt_str_text;
use crate::dto::{
    CreateEventRequest, CreateEventRequestView, ListEventsQuery, UpdateEventRequest,
    UpdateEventRequestView,
};
use crate::error::{result_view, AppError, AppErrorView, DbError, DbErrorView, STATUS_NO_CONTENT};
use crate::guard::{
    event_read_access, event_scope, event_scope_of, in_scope, require_event_in_scope,
    require_event_read_access,
};
use crate::json::{event_json, event_snapshot};
use crate::models::{AuditType, Event, EventView};
use crate::ordering::{newest_first, order_newest_first, page, page_bounds};
use crate::policy::unit_result_view;
use crate::queries::{
    effective_limit, effective_offset, event_selected, page_limit, page_offset, selects_event,
};
use crate::seqs::{lemma_filter_push, lemma_subrange_all};
use crate::shared::{current_user_from_headers, principal_of_request, AuthedUser};
use crate::state::DatabaseView;
use crate::state;
use crate::store::event_views;
use crate::store::{changed_event, Database};
use crate::text::opt_text;

verus! {

/// The mathematical value of an optional event.
pub open spec fn opt_event_view(e: Option<&Event>) -> Option<EventView> {
    match e {
        Some(e) => Some(e@),
        None => None,
    }
}

/// The snapshot that an audit entry stores of an optional event: nothing for
/// no event, and no snapshot at all where the event cannot be written.
pub open spec fn snapshot_of(e: Option<EventView>) -> Option<Option<Seq<char>>> {
    match e {
        None => Some(None),
        Some(e) => match event_json(e) {
            Some(json) => Some(Some(json)),
            None => None,
        },
    }
}

/// The failure of an audit entry whose snapshot cannot be written.
pub open spec fn snapshot_failure() -> AppErrorView {
    AppErrorView::Serde("event snapshot could not be written"@)
}

/// Recording a change: the snapshots of the event before and after are
/// written and one entry is appended to the audit log. Where a snapshot
/// cannot be written or the entry cannot be stored, nothing is appended.
pub open spec fn record_audit_outcome(
    db: DatabaseView,
    event_id: i64,
    organizer_id: i64,
    user_id: i64,
    audit_type: AuditType,
    old_data: Option<EventView>,
    new_data: Option<EventView>,
    now: i64,
) -> (DatabaseView, Result<(), AppErrorView>) {
    match (snapshot_of(old_data), snapshot_of(new_data)) {
        (Some(old_json), Some(new_json)) => {
            let (after, stored) = state::insert_audit(
                db,
                event_id,
                organizer_id,
                user_id,
                audit_type,
                old_json,
                new_json,
                now,
            );
            match stored {
                Ok(_) => (after, Ok(())),
                Err(e) => (after, Err(AppErrorView::Sqlx(e))),
            }
        },
        _ => (db, Err(snapshot_failure())),
    }
}

/// The snapshot of an event, or the failure of writing it.
pub open spec fn required_snapshot(e: EventView) -> Result<Seq<char>, AppErrorView> {
    match event_json(e) {
        Some(json) => Ok(json),
        None => Err(snapshot_failure()),
    }
}

/// Writes the snapshot of an event for the audit log.
pub fn require_snapshot(e: &Event) -> (r: Result<String, AppError>)
    ensures
        result_view(r) == required_snapshot(e@),
{
    match event_snapshot(e) {
        Some(json) => Ok(json),
        None => Err(AppError::Serde("event snapshot could not be written".to_string())),
    }
}

/// The verdict on the times of an event: it must not end before it starts.
pub open spec fn times_verdict(start: i64, end: Option<i64>) -> Result<(), AppErrorView> {
    if times_ordered(start, end) {
        Ok(())
    } else {
        Err(times_disordered())
    }
}

/// Refuses an event that would end before it starts.
pub fn check_times(start: i64, end: Option<i64>) -> (r: Result<(), AppError>)
    ensures
        unit_result_view(r) == times_verdict(start, end),
{
    let ordered = match end {
        Some(end) => end >= start,
        None => true,
    };
    if ordered {
        Ok(())
    } else {
        Err(AppError::validation("end date time must not be before start date time"))
    }
}

/// The organizer that a new event belongs to: that of the principal, which
/// must have one; and the event must not end before it starts.
pub open spec fn creation_verdict(user: AuthedUser, start: i64, end: i64) -> Result<i64, AppErrorView> {
    match user.organizer_id {
        None => Err(AppErrorView::Unauthorized("organizer account required"@)),
        Some(organizer_id) => match times_verdict(start, Some(end)) {
            Err(e) => Err(e),
            Ok(_) => Ok(organizer_id),
        },
    }
}

/// The mathematical value of the outcome of a decision that names an
/// organizer.
pub open spec fn organizer_result_view(r: Result<i64, AppError>) -> Result<i64, AppErrorView> {
    match r {
        Ok(id) => Ok(id),
        Err(e) => Err(e@),
    }
}

/// Decides for which organizer a principal creates an event with the given
/// times.
pub fn check_creation(user: &AuthedUser, start: i64, end: i64) -> (r: Result<i64, AppError>)
    ensures
        organizer_result_view(r) == creation_verdict(*user, start, end),
{
    let organizer_id = match user.organizer_id() {
        Some(id) => id,
        None => {
            return Err(AppError::unauthorized("organizer account required"));
        },
    };
    match check_times(start, Some(end)) {
        Ok(_) => Ok(organizer_id),
        Err(e) => Err(e),
    }
}

fn snapshot(e: Option<&Event>) -> (r: Option<Option<String>>)
    ensures
        match snapshot_of(opt_event_view(e)) {
            Some(json) => r matches Some(text) && opt_text(text) == json,
            None => r is None,
        },
{
    match e {
        None => Some(None),
        Some(e) => match event_snapshot(e) {
            Some(json) => Some(Some(json)),
            None => None,
        },
    }
}

/// Records a change of an event by the account `user_id` in the audit log.
pub fn record_audit(
    db: &mut Database,
    event_id: i64,
    organizer_id: i64,
    user_id: i64,
    audit_type: AuditType,
    old_data: Option<&Event>,
    new_data: Option<&Event>,
    now: i64,
) -> (r: Result<(), AppError>)
    requires
        old(db).wf(),
    ensures
        final(db).wf(),
        (final(db)@, unit_result_view(r)) == record_audit_outcome(
            old(db)@,
            event_id,
            organizer_id,
            user_id,
            audit_type,
            opt_event_view(old_data),
            opt_event_view(new_data),
            now,
        ),
{
    let old_json = match snapshot(old_data) {
        Some(json) => json,
        None => {
            return Err(AppError::Serde("event snapshot could not be written".to_string()));
        },
    };
    let new_json = match snapshot(new_data) {
        Some(json) => json,
        None => {
            return Err(AppError::Serde("event snapshot could not be written".to_string()));
        },
    };
    match db.insert_audit(event_id, organizer_id, user_id, audit_type, old_json, new_json, now) {
        Ok(_) => Ok(()),
        Err(e) => Err(AppError::Sqlx(e)),
    }
}

/// What a recorded change leaves behind: the state after the change with its
/// audit entry, or the state before it with the failure of the entry.
pub open spec fn with_audit<T>(
    before: DatabaseView,
    changed: DatabaseView,
    value: T,
    event_id: i64,
    organizer_id: i64,
    user_id: i64,
    audit_type: AuditType,
    old_data: Option<EventView>,
    new_data: Option<EventView>,
    now: i64,
) -> (DatabaseView, Result<T, AppErrorView>) {
    let (after, recorded) = record_audit_outcome(
        changed,
        event_id,
        organizer_id,
        user_id,
        audit_type,
        old_data,
        new_data,
        now,
    );
    match recorded {
        Ok(_) => (after, Ok(value)),
        Err(e) => (before, Err(e)),
    }
}

/// Whether an event may end at `end` when it starts at `start`.
pub open spec fn times_ordered(start: i64, end: Option<i64>) -> bool {
    match end {
        Some(end) => end >= start,
        None => true,
    }
}

/// The failure of an event that would end before it starts.
pub open spec fn times_disordered() -> AppErrorView {
    AppErrorView::Validation("end date time must not be before start date time"@)
}

/// Creating an event: an organizer account must ask, and the event must not
/// end before it starts; then the event is stored for the organizer together
/// with an audit entry that holds its snapshot as the new state.
pub open spec fn create_event_outcome(
    db: DatabaseView,
    cookie_header: Option<Seq<char>>,
    request: CreateEventRequestView,
    now: i64,
) -> (DatabaseView, Result<EventView, AppErrorView>) {
    match principal_of_request(db, cookie_header, now) {
        Err(e) => (db, Err(e)),
        Ok(user) => match user.organizer_id {
            None => (db, Err(AppErrorView::Unauthorized("organizer account required"@))),
            Some(organizer_id) => if request.end_date_time < request.start_date_time {
                (db, Err(times_disordered()))
            } else {
                let (stored, inserted) = state::insert_event(db, organizer_id, request, now);
                match inserted {
                    Err(e) => (db, Err(AppErrorView::Sqlx(e))),
                    Ok(event) => with_audit(
                        db,
                        stored,
                        event,
                        event.id,
                        event.organizer_id,
                        user.account_id,
                        AuditType::Create,
                        None,
                        Some(event),
                        now,
                    ),
                }
            },
        },
    }
}

/// Creates an event for the organizer of the signed-in account.
pub fn create_event(db: &mut Database, cookie_header: Option<&str>, payload: &CreateEventRequest, now: i64) -> (r:
    Result<Event, AppError>)
    requires
        old(db).wf(),
    ensures
        final(db).wf(),
        (final(db)@, result_view(r)) == create_event_outcome(
            old(db)@,
            opt_str_text(cookie_header),
            payload@,
            now,
        ),
{
    let user = match current_user_from_headers(cookie_header, db, now) {
        Ok(user) => user,
        Err(e) => {
            return Err(e);
        },
    };
    let organizer_id = match check_creation(&user, payload.start_date_time, payload.end_date_time) {
        Ok(id) => id,
        Err(e) => {
            return Err(e);
        },
    };
    let draft = match db.draft_event(organizer_id, payload, now) {
        Ok(draft) => draft,
        Err(e) => {
            return Err(AppError::Sqlx(e));
        },
    };
    let json = match require_snapshot(&draft) {
        Ok(json) => json,
        Err(e) => {
            return Err(e);
        },
    };
    if db.audit_log_full() {
        return Err(AppError::Sqlx(sequence_exhausted()));
    }
    let event = match db.insert_event(organizer_id, payload, now) {
        Ok(event) => event,
        Err(e) => {
            assert(false);
            return Err(AppError::Sqlx(e));
        },
    };
    match db.insert_audit(
        event.id,
        event.organizer_id,
        user.account_id,
        AuditType::Create,
        None,
        Some(json),
        now,
    ) {
        Ok(_) => Ok(event),
        Err(e) => {
            assert(false);
            Err(AppError::Sqlx(e))
        },
    }
}

fn sequence_exhausted() -> (e: DbError)
    ensures
        e@ == state::sequence_exhausted(),
{
    DbError::Database {
        code: Some("2200H".to_string()),
        message: "nextval: reached maximum value of sequence".to_string(),
    }
}

/// Reading an event: the request must be signed in, the event must exist,
/// and the principal must be an administrator or the organizer of the event.
/// A request without a session learns nothing of the event.
pub open spec fn get_event_outcome(db: DatabaseView, cookie_header: Option<Seq<char>>, id: i64, now: i64) -> Result<
    EventView,
    AppErrorView,
> {
    match principal_of_request(db, cookie_header, now) {
        Err(e) => Err(e),
        Ok(user) => match state::event_by_id(db, id) {
            None => Err(AppErrorView::NotFound("event not found"@)),
            Some(event) => match event_read_access(user, event.organizer_id) {
                Err(e) => Err(e),
                Ok(_) => Ok(event),
            },
        },
    }
}

/// The verdict on the lookup of an event that is to be removed or read.
pub fn event_found(found: Option<Event>, missing: &str) -> (r: Result<Event, AppError>)
    ensures
        match found {
            Some(e) => r == Ok::<Event, AppError>(e),
            None => r matches Err(err) && err@ == AppErrorView::NotFound(missing@),
        },
{
    match found {
        Some(event) => Ok(event),
        None => Err(AppError::not_found(missing)),
    }
}

/// Reads the event `id`.
pub fn get_event(db: &Database, cookie_header: Option<&str>, id: i64, now: i64) -> (r: Result<Event, AppError>)
    ensures
        result_view(r) == get_event_outcome(db@, opt_str_text(cookie_header), id, now),
{
    let user = match current_user_from_headers(cookie_header, db, now) {
        Ok(user) => user,
        Err(e) => {
            return Err(e);
        },
    };
    let event = match db.find_event(id) {
        Some(event) => event,
        None => {
            return Err(AppError::not_found("event not found"));
        },
    };
    match require_event_read_access(&user, event.organizer_id) {
        Ok(_) => Ok(event),
        Err(e) => Err(e),
    }
}

/// Changing an event: the principal must have a scope, the request must name
/// a field, the event must exist and lie in the scope, and it must not end
/// before it starts afterwards; then the event is changed together with an
/// audit entry that holds its snapshots before and after.
pub open spec fn update_event_outcome(
    db: DatabaseView,
    cookie_header: Option<Seq<char>>,
    id: i64,
    names_a_field: bool,
    changes: UpdateEventRequestView,
    now: i64,
) -> (DatabaseView, Result<EventView, AppErrorView>) {
    match principal_of_request(db, cookie_header, now) {
        Err(e) => (db, Err(e)),
        Ok(user) => match event_scope(user) {
            Err(e) => (db, Err(e)),
            Ok(scope) => if !names_a_field {
                (db, Err(AppErrorView::Validation("No fields supplied for update"@)))
            } else {
                match state::event_by_id(db, id) {
                    None => (db, Err(AppErrorView::Sqlx(DbErrorView::RowNotFound))),
                    Some(existing) => if !in_scope(scope, existing.organizer_id) {
                        (
                            db,
                            Err(
                                AppErrorView::Unauthorized(
                                    "cannot update another organizer's event"@,
                                ),
                            ),
                        )
                    } else {
                        let updated = state::changed_event(existing, changes, now);
                        if !times_ordered(updated.start_date_time, updated.end_date_time) {
                            (db, Err(times_disordered()))
                        } else {
                            with_audit(
                                db,
                                state::update_event(db, id, changes, now),
                                updated,
                                updated.id,
                                updated.organizer_id,
                                user.account_id,
                                AuditType::Update,
                                Some(existing),
                                Some(updated),
                                now,
                            )
                        }
                    },
                }
            },
        },
    }
}

/// Changes the event `id` as the request says.
pub fn update_event(
    db: &mut Database,
    cookie_header: Option<&str>,
    id: i64,
    payload: &UpdateEventRequest,
    now: i64,
) -> (r: Result<Event, AppError>)
    requires
        old(db).wf(),
    ensures
        final(db).wf(),
        (final(db)@, result_view(r)) == update_event_outcome(
            old(db)@,
            opt_str_text(cookie_header),
            id,
            payload.names_a_field(),
            payload@,
            now,
        ),
{
    let user = match current_user_from_headers(cookie_header, db, now) {
        Ok(user) => user,
        Err(e) => {
            return Err(e);
        },
    };
    let scope = match event_scope_of(&user) {
        Ok(scope) => scope,
        Err(e) => {
            return Err(e);
        },
    };
    if !payload.has_updates() {
        return Err(AppError::validation("No fields supplied for update"));
    }
    let existing = match db.find_event(id) {
        Some(existing) => existing,
        None => {
            return Err(AppError::Sqlx(DbError::RowNotFound));
        },
    };
    match require_event_in_scope(scope, existing.organizer_id, "cannot update another organizer's event") {
        Ok(_) => {},
        Err(e) => {
            return Err(e);
        },
    }
    let updated = changed_event(&existing, payload, now);
    match check_times(updated.start_date_time, updated.end_date_time) {
        Ok(_) => {},
        Err(e) => {
            return Err(e);
        },
    }
    let old_json = match require_snapshot(&existing) {
        Ok(json) => json,
        Err(e) => {
            return Err(e);
        },
    };
    let new_json = match require_snapshot(&updated) {
        Ok(json) => json,
        Err(e) => {
            return Err(e);
        },
    };
    if db.audit_log_full() {
        return Err(AppError::Sqlx(sequence_exhausted()));
    }
    db.update_event(id, payload, now);
    match db.insert_audit(
        updated.id,
        updated.organizer_id,
        user.account_id,
        AuditType::Update,
        Some(old_json),
        Some(new_json),
        now,
    ) {
        Ok(_) => Ok(updated),
        Err(e) => {
            assert(false);
            Err(AppError::Sqlx(e))
        },
    }
}

/// Removing an event: the principal must have a scope, and the event must
/// exist and lie in the scope; then the event is removed together with an
/// audit entry that holds its snapshot as the old state.
pub open spec fn delete_event_outcome(db: DatabaseView, cookie_header: Option<Seq<char>>, id: i64, now: i64) -> (
    DatabaseView,
    Result<u16, AppErrorView>,
) {
    match principal_of_request(db, cookie_header, now) {
        Err(e) => (db, Err(e)),
        Ok(user) => match event_scope(user) {
            Err(e) => (db, Err(e)),
            Ok(scope) => match state::event_by_id(db, id) {
                None => (db, Err(AppErrorView::NotFound("Event not found"@))),
                Some(existing) => if !in_scope(scope, existing.organizer_id) {
                    (
                        db,
                        Err(AppErrorView::Unauthorized("cannot delete another organizer's event"@)),
                    )
                } else {
                    with_audit(
                        db,
                        state::delete_event(db, id),
                        STATUS_NO_CONTENT,
                        existing.id,
                        existing.organizer_id,
                        user.account_id,
                        AuditType::Delete,
                        Some(existing),
                        None,
                        now,
                    )
                },
            },
        },
    }
}

/// Removes the event `id`.
pub fn delete_event(db: &mut Database, cookie_header: Option<&str>, id: i64, now: i64) -> (r: Result<
    u16,
    AppError,
>)
    requires
        old(db).wf(),
    ensures
        final(db).wf(),
        (final(db)@, result_view(r)) == delete_event_outcome(
            old(db)@,
            opt_str_text(cookie_header),
            id,
            now,
        ),
{
    let user = match current_user_from_headers(cookie_header, db, now) {
        Ok(user) => user,
        Err(e) => {
            return Err(e);
        },
    };
    let scope = match event_scope_of(&user) {
        Ok(scope) => scope,
        Err(e) => {
            return Err(e);
        },
    };
    let existing = match db.find_event(id) {
        Some(existing) => existing,
        None => {
            return Err(AppError::not_found("Event not found"));
        },
    };
    match require_event_in_scope(scope, existing.organizer_id, "cannot delete another organizer's event") {
        Ok(_) => {},
        Err(e) => {
            return Err(e);
        },
    }
    let old_json = match require_snapshot(&existing) {
        Ok(json) => json,
        Err(e) => {
            return Err(e);
        },
    };
    if db.audit_log_full() {
        return Err(AppError::Sqlx(sequence_exhausted()));
    }
    db.delete_event(id);
    match db.insert_audit(
        existing.id,
        existing.organizer_id,
        user.account_id,
        AuditType::Delete,
        Some(old_json),
        None,
        now,
    ) {
        Ok(_) => Ok(STATUS_NO_CONTENT),
        Err(e) => {
            assert(false);
            Err(AppError::Sqlx(e))
        },
    }
}

/// The events that a query selects at `now`.
pub open spec fn is_selected_event(q: ListEventsQuery, now: i64) -> spec_fn(EventView) -> bool {
    |e: EventView| selects_event(q, e.organizer_id, e.start_date_time, now)
}

/// The instants at which events start.
pub open spec fn starts_of(events: Seq<EventView>) -> Seq<i64> {
    events.map_values(|e: EventView| e.start_date_time)
}

/// The events that a query selects at `now`, those that start first first, and
/// of them the page that the query asks for.
pub open spec fn listed_events(events: Seq<EventView>, q: ListEventsQuery, now: i64) -> Seq<EventView> {
    let selected = events.filter(is_selected_event(q, now));
    page(
        newest_first(starts_of(selected), selected.len()).reverse().map_values(
            |p: int| selected[p],
        ),
        page_limit(q.limit),
        page_offset(q.offset),
    )
}

/// Listing events: the request must be signed in.
pub open spec fn list_events_outcome(
    db: DatabaseView,
    cookie_header: Option<Seq<char>>,
    query: ListEventsQuery,
    now: i64,
) -> Result<Seq<EventView>, AppErrorView> {
    match principal_of_request(db, cookie_header, now) {
        Err(e) => Err(e),
        Ok(_) => Ok(listed_events(db.events, query, now)),
    }
}

/// The mathematical value of the outcome of listing events.
pub open spec fn events_result_view(r: Result<Vec<Event>, AppError>) -> Result<
    Seq<EventView>,
    AppErrorView,
> {
    match r {
        Ok(events) => Ok(event_views(events@)),
        Err(e) => Err(e@),
    }
}

/// The events that a query selects at `now`, those that start first first, and
/// of them the page that the query asks for.
pub fn select_events(events: &Vec<Event>, query: &ListEventsQuery, now: i64) -> (listed: Vec<Event>)
    ensures
        event_views(listed@) == listed_events(event_views(events@), *query, now),
{
    let ghost views = event_views(events@);
    let ghost keep = is_selected_event(*query, now);
    let mut selected: Vec<Event> = Vec::new();
    let mut instants: Vec<i64> = Vec::new();
    let mut i: usize = 0;
    while i < events.len()
        invariant
            i <= events.len(),
            views == event_views(events@),
            keep == is_selected_event(*query, now),
            event_views(selected@) == views.subrange(0, i as int).filter(keep),
            instants@ == starts_of(event_views(selected@)),
        decreases events.len() - i,
    {
        proof {
            lemma_filter_push(views.subrange(0, i as int), keep, views[i as int]);
            assert(views.subrange(0, i + 1) =~= views.subrange(0, i as int).push(views[i as int]));
        }
        if event_selected(query, events[i].organizer_id, events[i].start_date_time, now) {
            let ghost earlier = event_views(selected@);
            selected.push(events[i].duplicate());
            instants.push(events[i].start_date_time);
            assert(event_views(selected@) =~= earlier.push(views[i as int]));
            assert(instants@ =~= starts_of(event_views(selected@)));
        }
        i = i + 1;
    }
    proof {
        lemma_subrange_all(views);
        crate::ordering::law_newest_first_orders_all_rows(instants@, instants@.len());
    }
    let order = order_newest_first(&instants);
    let ghost positions = order@.map_values(|p: usize| p as int).reverse();
    let bounds = page_bounds(order.len(), effective_limit(query.limit), effective_offset(query.offset));
    let ghost chosen = event_views(selected@);
    let ghost all = positions.map_values(|p: int| chosen[p]);
    let mut listed: Vec<Event> = Vec::new();
    let mut k: usize = bounds.0;
    while k < bounds.1
        invariant
            bounds.0 <= k <= bounds.1 <= order.len(),
            positions == order@.map_values(|p: usize| p as int).reverse(),
            crate::ordering::holds_positions(
                order@.map_values(|p: usize| p as int),
                selected@.len() as nat,
            ),
            chosen == event_views(selected@),
            all == positions.map_values(|p: int| chosen[p]),
            event_views(listed@) == all.subrange(bounds.0 as int, k as int),
        decreases bounds.1 - k,
    {
        let from_end = order.len() - 1 - k;
        assert(positions[k as int] == order@[from_end as int]);
        assert(0 <= order@.map_values(|p: usize| p as int)[from_end as int] < selected@.len());
        let ghost earlier = event_views(listed@);
        listed.push(selected[order[from_end]].duplicate());
        assert(event_views(listed@) =~= earlier.push(all[k as int]));
        assert(all.subrange(bounds.0 as int, k + 1) =~= all.subrange(bounds.0 as int, k as int).push(
            all[k as int],
        ));
        k = k + 1;
    }
    listed
}

/// Lists the events that a query selects.
pub fn list_events(db: &Database, cookie_header: Option<&str>, query: ListEventsQuery, now: i64) -> (r:
    Result<Vec<Event>, AppError>)
    ensures
        events_result_view(r) == list_events_outcome(db@, opt_str_text(cookie_header), query, now),
{
    match current_user_from_headers(cookie_header, db, now) {
        Ok(_) => {},
        Err(e) => {
            return Err(e);
        },
    }
    let events = db.all_events();
    Ok(select_events(&events, &query, now))
}

} // verus!
