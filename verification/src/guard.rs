//! The authorization rules: what a principal may do to which resource.
//!
//! An administrator may act on every organizer and event. An organizer may act
//! on itself and on its own events. A refusal is always `Unauthorized`, except
//! for reading a single event, where it is `NotFound` so that the existence of
//! another organizer's event is not given away.
use vstd::prelude::*;
use vstd::string::*;
use crate::dto::ListAuditLogsQuery;
use crate::error::{AppError, AppErrorView};
use crate::policy::unit_result_view;
use crate::shared::AuthedUser;

verus! {

/// Whether a principal may act on an organizer: an administrator on any, an
/// organizer on its own.
pub open spec fn may_act_on_organizer(user: AuthedUser, organizer_id: i64) -> bool {
    user.is_admin() || user.organizer_id == Some(organizer_id)
}

/// Whether a principal may act on an organizer.
pub fn can_act_on_organizer(user: &AuthedUser, organizer_id: i64) -> (allowed: bool)
    ensures
        allowed == may_act_on_organizer(*user, organizer_id),
{
    let own = match user.organizer_id() {
        Some(id) => id == organizer_id,
        None => false,
    };
    own || user.is_admin()
}

/// The verdict on an operation that only administrators may perform.
pub open spec fn admin_only(user: AuthedUser) -> Result<(), AppErrorView> {
    if user.is_admin() {
        Ok(())
    } else {
        Err(AppErrorView::Unauthorized("insufficient permissions"@))
    }
}

/// Refuses everyone but administrators.
pub fn require_admin(user: &AuthedUser) -> (r: Result<(), AppError>)
    ensures
        unit_result_view(r) == admin_only(*user),
{
    if user.is_admin() {
        Ok(())
    } else {
        Err(AppError::unauthorized("insufficient permissions"))
    }
}

/// The verdict on an operation on an organizer; `refusal` is what a principal
/// is told who may not perform it.
pub open spec fn organizer_access(user: AuthedUser, organizer_id: i64, refusal: Seq<char>) -> Result<
    (),
    AppErrorView,
> {
    if may_act_on_organizer(user, organizer_id) {
        Ok(())
    } else {
        Err(AppErrorView::Unauthorized(refusal))
    }
}

/// Refuses a principal that may not act on the organizer.
pub fn require_organizer_access(user: &AuthedUser, organizer_id: i64, refusal: &str) -> (r: Result<
    (),
    AppError,
>)
    ensures
        unit_result_view(r) == organizer_access(*user, organizer_id, refusal@),
{
    if can_act_on_organizer(user, organizer_id) {
        Ok(())
    } else {
        Err(AppError::unauthorized(refusal))
    }
}

/// The organizers whose events a principal may change: `None` stands for all
/// of them, which is what an administrator gets; an organizer account gets
/// its own, and must have one.
pub open spec fn event_scope(user: AuthedUser) -> Result<Option<i64>, AppErrorView> {
    if user.is_admin() {
        Ok(None)
    } else {
        match user.organizer_id {
            Some(id) => Ok(Some(id)),
            None => Err(AppErrorView::Unauthorized("organizer account required"@)),
        }
    }
}

pub open spec fn scope_result_view(r: Result<Option<i64>, AppError>) -> Result<
    Option<i64>,
    AppErrorView,
> {
    match r {
        Ok(v) => Ok(v),
        Err(e) => Err(e@),
    }
}

/// Finds the organizers whose events a principal may change.
pub fn event_scope_of(user: &AuthedUser) -> (r: Result<Option<i64>, AppError>)
    ensures
        scope_result_view(r) == event_scope(*user),
{
    if user.is_admin() {
        Ok(None)
    } else {
        match user.organizer_id() {
            Some(id) => Ok(Some(id)),
            None => Err(AppError::unauthorized("organizer account required")),
        }
    }
}

/// Whether an event of `event_organizer_id` lies in a scope.
pub open spec fn in_scope(scope: Option<i64>, event_organizer_id: i64) -> bool {
    match scope {
        Some(id) => id == event_organizer_id,
        None => true,
    }
}

/// Refuses a principal whose scope does not hold an event of
/// `event_organizer_id`.
pub fn require_event_in_scope(scope: Option<i64>, event_organizer_id: i64, refusal: &str) -> (r: Result<
    (),
    AppError,
>)
    ensures
        unit_result_view(r) == if in_scope(scope, event_organizer_id) {
            Ok::<(), AppErrorView>(())
        } else {
            Err::<(), AppErrorView>(AppErrorView::Unauthorized(refusal@))
        },
{
    let allowed = match scope {
        Some(id) => id == event_organizer_id,
        None => true,
    };
    if allowed {
        Ok(())
    } else {
        Err(AppError::unauthorized(refusal))
    }
}

/// Whether a principal may read an event of `event_organizer_id`.
pub open spec fn may_read_event(user: AuthedUser, event_organizer_id: i64) -> bool {
    user.is_admin() || user.organizer_id == Some(event_organizer_id)
}

/// The verdict on reading a single event: a principal that may not read it is
/// refused as unauthorized, not told that the event is missing.
pub open spec fn event_read_access(user: AuthedUser, event_organizer_id: i64) -> Result<
    (),
    AppErrorView,
> {
    if may_read_event(user, event_organizer_id) {
        Ok(())
    } else {
        Err(AppErrorView::Unauthorized("cannot view another organizer's event"@))
    }
}

/// Refuses a principal that may not read an event of `event_organizer_id`.
pub fn require_event_read_access(user: &AuthedUser, event_organizer_id: i64) -> (r: Result<
    (),
    AppError,
>)
    ensures
        unit_result_view(r) == event_read_access(*user, event_organizer_id),
{
    if can_act_on_organizer(user, event_organizer_id) {
        Ok(())
    } else {
        Err(AppError::unauthorized("cannot view another organizer's event"))
    }
}

/// The audit entries a principal may list with a query. An administrator may
/// list what it asks for. An organizer account must have an organizer, may
/// name no other, and is held to its own where it names none.
pub open spec fn audit_log_scope(user: AuthedUser, query: ListAuditLogsQuery) -> Result<
    ListAuditLogsQuery,
    AppErrorView,
> {
    if user.is_admin() {
        Ok(query)
    } else {
        match user.organizer_id {
            None => Err(AppErrorView::Unauthorized("missing organizer context"@)),
            Some(own) => match query.organizer_id {
                Some(requested) => if requested != own {
                    Err(AppErrorView::Unauthorized("cannot view other organizers' audit logs"@))
                } else {
                    Ok(query)
                },
                None => Ok(ListAuditLogsQuery { organizer_id: Some(own), ..query }),
            },
        }
    }
}

pub open spec fn query_result_view(r: Result<ListAuditLogsQuery, AppError>) -> Result<
    ListAuditLogsQuery,
    AppErrorView,
> {
    match r {
        Ok(v) => Ok(v),
        Err(e) => Err(e@),
    }
}

/// Confines a query for audit entries to what the principal may list.
pub fn scope_audit_logs(user: &AuthedUser, query: ListAuditLogsQuery) -> (r: Result<
    ListAuditLogsQuery,
    AppError,
>)
    ensures
        query_result_view(r) == audit_log_scope(*user, query),
{
    if user.is_admin() {
        return Ok(query);
    }
    let own = match user.organizer_id() {
        Some(own) => own,
        None => {
            return Err(AppError::unauthorized("missing organizer context"));
        },
    };
    match query.organizer_id {
        Some(requested) => {
            if requested != own {
                Err(AppError::unauthorized("cannot view other organizers' audit logs"))
            } else {
                Ok(query)
            }
        },
        None => Ok(
            ListAuditLogsQuery {
                event_id: query.event_id,
                organizer_id: Some(own),
                limit: query.limit,
                offset: query.offset,
            },
        ),
    }
}

/// The verdict on reading the newsletter data, given whether the organizer of
/// the principal has the permission (`None` where there is no such organizer).
pub open spec fn newsletter_read_access(user: AuthedUser, permission: Option<bool>) -> Result<
    (),
    AppErrorView,
> {
    if user.is_admin() {
        Ok(())
    } else if user.organizer_id is None || permission is None {
        Err(AppErrorView::Unauthorized("organizer account required"@))
    } else if permission != Some(true) {
        Err(AppErrorView::Unauthorized("newsletter permission required"@))
    } else {
        Ok(())
    }
}

/// Refuses a principal that may not read the newsletter data.
pub fn require_newsletter_access(user: &AuthedUser, permission: Option<bool>) -> (r: Result<
    (),
    AppError,
>)
    ensures
        unit_result_view(r) == newsletter_read_access(*user, permission),
{
    if user.is_admin() {
        return Ok(());
    }
    if user.organizer_id().is_none() {
        return Err(AppError::unauthorized("organizer account required"));
    }
    match permission {
        None => Err(AppError::unauthorized("organizer account required")),
        Some(allowed) => {
            if allowed {
                Ok(())
            } else {
                Err(AppError::unauthorized("newsletter permission required"))
            }
        },
    }
}

} // verus!
