//! Reading the audit log.
use vstd::prelude::*;
use vstd::string::*;
use crate::cookies::opt_str_text;
use crate::dto::ListAuditLogsQuery;
use crate::error::{AppError, AppErrorView};
use crate::guard::{audit_log_scope, scope_audit_logs};
use crate::models::{AuditLogEntry, AuditLogEntryView};
use crate::ordering::{newest_first, order_newest_first, page, page_bounds};
use crate::queries::{
    effective_limit, effective_offset, entry_selected, page_limit, page_offset, selects_entry,
};
use crate::seqs::{lemma_filter_push, lemma_subrange_all};
use crate::shared::{current_user_from_headers, principal_of_request};
use crate::state::DatabaseView;
use crate::store::{audit_views, Database};

verus! {

/// The entries that a query selects.
pub open spec fn is_selected(q: ListAuditLogsQuery) -> spec_fn(AuditLogEntryView) -> bool {
    |e: AuditLogEntryView| selects_entry(q, e.event_id, e.organizer_id)
}

/// The instants at which entries were recorded.
pub open spec fn recorded_at(entries: Seq<AuditLogEntryView>) -> Seq<i64> {
    entries.map_values(|e: AuditLogEntryView| e.at)
}

/// Rows in a given order.
pub open spec fn arranged<T>(rows: Seq<T>, order: Seq<int>) -> Seq<T> {
    order.map_values(|p: int| rows[p])
}

/// The entries that a query selects, those recorded last first, and of them
/// the page that the query asks for.
pub open spec fn listed_entries(log: Seq<AuditLogEntryView>, q: ListAuditLogsQuery) -> Seq<
    AuditLogEntryView,
> {
    let selected = log.filter(is_selected(q));
    page(
        arranged(selected, newest_first(recorded_at(selected), selected.len())),
        page_limit(q.limit),
        page_offset(q.offset),
    )
}

/// Listing the audit log: the request must be signed in, and the query is
/// confined to what the principal may list.
pub open spec fn list_audit_logs_outcome(
    db: DatabaseView,
    cookie_header: Option<Seq<char>>,
    query: ListAuditLogsQuery,
    now: i64,
) -> Result<Seq<AuditLogEntryView>, AppErrorView> {
    match principal_of_request(db, cookie_header, now) {
        Err(e) => Err(e),
        Ok(user) => match audit_log_scope(user, query) {
            Err(e) => Err(e),
            Ok(scoped) => Ok(listed_entries(db.audit_log, scoped)),
        },
    }
}

/// The mathematical value of the outcome of a listing.
pub open spec fn entries_result_view(r: Result<Vec<AuditLogEntry>, AppError>) -> Result<
    Seq<AuditLogEntryView>,
    AppErrorView,
> {
    match r {
        Ok(entries) => Ok(audit_views(entries@)),
        Err(e) => Err(e@),
    }
}

/// The entries of a log that a query selects, newest first, and of them the
/// page that the query asks for.
pub fn select_entries(log: &Vec<AuditLogEntry>, query: &ListAuditLogsQuery) -> (entries: Vec<
    AuditLogEntry,
>)
    ensures
        audit_views(entries@) == listed_entries(audit_views(log@), *query),
{
    let ghost views = audit_views(log@);
    let ghost keep = is_selected(*query);
    let mut selected: Vec<AuditLogEntry> = Vec::new();
    let mut instants: Vec<i64> = Vec::new();
    let mut i: usize = 0;
    while i < log.len()
        invariant
            i <= log.len(),
            views == audit_views(log@),
            keep == is_selected(*query),
            audit_views(selected@) == views.subrange(0, i as int).filter(keep),
            instants@ == recorded_at(audit_views(selected@)),
        decreases log.len() - i,
    {
        proof {
            lemma_filter_push(views.subrange(0, i as int), keep, views[i as int]);
            assert(views.subrange(0, i + 1) =~= views.subrange(0, i as int).push(views[i as int]));
        }
        if entry_selected(query, log[i].event_id, log[i].organizer_id) {
            let ghost earlier = audit_views(selected@);
            selected.push(log[i].duplicate());
            instants.push(log[i].at);
            assert(audit_views(selected@) =~= earlier.push(views[i as int]));
            assert(instants@ =~= recorded_at(audit_views(selected@)));
        }
        i = i + 1;
    }
    proof {
        lemma_subrange_all(views);
    }
    let order = order_newest_first(&instants);
    let ghost positions = order@.map_values(|p: usize| p as int);
    proof {
        crate::ordering::law_newest_first_orders_all_rows(instants@, instants@.len());
    }
    let bounds = page_bounds(order.len(), effective_limit(query.limit), effective_offset(query.offset));
    let ghost all = arranged(audit_views(selected@), positions);
    let mut entries: Vec<AuditLogEntry> = Vec::new();
    let mut k: usize = bounds.0;
    while k < bounds.1
        invariant
            bounds.0 <= k <= bounds.1 <= order.len(),
            positions == order@.map_values(|p: usize| p as int),
            crate::ordering::holds_positions(positions, selected@.len() as nat),
            all == arranged(audit_views(selected@), positions),
            audit_views(entries@) == all.subrange(bounds.0 as int, k as int),
        decreases bounds.1 - k,
    {
        assert(0 <= positions[k as int] < selected@.len());
        let ghost earlier = audit_views(entries@);
        entries.push(selected[order[k]].duplicate());
        assert(audit_views(entries@) =~= earlier.push(all[k as int]));
        assert(all.subrange(bounds.0 as int, k + 1) =~= all.subrange(bounds.0 as int, k as int).push(
            all[k as int],
        ));
        k = k + 1;
    }
    entries
}

/// Lists the audit log for the principal of the request.
pub fn list_audit_logs(db: &Database, cookie_header: Option<&str>, query: ListAuditLogsQuery, now: i64) -> (r:
    Result<Vec<AuditLogEntry>, AppError>)
    ensures
        entries_result_view(r) == list_audit_logs_outcome(
            db@,
            opt_str_text(cookie_header),
            query,
            now,
        ),
{
    let user = match current_user_from_headers(cookie_header, db, now) {
        Ok(user) => user,
        Err(e) => {
            return Err(e);
        },
    };
    let scoped = match scope_audit_logs(&user, query) {
        Ok(scoped) => scoped,
        Err(e) => {
            return Err(e);
        },
    };
    let log = db.audit_entries();
    Ok(select_entries(&log, &scoped))
}

} // verus!
