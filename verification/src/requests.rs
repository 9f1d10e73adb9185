//! The request export: a request with its first three filters spread out.
use crate::calendar::Timestamp;
use crate::rows::{clone_opt_text, opt_text};
use vstd::prelude::*;

verus! {

/// A loaded row of the `requests` table.
pub struct RequestRow {
    pub id: i32,
    pub name: Option<String>,
    pub quantity: i32,
    pub request_type: Option<String>,
    pub reason_for_cancelling: Option<String>,
    pub filters: Option<Vec<Option<String>>>,
    pub closed: bool,
    pub cancelled: bool,
    pub on_hold: bool,
    pub status: Option<String>,
    pub exclude: bool,
    pub ordered_at: Option<Timestamp>,
    pub user_id: Option<i32>,
    pub ware_id: Option<i32>,
    pub organization_id: Option<i32>,
    pub uuid: String,
    pub created_at: Option<Timestamp>,
    pub updated_at: Option<Timestamp>,
    pub description: Option<String>,
}

/// An exported request.
pub struct RequestTaskRecord {
    pub id: i32,
    pub name: Option<String>,
    pub quantity: i32,
    pub request_type: Option<String>,
    pub reason_for_cancelling: Option<String>,
    pub filter1: Option<String>,
    pub filter2: Option<String>,
    pub filter3: Option<String>,
    pub closed: bool,
    pub cancelled: bool,
    pub on_hold: bool,
    pub status: Option<String>,
    pub exclude: bool,
    pub ordered_at: Option<Timestamp>,
    pub user_id: Option<i32>,
    pub ware_id: Option<i32>,
    pub organization_id: Option<i32>,
    pub uuid: String,
    pub created_at: Option<Timestamp>,
    pub updated_at: Option<Timestamp>,
    pub description: Option<String>,
}

/// Filter `k` of a request: the `k`-th entry of its filter list, and `""` when
/// the list is absent, too short, or the entry is empty.
pub open spec fn filter_text(filters: Option<Vec<Option<String>>>, k: int) -> Seq<char> {
    match filters {
        Some(v) => if v.len() > k {
            match v@[k] {
                Some(s) => s@,
                None => Seq::empty(),
            }
        } else {
            Seq::empty()
        },
        None => Seq::empty(),
    }
}

/// `rec` is the export of `row`.
pub open spec fn is_request_record(rec: RequestTaskRecord, row: RequestRow) -> bool {
    &&& rec.id == row.id
    &&& opt_text(rec.name) == opt_text(row.name)
    &&& rec.quantity == row.quantity
    &&& opt_text(rec.request_type) == opt_text(row.request_type)
    &&& opt_text(rec.reason_for_cancelling) == opt_text(row.reason_for_cancelling)
    &&& opt_text(rec.filter1) == Some(filter_text(row.filters, 0))
    &&& opt_text(rec.filter2) == Some(filter_text(row.filters, 1))
    &&& opt_text(rec.filter3) == Some(filter_text(row.filters, 2))
    &&& rec.closed == row.closed
    &&& rec.cancelled == row.cancelled
    &&& rec.on_hold == row.on_hold
    &&& opt_text(rec.status) == opt_text(row.status)
    &&& rec.exclude == row.exclude
    &&& rec.ordered_at == row.ordered_at
    &&& rec.user_id == row.user_id
    &&& rec.ware_id == row.ware_id
    &&& rec.organization_id == row.organization_id
    &&& rec.uuid@ == row.uuid@
    &&& rec.created_at == row.created_at
    &&& rec.updated_at == row.updated_at
    &&& opt_text(rec.description) == opt_text(row.description)
}

/// Filter `k` of a request.
pub fn filter_at(filters: &Option<Vec<Option<String>>>, k: usize) -> (r: String)
    ensures
        r@ == filter_text(*filters, k as int),
{
    match filters {
        Some(v) => {
            if v.len() > k {
                match &v[k] {
                    Some(s) => s.clone(),
                    None => String::new(),
                }
            } else {
                String::new()
            }
        },
        None => String::new(),
    }
}

/// The task that exports the requests.
pub struct RequestTask {}

impl RequestTask {
    /// The export of one request.
    pub fn record(req: &RequestRow) -> (r: RequestTaskRecord)
        ensures
            is_request_record(r, *req),
    {
        RequestTaskRecord {
            id: req.id,
            name: clone_opt_text(&req.name),
            quantity: req.quantity,
            request_type: clone_opt_text(&req.request_type),
            reason_for_cancelling: clone_opt_text(&req.reason_for_cancelling),
            filter1: Some(filter_at(&req.filters, 0)),
            filter2: Some(filter_at(&req.filters, 1)),
            filter3: Some(filter_at(&req.filters, 2)),
            cancelled: req.cancelled,
            closed: req.closed,
            on_hold: req.on_hold,
            status: clone_opt_text(&req.status),
            exclude: req.exclude,
            ordered_at: req.ordered_at,
            user_id: req.user_id,
            ware_id: req.ware_id,
            organization_id: req.organization_id,
            uuid: req.uuid.clone(),
            created_at: req.created_at,
            updated_at: req.updated_at,
            description: clone_opt_text(&req.description),
        }
    }

    /// The exports of the requests, in their order.
    pub fn records(requests: &Vec<RequestRow>) -> (r: Vec<RequestTaskRecord>)
        ensures
            r.len() == requests.len(),
            forall|i: int| 0 <= i < requests.len() ==> is_request_record(#[trigger] r@[i], requests@[i]),
    {
        let mut r: Vec<RequestTaskRecord> = Vec::new();
        let mut i: usize = 0;
        while i < requests.len()
            invariant
                i <= requests.len(),
                r.len() == i,
                forall|j: int| 0 <= j < i ==> is_request_record(#[trigger] r@[j], requests@[j]),
            decreases requests.len() - i,
        {
            r.push(RequestTask::record(&requests[i]));
            i += 1;
        }
        r
    }
}

/// Each copied column of the export is the same-named column of its row.
pub proof fn law_request_record_columns(rec: RequestTaskRecord, row: RequestRow)
    requires
        is_request_record(rec, row),
    ensures
        rec.id == row.id,
        opt_text(rec.name) == opt_text(row.name),
        rec.quantity == row.quantity,
        opt_text(rec.request_type) == opt_text(row.request_type),
        opt_text(rec.reason_for_cancelling) == opt_text(row.reason_for_cancelling),
        rec.closed == row.closed,
        rec.cancelled == row.cancelled,
        rec.on_hold == row.on_hold,
        opt_text(rec.status) == opt_text(row.status),
        rec.exclude == row.exclude,
        rec.ordered_at == row.ordered_at,
        rec.user_id == row.user_id,
        rec.ware_id == row.ware_id,
        rec.organization_id == row.organization_id,
        rec.uuid@ == row.uuid@,
        rec.created_at == row.created_at,
        rec.updated_at == row.updated_at,
        opt_text(rec.description) == opt_text(row.description),
{
}

} // verus!
