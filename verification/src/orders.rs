//! The order export: an order joined with its provider, request, user and
//! timepoint.
use crate::calendar::{CalendarDate, Timestamp};
use crate::index::{last_position, LastIndex};
use crate::providers::ProviderRow;
use crate::requests::RequestRow;
use crate::rows::{clone_opt_text, opt_date, opt_text};
use crate::streaming::text_eq;
use crate::users::UserRow;
use vstd::prelude::*;

verus! {

/// A loaded row of the `orders` table (its `booster` stays with the caller).
pub struct OrderRow {
    pub id: i32,
    pub provider_id: Option<i32>,
    pub request_id: Option<i32>,
    pub client_id: Option<i32>,
    /// The `obligations` JSON document, rendered.
    pub obligations: Option<String>,
    pub state: String,
    pub declined: bool,
    pub order_cancelled: bool,
    pub request_cancelled: bool,
    pub last_computed_status: Option<String>,
    pub uuid: String,
    pub created_at: Option<Timestamp>,
    pub updated_at: Option<Timestamp>,
}

/// A loaded row of the `timepoints` table.
pub struct TimepointRow {
    pub id: i32,
    pub name: Option<String>,
    pub date: Option<Timestamp>,
    pub order_id: Option<i32>,
}

/// An exported order (with the `booster` of the row added by the caller).
pub struct OrderTaskRecord {
    pub id: i32,
    pub provider_id: Option<i32>,
    pub provider_name: Option<String>,
    pub request_id: Option<i32>,
    pub user_email: Option<String>,
    pub client_id: Option<i32>,
    pub organization_id: Option<i32>,
    pub obligations: Option<String>,
    pub state: String,
    pub declined: bool,
    pub order_cancelled: bool,
    pub request_cancelled: bool,
    pub last_computed_status: Option<String>,
    pub uuid: String,
    pub created_at: Option<Timestamp>,
    pub updated_at: Option<Timestamp>,
    pub approval_date: Option<CalendarDate>,
    pub review_date: Option<CalendarDate>,
    pub submission_date: Option<CalendarDate>,
    pub completion_date: Option<CalendarDate>,
}

/// The rows that an order export reads besides the orders.
pub struct OrderSources {
    pub providers: Vec<ProviderRow>,
    pub users: Vec<UserRow>,
    pub requests: Vec<RequestRow>,
    pub timepoints: Vec<TimepointRow>,
}

/// The ids of the providers.
pub open spec fn provider_ids(v: Seq<ProviderRow>) -> Seq<i32> {
    v.map_values(|p: ProviderRow| p.id)
}

/// The ids of the users.
pub open spec fn user_ids(v: Seq<UserRow>) -> Seq<i32> {
    v.map_values(|u: UserRow| u.id)
}

/// The ids of the requests.
pub open spec fn request_ids(v: Seq<RequestRow>) -> Seq<i32> {
    v.map_values(|r: RequestRow| r.id)
}

/// The ids of the timepoints.
pub open spec fn timepoint_ids(v: Seq<TimepointRow>) -> Seq<i32> {
    v.map_values(|t: TimepointRow| t.id)
}

/// The name of the last provider with the given id (or id 0 when absent).
pub open spec fn provider_name_by_id(providers: Seq<ProviderRow>, id: Option<i32>) -> Option<Seq<char>> {
    match last_position(provider_ids(providers), id.unwrap_or(0)) {
        Some(p) => opt_text(providers[p].name),
        None => None,
    }
}

/// The last request with the order's request id (or id 0 when absent).
pub open spec fn order_request(s: OrderSources, order: OrderRow) -> Option<RequestRow> {
    match last_position(request_ids(s.requests@), order.request_id.unwrap_or(0)) {
        Some(p) => Some(s.requests@[p]),
        None => None,
    }
}

/// The e-mail address of the last user with the request's user id (or id 0).
pub open spec fn order_user_email(s: OrderSources, order: OrderRow) -> Option<Seq<char>> {
    let user_id = match order_request(s, order) {
        Some(r) => r.user_id,
        None => None,
    };
    match last_position(user_ids(s.users@), user_id.unwrap_or(0)) {
        Some(p) => opt_text(s.users@[p].email),
        None => None,
    }
}

/// The date of the order's timepoint when the timepoint is named `name`.
/// The timepoint is the last one whose own id equals the order's id.
pub open spec fn timepoint_date(s: OrderSources, order: OrderRow, name: Seq<char>) -> Option<CalendarDate> {
    match last_position(timepoint_ids(s.timepoints@), order.id) {
        Some(p) => if opt_text(s.timepoints@[p].name) == Some(name) {
            opt_date(s.timepoints@[p].date)
        } else {
            None
        },
        None => None,
    }
}

/// `rec` is the export of `order` joined with the rows of `s`.
pub open spec fn is_order_record(rec: OrderTaskRecord, order: OrderRow, s: OrderSources) -> bool {
    &&& rec.id == order.id
    &&& rec.provider_id == order.provider_id
    &&& opt_text(rec.provider_name) == provider_name_by_id(s.providers@, order.provider_id)
    &&& rec.request_id == order.request_id
    &&& opt_text(rec.user_email) == order_user_email(s, order)
    &&& rec.client_id == order.client_id
    &&& rec.organization_id == match order_request(s, order) {
        Some(r) => r.organization_id,
        None => None,
    }
    &&& opt_text(rec.obligations) == opt_text(order.obligations)
    &&& rec.state@ == order.state@
    &&& rec.declined == order.declined
    &&& rec.order_cancelled == order.order_cancelled
    &&& rec.request_cancelled == order.request_cancelled
    &&& opt_text(rec.last_computed_status) == opt_text(order.last_computed_status)
    &&& rec.uuid@ == order.uuid@
    &&& rec.created_at == order.created_at
    &&& rec.updated_at == order.updated_at
    &&& rec.approval_date == timepoint_date(s, order, "approval date"@)
    &&& rec.review_date == timepoint_date(s, order, "review date"@)
    &&& rec.submission_date == timepoint_date(s, order, "submission date"@)
    &&& rec.completion_date == timepoint_date(s, order, "completion date"@)
}

/// The indexes of the sources by id.
pub struct OrderIndexes {
    pub providers: LastIndex,
    pub users: LastIndex,
    pub requests: LastIndex,
    pub timepoints: LastIndex,
}

/// Each index finds the last row of its source by id.
pub open spec fn indexes_of(ix: OrderIndexes, s: OrderSources) -> bool {
    &&& ix.providers.wf() && ix.providers.ids() == provider_ids(s.providers@)
    &&& ix.users.wf() && ix.users.ids() == user_ids(s.users@)
    &&& ix.requests.wf() && ix.requests.ids() == request_ids(s.requests@)
    &&& ix.timepoints.wf() && ix.timepoints.ids() == timepoint_ids(s.timepoints@)
}

/// The ids of the providers, in their order.
pub fn ids_of_providers(v: &Vec<ProviderRow>) -> (r: Vec<i32>)
    ensures
        r@ == provider_ids(v@),
{
    let mut r: Vec<i32> = Vec::new();
    let mut i: usize = 0;
    while i < v.len()
        invariant
            i <= v.len(),
            r@ == provider_ids(v@.take(i as int)),
        decreases v.len() - i,
    {
        r.push(v[i].id);
        i += 1;
        assert(provider_ids(v@.take(i as int)) =~= provider_ids(v@.take(i - 1)).push(v@[i - 1].id));
    }
    assert(v@.take(v.len() as int) =~= v@);
    r
}

/// The ids of the users, in their order.
pub fn ids_of_users(v: &Vec<UserRow>) -> (r: Vec<i32>)
    ensures
        r@ == user_ids(v@),
{
    let mut r: Vec<i32> = Vec::new();
    let mut i: usize = 0;
    while i < v.len()
        invariant
            i <= v.len(),
            r@ == user_ids(v@.take(i as int)),
        decreases v.len() - i,
    {
        r.push(v[i].id);
        i += 1;
        assert(user_ids(v@.take(i as int)) =~= user_ids(v@.take(i - 1)).push(v@[i - 1].id));
    }
    assert(v@.take(v.len() as int) =~= v@);
    r
}

/// The ids of the requests, in their order.
pub fn ids_of_requests(v: &Vec<RequestRow>) -> (r: Vec<i32>)
    ensures
        r@ == request_ids(v@),
{
    let mut r: Vec<i32> = Vec::new();
    let mut i: usize = 0;
    while i < v.len()
        invariant
            i <= v.len(),
            r@ == request_ids(v@.take(i as int)),
        decreases v.len() - i,
    {
        r.push(v[i].id);
        i += 1;
        assert(request_ids(v@.take(i as int)) =~= request_ids(v@.take(i - 1)).push(v@[i - 1].id));
    }
    assert(v@.take(v.len() as int) =~= v@);
    r
}

/// The ids of the timepoints, in their order.
pub fn ids_of_timepoints(v: &Vec<TimepointRow>) -> (r: Vec<i32>)
    ensures
        r@ == timepoint_ids(v@),
{
    let mut r: Vec<i32> = Vec::new();
    let mut i: usize = 0;
    while i < v.len()
        invariant
            i <= v.len(),
            r@ == timepoint_ids(v@.take(i as int)),
        decreases v.len() - i,
    {
        r.push(v[i].id);
        i += 1;
        assert(timepoint_ids(v@.take(i as int)) =~= timepoint_ids(v@.take(i - 1)).push(v@[i - 1].id));
    }
    assert(v@.take(v.len() as int) =~= v@);
    r
}

/// The name of the last provider with the given id (or id 0 when absent).
pub fn provider_name_lookup(providers: &Vec<ProviderRow>, index: &LastIndex, id: Option<i32>) -> (r: Option<String>)
    requires
        index.wf(),
        index.ids() == provider_ids(providers@),
    ensures
        opt_text(r) == provider_name_by_id(providers@, id),
{
    let key = match id {
        Some(k) => k,
        None => 0,
    };
    match index.get(key) {
        Some(p) => {
            proof {
                crate::index::lemma_last_position(provider_ids(providers@), key);
            }
            clone_opt_text(&providers[p].name)
        },
        None => None,
    }
}

fn timepoint_date_named(s: &OrderSources, ix: &OrderIndexes, order: &OrderRow, name: &str) -> (r: Option<CalendarDate>)
    requires
        indexes_of(*ix, *s),
    ensures
        r == timepoint_date(*s, *order, name@),
{
    match ix.timepoints.get(order.id) {
        Some(p) => {
            proof {
                crate::index::lemma_last_position(timepoint_ids(s.timepoints@), order.id);
            }
            let t = &s.timepoints[p];
            let named = match &t.name {
                Some(n) => text_eq(n.as_str(), name),
                None => false,
            };
            if named {
                match t.date {
                    Some(d) => Some(d.date),
                    None => None,
                }
            } else {
                None
            }
        },
        None => None,
    }
}

/// The task that exports the orders.
pub struct OrderTask {}

impl OrderTask {
    /// The ids of the orders' requests, which every order must have.
    pub fn request_ids(orders: &Vec<OrderRow>) -> (r: Vec<i32>)
        requires
            forall|i: int| 0 <= i < orders.len() ==> (#[trigger] orders@[i]).request_id is Some,
        ensures
            r.len() == orders.len(),
            forall|i: int| 0 <= i < orders.len() ==> Some(#[trigger] r@[i]) == orders@[i].request_id,
    {
        let mut r: Vec<i32> = Vec::new();
        let mut i: usize = 0;
        while i < orders.len()
            invariant
                i <= orders.len(),
                r.len() == i,
                forall|j: int| 0 <= j < orders.len() ==> (#[trigger] orders@[j]).request_id is Some,
                forall|j: int| 0 <= j < i ==> Some(#[trigger] r@[j]) == orders@[j].request_id,
            decreases orders.len() - i,
        {
            r.push(orders[i].request_id.unwrap());
            i += 1;
        }
        r
    }

    /// The ids of the orders' providers, 0 for an order without one.
    pub fn provider_ids(orders: &Vec<OrderRow>) -> (r: Vec<i32>)
        ensures
            r.len() == orders.len(),
            forall|i: int| 0 <= i < orders.len() ==> #[trigger] r@[i] == orders@[i].provider_id.unwrap_or(0),
    {
        let mut r: Vec<i32> = Vec::new();
        let mut i: usize = 0;
        while i < orders.len()
            invariant
                i <= orders.len(),
                r.len() == i,
                forall|j: int| 0 <= j < i ==> #[trigger] r@[j] == orders@[j].provider_id.unwrap_or(0),
            decreases orders.len() - i,
        {
            r.push(
                match orders[i].provider_id {
                    Some(p) => p,
                    None => 0,
                },
            );
            i += 1;
        }
        r
    }

    /// Indexes the sources by id.
    pub fn indexes(s: &OrderSources) -> (ix: OrderIndexes)
        ensures
            indexes_of(ix, *s),
    {
        OrderIndexes {
            providers: LastIndex::new(&ids_of_providers(&s.providers)),
            users: LastIndex::new(&ids_of_users(&s.users)),
            requests: LastIndex::new(&ids_of_requests(&s.requests)),
            timepoints: LastIndex::new(&ids_of_timepoints(&s.timepoints)),
        }
    }

    /// The export of one order joined with the sources.
    pub fn record(order: &OrderRow, s: &OrderSources, ix: &OrderIndexes) -> (r: OrderTaskRecord)
        requires
            indexes_of(*ix, *s),
        ensures
            is_order_record(r, *order, *s),
    {
        let provider_name = provider_name_lookup(&s.providers, &ix.providers, order.provider_id);
        let request_key = match order.request_id {
            Some(k) => k,
            None => 0,
        };
        let request = ix.requests.get(request_key);
        proof {
            crate::index::lemma_last_position(request_ids(s.requests@), request_key);
        }
        let (organization_id, user_id) = match request {
            Some(p) => (s.requests[p].organization_id, s.requests[p].user_id),
            None => (None, None),
        };
        let user_key = match user_id {
            Some(k) => k,
            None => 0,
        };
        let user = ix.users.get(user_key);
        proof {
            crate::index::lemma_last_position(user_ids(s.users@), user_key);
        }
        let user_email = match user {
            Some(p) => clone_opt_text(&s.users[p].email),
            None => None,
        };
        OrderTaskRecord {
            id: order.id,
            provider_id: order.provider_id,
            provider_name,
            request_id: order.request_id,
            user_email,
            client_id: order.client_id,
            organization_id,
            obligations: clone_opt_text(&order.obligations),
            state: order.state.clone(),
            declined: order.declined,
            order_cancelled: order.order_cancelled,
            request_cancelled: order.request_cancelled,
            last_computed_status: clone_opt_text(&order.last_computed_status),
            uuid: order.uuid.clone(),
            created_at: order.created_at,
            updated_at: order.updated_at,
            approval_date: timepoint_date_named(s, ix, order, "approval date"),
            review_date: timepoint_date_named(s, ix, order, "review date"),
            submission_date: timepoint_date_named(s, ix, order, "submission date"),
            completion_date: timepoint_date_named(s, ix, order, "completion date"),
        }
    }

    /// The exports of the orders, in their order.
    pub fn records(orders: &Vec<OrderRow>, s: &OrderSources) -> (r: Vec<OrderTaskRecord>)
        ensures
            r.len() == orders.len(),
            forall|i: int| 0 <= i < orders.len() ==> is_order_record(#[trigger] r@[i], orders@[i], *s),
    {
        let ix = OrderTask::indexes(s);
        let mut r: Vec<OrderTaskRecord> = Vec::new();
        let mut i: usize = 0;
        while i < orders.len()
            invariant
                i <= orders.len(),
                r.len() == i,
                indexes_of(ix, *s),
                forall|j: int| 0 <= j < i ==> is_order_record(#[trigger] r@[j], orders@[j], *s),
            decreases orders.len() - i,
        {
            r.push(OrderTask::record(&orders[i], s, &ix));
            i += 1;
        }
        r
    }
}

/// An exported order carries at most one of its four dates: the one named by
/// the timepoint found for the order.
pub proof fn law_one_date_per_order(rec: OrderTaskRecord, order: OrderRow, s: OrderSources)
    requires
        is_order_record(rec, order, s),
    ensures
        rec.approval_date is Some ==> rec.review_date is None && rec.submission_date is None && rec.completion_date is None,
        rec.review_date is Some ==> rec.submission_date is None && rec.completion_date is None,
        rec.submission_date is Some ==> rec.completion_date is None,
{
    reveal_strlit("approval date");
    reveal_strlit("review date");
    reveal_strlit("submission date");
    reveal_strlit("completion date");
    assert("approval date"@.len() != "review date"@.len());
    assert("approval date"@ != "submission date"@) by {
        assert("approval date"@[0] != "submission date"@[0]);
    }
    assert("approval date"@ != "completion date"@) by {
        assert("approval date"@[0] != "completion date"@[0]);
    }
    assert("review date"@.len() != "submission date"@.len());
    assert("review date"@.len() != "completion date"@.len());
    assert("submission date"@ != "completion date"@) by {
        assert("submission date"@[0] != "completion date"@[0]);
    }
}

/// Each copied column of the export is the same-named column of its row.
pub proof fn law_order_record_columns(rec: OrderTaskRecord, order: OrderRow, s: OrderSources)
    requires
        is_order_record(rec, order, s),
    ensures
        rec.id == order.id,
        rec.provider_id == order.provider_id,
        rec.request_id == order.request_id,
        rec.client_id == order.client_id,
        opt_text(rec.obligations) == opt_text(order.obligations),
        rec.state@ == order.state@,
        rec.declined == order.declined,
        rec.order_cancelled == order.order_cancelled,
        rec.request_cancelled == order.request_cancelled,
        opt_text(rec.last_computed_status) == opt_text(order.last_computed_status),
        rec.uuid@ == order.uuid@,
        rec.created_at == order.created_at,
        rec.updated_at == order.updated_at,
{
}

} // verus!
