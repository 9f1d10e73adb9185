//! The proposal export: the active proposals of orders, with their currency,
//! turnaround time, tax and provider.
use crate::calendar::{CalendarDate, Timestamp};
use crate::index::{last_position, lemma_last_position, LastIndex};
use crate::money::{
    all_exchangable, all_taxable, exchangable_id_list, exchangable_ids, taxable_id_list,
    taxable_ids, CurrencyRow, TaxRow,
};
use crate::orders::{ids_of_providers, provider_ids, provider_name_by_id, provider_name_lookup};
use crate::providers::ProviderRow;
use crate::rows::{clone_opt_text, date_of, opt_date, opt_text, texts};
use crate::text::{bool_text, bool_to_text, join, join_texts, to_text};
use vstd::prelude::*;

verus! {

/// A loaded row of the `proposals` table (its prices and commission rate
/// stay with the caller).
pub struct ProposalRow {
    pub id: i32,
    pub active: bool,
    pub proposal_type: Option<String>,
    pub exclude: bool,
    pub justifications: Option<Vec<String>>,
    pub user_full_name: Option<String>,
    pub provider_id: Option<i32>,
    pub created_at: Option<Timestamp>,
    pub updated_at: Option<Timestamp>,
    pub tax_category: Option<String>,
    pub order_id: Option<i32>,
    pub type_: Option<String>,
    pub obsoleted: bool,
    pub state: Option<String>,
    pub ware_id: Option<i32>,
    pub user_id: Option<i32>,
    pub uuid: Option<String>,
    pub description: String,
    pub status: Option<String>,
}

/// A loaded row of the `turn_around_times` table, its bounds in whole units.
pub struct TurnAroundTimeRow {
    pub turnaroundable_id: Option<i32>,
    pub min: Option<i64>,
    pub max: Option<i64>,
    pub display_units: Option<String>,
}

/// An exported proposal. The caller adds the prices, which it computes from
/// the currency and the tax found here: the tax is taken off the total price
/// only when `tax_deducted` holds.
pub struct ProposalsRecordPage {
    pub id: i32,
    pub active: String,
    pub proposal_type: Option<String>,
    pub exclude: String,
    pub justifications: String,
    pub user_full_name: Option<String>,
    pub provider_id: Option<i32>,
    pub provider_name: Option<String>,
    pub created_at: Option<Timestamp>,
    pub created_on: Option<CalendarDate>,
    pub updated_at: Option<Timestamp>,
    pub currency_name: String,
    pub min_turnaround_time: Option<i64>,
    pub max_turnaround_time: Option<i64>,
    pub display_units: Option<String>,
    pub tax_category: Option<String>,
    pub order_id: Option<i32>,
    pub type_: Option<String>,
    pub obsoleted: String,
    pub state: Option<String>,
    pub ware_id: Option<i32>,
    pub user_id: Option<i32>,
    pub uuid: Option<String>,
    pub description: String,
    pub status: Option<String>,
    /// The position of the proposal's currency among the currencies.
    pub currency: Option<usize>,
    /// The position of the proposal's tax among the taxes.
    pub tax: Option<usize>,
    /// Whether the tax is taken off the total price.
    pub tax_deducted: bool,
}

/// The rows that a proposal export reads besides the proposals.
pub struct ProposalSources {
    pub currencies: Vec<CurrencyRow>,
    pub turn_around_times: Vec<TurnAroundTimeRow>,
    pub taxes: Vec<TaxRow>,
    pub providers: Vec<ProviderRow>,
}

/// What each turnaround time belongs to (0 for none).
pub open spec fn turnaroundable_ids(v: Seq<TurnAroundTimeRow>) -> Seq<i32> {
    v.map_values(|t: TurnAroundTimeRow| t.turnaroundable_id.unwrap_or(0))
}

/// Every turnaround time names what it belongs to.
pub open spec fn all_turnaroundable(v: Seq<TurnAroundTimeRow>) -> bool {
    forall|i: int| 0 <= i < v.len() ==> (#[trigger] v[i]).turnaroundable_id is Some
}

/// The proposals that are exported: the active ones that belong to an order.
pub open spec fn exported_proposals(v: Seq<ProposalRow>) -> Seq<ProposalRow>
    decreases v.len(),
{
    if v.len() == 0 {
        seq![]
    } else if v.last().active && v.last().order_id is Some {
        exported_proposals(v.drop_last()).push(v.last())
    } else {
        exported_proposals(v.drop_last())
    }
}

/// The time after which the tax is taken off a proposal's price: 2018-06-01 00:00:00.
pub open spec fn tax_date() -> Timestamp {
    Timestamp::start_of_day(CalendarDate { year: 2018, month: 6, day: 1 })
}

/// The position of the last currency of the proposal.
pub open spec fn proposal_currency(s: ProposalSources, p: ProposalRow) -> Option<int> {
    last_position(exchangable_ids(s.currencies@), p.id)
}

/// The position of the last turnaround time of the proposal.
pub open spec fn proposal_turnaround(s: ProposalSources, p: ProposalRow) -> Option<int> {
    last_position(turnaroundable_ids(s.turn_around_times@), p.id)
}

/// The currency name of a proposal: that of its currency, `USD` without one.
pub open spec fn currency_name(s: ProposalSources, p: ProposalRow) -> Seq<char> {
    match proposal_currency(s, p) {
        Some(i) => s.currencies@[i].currency->0@,
        None => "USD"@,
    }
}

/// The sources can be joined: every currency, turnaround time and tax names
/// what it belongs to.
pub open spec fn joinable(s: ProposalSources) -> bool {
    &&& all_exchangable(s.currencies@)
    &&& all_turnaroundable(s.turn_around_times@)
    &&& all_taxable(s.taxes@)
}

/// A proposal can be exported: it has its justifications and a uuid, and its
/// currency, if any, has a name.
pub open spec fn exportable_proposal(s: ProposalSources, p: ProposalRow) -> bool {
    &&& p.justifications is Some
    &&& p.uuid is Some
    &&& proposal_currency(s, p) matches Some(i) ==> s.currencies@[i].currency is Some
}

/// `rec` is the export of `p` joined with the rows of `s`.
pub open spec fn is_proposal_record(rec: ProposalsRecordPage, p: ProposalRow, s: ProposalSources) -> bool {
    let tat = proposal_turnaround(s, p);
    &&& rec.id == p.id
    &&& rec.active@ == bool_text(p.active)
    &&& opt_text(rec.proposal_type) == opt_text(p.proposal_type)
    &&& rec.exclude@ == bool_text(p.exclude)
    &&& rec.justifications@ == join(texts(p.justifications->0@), ", "@)
    &&& opt_text(rec.user_full_name) == opt_text(p.user_full_name)
    &&& rec.provider_id == p.provider_id
    &&& opt_text(rec.provider_name) == provider_name_by_id(s.providers@, p.provider_id)
    &&& rec.created_at == p.created_at
    &&& rec.created_on == opt_date(p.created_at)
    &&& rec.updated_at == p.updated_at
    &&& rec.currency_name@ == currency_name(s, p)
    &&& rec.min_turnaround_time == match tat {
        Some(i) => s.turn_around_times@[i].min,
        None => Some(0i64),
    }
    &&& rec.max_turnaround_time == match tat {
        Some(i) => s.turn_around_times@[i].max,
        None => Some(0i64),
    }
    &&& opt_text(rec.display_units) == match tat {
        Some(i) => opt_text(s.turn_around_times@[i].display_units),
        None => Some("None"@),
    }
    &&& opt_text(rec.tax_category) == opt_text(p.tax_category)
    &&& rec.order_id == p.order_id
    &&& opt_text(rec.type_) == opt_text(p.type_)
    &&& rec.obsoleted@ == bool_text(p.obsoleted)
    &&& opt_text(rec.state) == opt_text(p.state)
    &&& rec.ware_id == p.ware_id
    &&& rec.user_id == p.user_id
    &&& opt_text(rec.uuid) == opt_text(p.uuid)
    &&& rec.description@ == p.description@
    &&& opt_text(rec.status) == opt_text(p.status)
    &&& (rec.currency matches Some(i) ==> proposal_currency(s, p) == Some(i as int))
    &&& (rec.currency is None ==> proposal_currency(s, p) is None)
    &&& (rec.tax matches Some(i) ==> last_position(taxable_ids(s.taxes@), p.id) == Some(i as int))
    &&& (rec.tax is None ==> last_position(taxable_ids(s.taxes@), p.id) is None)
    &&& rec.tax_deducted == (p.created_at matches Some(t) && t.after(tax_date()))
}

/// The indexes of the sources.
pub struct ProposalIndexes {
    pub currencies: LastIndex,
    pub turn_around_times: LastIndex,
    pub taxes: LastIndex,
    pub providers: LastIndex,
}

/// Each index finds the last row of its source by what the row belongs to.
pub open spec fn indexes_of(ix: ProposalIndexes, s: ProposalSources) -> bool {
    &&& ix.currencies.wf() && ix.currencies.ids() == exchangable_ids(s.currencies@)
    &&& ix.turn_around_times.wf() && ix.turn_around_times.ids() == turnaroundable_ids(s.turn_around_times@)
    &&& ix.taxes.wf() && ix.taxes.ids() == taxable_ids(s.taxes@)
    &&& ix.providers.wf() && ix.providers.ids() == provider_ids(s.providers@)
}

fn turnaroundable_id_list(v: &Vec<TurnAroundTimeRow>) -> (r: Vec<i32>)
    requires
        all_turnaroundable(v@),
    ensures
        r@ == turnaroundable_ids(v@),
{
    let mut r: Vec<i32> = Vec::new();
    let mut i: usize = 0;
    while i < v.len()
        invariant
            i <= v.len(),
            all_turnaroundable(v@),
            r@ == turnaroundable_ids(v@.take(i as int)),
        decreases v.len() - i,
    {
        r.push(v[i].turnaroundable_id.unwrap());
        i += 1;
        assert(turnaroundable_ids(v@.take(i as int)) =~= turnaroundable_ids(v@.take(i - 1)).push(
            v@[i - 1].turnaroundable_id.unwrap_or(0),
        ));
    }
    assert(v@.take(v.len() as int) =~= v@);
    r
}

/// The task that exports the proposals.
pub struct ProposalPageTask {}

impl ProposalPageTask {
    /// Indexes the sources.
    pub fn indexes(s: &ProposalSources) -> (ix: ProposalIndexes)
        requires
            joinable(*s),
        ensures
            indexes_of(ix, *s),
    {
        ProposalIndexes {
            currencies: LastIndex::new(&exchangable_id_list(&s.currencies)),
            turn_around_times: LastIndex::new(&turnaroundable_id_list(&s.turn_around_times)),
            taxes: LastIndex::new(&taxable_id_list(&s.taxes)),
            providers: LastIndex::new(&ids_of_providers(&s.providers)),
        }
    }

    /// The export of one proposal joined with the sources.
    pub fn record(p: &ProposalRow, s: &ProposalSources, ix: &ProposalIndexes) -> (r: ProposalsRecordPage)
        requires
            indexes_of(*ix, *s),
            exportable_proposal(*s, *p),
        ensures
            is_proposal_record(r, *p, *s),
    {
        let currency = ix.currencies.get(p.id);
        proof {
            lemma_last_position(exchangable_ids(s.currencies@), p.id);
            lemma_last_position(turnaroundable_ids(s.turn_around_times@), p.id);
        }
        let currency_name = match currency {
            Some(i) => s.currencies[i].currency.as_ref().unwrap().clone(),
            None => to_text("USD"),
        };
        let tax = ix.taxes.get(p.id);
        let tax_date = match CalendarDate::from_ymd_opt(2018, 6, 1) {
            Some(d) => Timestamp::start_of_day_of(d),
            None => {
                assert(false);
                Timestamp::start_of_day_of(CalendarDate { year: 2018, month: 6, day: 1 })
            },
        };
        let tax_deducted = match &p.created_at {
            Some(t) => t.is_after(&tax_date),
            None => false,
        };
        let provider_name = provider_name_lookup(&s.providers, &ix.providers, p.provider_id);
        let turn_around_time = ix.turn_around_times.get(p.id);
        let (min_turnaround_time, max_turnaround_time, display_units) = match turn_around_time {
            Some(i) => (
                s.turn_around_times[i].min,
                s.turn_around_times[i].max,
                clone_opt_text(&s.turn_around_times[i].display_units),
            ),
            None => (Some(0i64), Some(0i64), Some(to_text("None"))),
        };
        ProposalsRecordPage {
            id: p.id,
            active: bool_to_text(p.active),
            proposal_type: clone_opt_text(&p.proposal_type),
            exclude: bool_to_text(p.exclude),
            justifications: join_texts(p.justifications.as_ref().unwrap(), ", "),
            user_full_name: clone_opt_text(&p.user_full_name),
            provider_id: p.provider_id,
            provider_name,
            created_at: p.created_at,
            created_on: date_of(p.created_at),
            updated_at: p.updated_at,
            currency_name,
            min_turnaround_time,
            max_turnaround_time,
            display_units,
            tax_category: clone_opt_text(&p.tax_category),
            order_id: p.order_id,
            type_: clone_opt_text(&p.type_),
            obsoleted: bool_to_text(p.obsoleted),
            state: clone_opt_text(&p.state),
            ware_id: p.ware_id,
            user_id: p.user_id,
            uuid: clone_opt_text(&p.uuid),
            description: p.description.clone(),
            status: clone_opt_text(&p.status),
            currency,
            tax,
            tax_deducted,
        }
    }

    /// The exports of the active proposals of orders, in their order.
    pub fn records(proposals: &Vec<ProposalRow>, s: &ProposalSources) -> (r: Vec<ProposalsRecordPage>)
        requires
            joinable(*s),
            forall|i: int| 0 <= i < exported_proposals(proposals@).len() ==> exportable_proposal(*s, #[trigger] exported_proposals(proposals@)[i]),
        ensures
            r.len() == exported_proposals(proposals@).len(),
            forall|i: int| 0 <= i < r.len() ==> is_proposal_record(#[trigger] r@[i], exported_proposals(proposals@)[i], *s),
    {
        let ix = ProposalPageTask::indexes(s);
        let mut r: Vec<ProposalsRecordPage> = Vec::new();
        let mut i: usize = 0;
        while i < proposals.len()
            invariant
                i <= proposals.len(),
                indexes_of(ix, *s),
                forall|j: int| 0 <= j < exported_proposals(proposals@).len() ==> exportable_proposal(*s, #[trigger] exported_proposals(proposals@)[j]),
                r.len() == exported_proposals(proposals@.take(i as int)).len(),
                forall|j: int| 0 <= j < r.len() ==> is_proposal_record(#[trigger] r@[j], exported_proposals(proposals@.take(i as int))[j], *s),
                forall|j: int| 0 <= j < r.len() ==> exported_proposals(proposals@.take(i as int))[j] == exported_proposals(proposals@)[j],
                exported_proposals(proposals@.take(i as int)).len() <= exported_proposals(proposals@).len(),
            decreases proposals.len() - i,
        {
            assert(proposals@.take(i + 1).drop_last() =~= proposals@.take(i as int));
            let p = &proposals[i];
            if p.active && p.order_id.is_some() {
                proof {
                    lemma_exported_prefix(proposals@, i as int + 1);
                    let k = exported_proposals(proposals@.take(i as int)).len();
                    assert(exported_proposals(proposals@.take(i + 1))[k as int] == proposals@[i as int]);
                    assert(exported_proposals(proposals@)[k as int] == proposals@[i as int]);
                    assert(exportable_proposal(*s, exported_proposals(proposals@)[k as int]));
                }
                r.push(ProposalPageTask::record(p, s, &ix));
            }
            proof {
                lemma_exported_prefix(proposals@, i as int + 1);
            }
            i += 1;
        }
        assert(proposals@.take(proposals.len() as int) =~= proposals@);
        r
    }
}

/// The exports of a prefix of the proposals are a prefix of the exports.
proof fn lemma_exported_prefix(v: Seq<ProposalRow>, n: int)
    requires
        0 <= n <= v.len(),
    ensures
        exported_proposals(v.take(n)).len() <= exported_proposals(v).len(),
        forall|j: int| 0 <= j < exported_proposals(v.take(n)).len() ==> exported_proposals(v.take(n))[j] == exported_proposals(v)[j],
    decreases v.len() - n,
{
    if n < v.len() {
        lemma_exported_prefix(v, n + 1);
        assert(v.take(n + 1).drop_last() =~= v.take(n));
    } else {
        assert(v.take(n) =~= v);
    }
}

/// Every exported proposal is active and belongs to an order.
pub proof fn law_exported_proposals_are_active_orders(v: Seq<ProposalRow>, i: int)
    requires
        0 <= i < exported_proposals(v).len(),
    ensures
        exported_proposals(v)[i].active,
        exported_proposals(v)[i].order_id is Some,
    decreases v.len(),
{
    if v.len() > 0 {
        let rest = exported_proposals(v.drop_last());
        if i < rest.len() {
            law_exported_proposals_are_active_orders(v.drop_last(), i);
        }
    }
}

/// The export keeps exactly the proposals that are active and belong to an
/// order, in their order: whether a proposal is exported depends on no other
/// field, and every such proposal is exported.
pub proof fn law_export_is_active_proposals_of_orders(v: Seq<ProposalRow>)
    ensures
        exported_proposals(v) == v.filter(|p: ProposalRow| p.active && p.order_id is Some),
        forall|i: int|
            0 <= i < v.len() && (#[trigger] v[i]).active && v[i].order_id is Some
                ==> exported_proposals(v).contains(v[i]),
    decreases v.len(),
{
    reveal(Seq::filter);
    if v.len() > 0 {
        law_export_is_active_proposals_of_orders(v.drop_last());
    }
    assert forall|i: int|
        0 <= i < v.len() && (#[trigger] v[i]).active && v[i].order_id is Some
            implies exported_proposals(v).contains(v[i]) by {
        v.lemma_filter_contains(|p: ProposalRow| p.active && p.order_id is Some, i);
    }
}

/// Each copied column of the export is the same-named column of its row,
/// and each flag is written as `true` or `false`.
pub proof fn law_proposal_record_columns(rec: ProposalsRecordPage, p: ProposalRow, s: ProposalSources)
    requires
        is_proposal_record(rec, p, s),
    ensures
        rec.id == p.id,
        rec.active@ == bool_text(p.active),
        opt_text(rec.proposal_type) == opt_text(p.proposal_type),
        rec.exclude@ == bool_text(p.exclude),
        opt_text(rec.user_full_name) == opt_text(p.user_full_name),
        rec.provider_id == p.provider_id,
        rec.created_at == p.created_at,
        rec.updated_at == p.updated_at,
        opt_text(rec.tax_category) == opt_text(p.tax_category),
        rec.order_id == p.order_id,
        opt_text(rec.type_) == opt_text(p.type_),
        rec.obsoleted@ == bool_text(p.obsoleted),
        opt_text(rec.state) == opt_text(p.state),
        rec.ware_id == p.ware_id,
        rec.user_id == p.user_id,
        opt_text(rec.uuid) == opt_text(p.uuid),
        rec.description@ == p.description@,
        opt_text(rec.status) == opt_text(p.status),
{
}

} // verus!
