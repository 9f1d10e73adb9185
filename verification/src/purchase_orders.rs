//! The purchase order report: the submitted customer purchase orders, each
//! with its provider purchase order, currency, provider, supplier, shipping
//! and taxes.
use crate::calendar::{CalendarDate, Timestamp};
use crate::index::{first_some_position, last_position, lemma_last_position, scan_finds, LastIndex};
use crate::invoices::{find_shipping, shipping_keys};
use crate::money::{
    all_exchangable, all_shipable, all_taxable, exchangable_id_list, exchangable_ids,
    shipable_id_list, shipable_ids, taxable_id_list, taxable_ids, CurrencyRow, ShippingRow, TaxRow,
};
use crate::orders::{ids_of_providers, provider_ids, provider_name_by_id, provider_name_lookup};
use crate::providers::ProviderRow;
use crate::rows::{clone_opt_text, date_of, opt_date, opt_text, texts};
use crate::streaming::text_eq;
use crate::text::{bool_text, bool_to_text, join, join_texts};
use vstd::prelude::*;

verus! {

/// A loaded row of the `purchase_orders` table (its prices and commission
/// rate stay with the caller).
pub struct PurchaseOrderRow {
    pub id: i32,
    pub ad_po_number: Option<String>,
    pub po_number: Option<String>,
    pub po_created_at: Option<Timestamp>,
    pub created_at: Option<Timestamp>,
    pub proposal_id: Option<i32>,
    pub provider_id: Option<i32>,
    pub justifications: Vec<String>,
    pub order_id: Option<i32>,
    pub provider_shipping_address_id: Option<i32>,
    pub customer_shipping_address_id: Option<i32>,
    pub cpo_id: Option<i32>,
    pub uuid: Option<String>,
    pub rejected: Option<bool>,
    pub obsoleted: Option<bool>,
    pub type_: Option<String>,
    pub supplier_updated: Option<bool>,
    pub updated_at: Option<Timestamp>,
    pub user_id: Option<i32>,
    pub payment_terms: Option<i32>,
    pub request_id: Option<i32>,
    /// The status that the purchase order model gives.
    pub status: Option<String>,
}

/// A loaded row of the `action_items` table.
pub struct ActionItemRow {
    pub order_id: Option<i32>,
    pub provider_id: Option<String>,
}

/// A row of the purchase order report. The caller adds the prices, computed
/// from the currency, shippings and taxes found here.
pub struct PurchaseOrderTaskRecord {
    pub id: i32,
    pub ad_po_number: Option<String>,
    pub po_number: Option<String>,
    pub po_created_at: Option<Timestamp>,
    pub po_submission_date: Option<CalendarDate>,
    pub status: Option<String>,
    pub created_at: Option<Timestamp>,
    pub proposal_id: Option<i32>,
    pub provider_id: Option<i32>,
    pub provider_name: Option<String>,
    pub supplier_id: Option<String>,
    pub justifications: String,
    pub currency: Option<String>,
    pub order_id: Option<i32>,
    pub provider_shipping_address_id: Option<i32>,
    pub customer_shipping_address_id: Option<i32>,
    pub cpo_id: Option<i32>,
    pub uuid: Option<String>,
    pub rejected: Option<String>,
    pub obsoleted: Option<String>,
    pub type_: Option<String>,
    pub supplier_updated: Option<bool>,
    pub updated_at: Option<Timestamp>,
    pub user_id: Option<i32>,
    pub payment_terms: Option<i32>,
    pub request_id: Option<i32>,
    /// The position of the purchase order's currency.
    pub currency_position: Option<usize>,
    /// The position of the purchase order's own shipping.
    pub shipping: usize,
    /// The position of the shipping of the purchase order's proposal.
    pub proposal_shipping: Option<usize>,
    /// The position of the purchase order's tax.
    pub tax: Option<usize>,
    /// The position of the retail tax of the purchase order's proposal.
    pub proposal_tax: Option<usize>,
}

/// The rows that the report reads besides the purchase orders.
pub struct PurchaseOrderSources {
    /// The provider purchase orders of the customer purchase orders.
    pub provider_purchase_orders: Vec<PurchaseOrderRow>,
    pub currencies: Vec<CurrencyRow>,
    pub providers: Vec<ProviderRow>,
    pub action_items: Vec<ActionItemRow>,
    pub shippings: Vec<ShippingRow>,
    pub taxes: Vec<TaxRow>,
    pub proposal_taxes: Vec<TaxRow>,
    pub proposal_shippings: Vec<ShippingRow>,
}

/// The customer purchase order of each provider purchase order (0 for none).
pub open spec fn cpo_ids(v: Seq<PurchaseOrderRow>) -> Seq<i32> {
    v.map_values(|p: PurchaseOrderRow| p.cpo_id.unwrap_or(0))
}

/// The order of each action item.
pub open spec fn action_item_keys(v: Seq<ActionItemRow>) -> Seq<Option<i32>> {
    v.map_values(|a: ActionItemRow| a.order_id)
}

/// The sources can be read: every provider purchase order names its customer
/// purchase order, and every currency, tax, proposal shipping and action item
/// names what it belongs to.
pub open spec fn readable(s: PurchaseOrderSources) -> bool {
    &&& forall|i: int| 0 <= i < s.provider_purchase_orders@.len() ==> (#[trigger] s.provider_purchase_orders@[i]).cpo_id is Some
    &&& all_exchangable(s.currencies@)
    &&& all_taxable(s.taxes@)
    &&& all_taxable(s.proposal_taxes@)
    &&& all_shipable(s.proposal_shippings@)
    &&& forall|i: int| 0 <= i < s.action_items@.len() ==> (#[trigger] s.action_items@[i]).order_id is Some
}

/// The purchase orders of the report: those with a number and a creation time.
pub open spec fn reported(v: Seq<PurchaseOrderRow>) -> Seq<PurchaseOrderRow>
    decreases v.len(),
{
    if v.len() == 0 {
        seq![]
    } else if v.last().po_number is Some && v.last().po_created_at is Some {
        reported(v.drop_last()).push(v.last())
    } else {
        reported(v.drop_last())
    }
}

/// The position of the last currency of the purchase order.
pub open spec fn po_currency(s: PurchaseOrderSources, po: PurchaseOrderRow) -> Option<int> {
    last_position(exchangable_ids(s.currencies@), po.id)
}

/// A purchase order can be reported: it has a uuid and its rejected and
/// obsoleted flags, a shipping of its own, and its currency, if any, has a name.
pub open spec fn reportable(s: PurchaseOrderSources, po: PurchaseOrderRow) -> bool {
    &&& po.uuid is Some
    &&& po.rejected is Some
    &&& po.obsoleted is Some
    &&& scan_finds(shipping_keys(s.shippings@), po.id)
    &&& po_currency(s, po) matches Some(c) ==> s.currencies@[c].currency is Some
}

/// The position of the first action item of the purchase order's order
/// (both without an order counts too).
pub open spec fn first_action_item(items: Seq<Option<i32>>, order_id: Option<i32>) -> Option<int>
    decreases items.len(),
{
    if items.len() == 0 {
        None
    } else {
        match first_action_item(items.drop_last(), order_id) {
            Some(p) => Some(p),
            None => if items.last() == order_id {
                Some(items.len() - 1)
            } else {
                None
            },
        }
    }
}

/// `rec` is the report row of `po` joined with the rows of `s`.
pub open spec fn is_po_record(rec: PurchaseOrderTaskRecord, po: PurchaseOrderRow, s: PurchaseOrderSources) -> bool {
    let ppo = last_position(cpo_ids(s.provider_purchase_orders@), po.id);
    let supplier = first_action_item(action_item_keys(s.action_items@), po.order_id);
    let ptax = last_position(taxable_ids(s.proposal_taxes@), po.proposal_id.unwrap_or(0));
    &&& rec.id == po.id
    &&& opt_text(rec.ad_po_number) == match ppo {
        Some(p) => opt_text(s.provider_purchase_orders@[p].ad_po_number),
        None => opt_text(po.ad_po_number),
    }
    &&& opt_text(rec.po_number) == opt_text(po.po_number)
    &&& rec.po_created_at == po.po_created_at
    &&& rec.po_submission_date == opt_date(po.po_created_at)
    &&& opt_text(rec.status) == opt_text(po.status)
    &&& rec.created_at == po.created_at
    &&& rec.proposal_id == po.proposal_id
    &&& rec.provider_id == po.provider_id
    &&& opt_text(rec.provider_name) == provider_name_by_id(s.providers@, po.provider_id)
    &&& opt_text(rec.supplier_id) == match supplier {
        Some(a) => opt_text(s.action_items@[a].provider_id),
        None => None,
    }
    &&& rec.justifications@ == join(texts(po.justifications@), ", "@)
    &&& opt_text(rec.currency) == match po_currency(s, po) {
        Some(c) => opt_text(s.currencies@[c].currency),
        None => None,
    }
    &&& rec.order_id == po.order_id
    &&& rec.provider_shipping_address_id == po.provider_shipping_address_id
    &&& rec.customer_shipping_address_id == po.customer_shipping_address_id
    &&& rec.cpo_id == po.cpo_id
    &&& opt_text(rec.uuid) == opt_text(po.uuid)
    &&& opt_text(rec.rejected) == Some(bool_text(po.rejected->0))
    &&& opt_text(rec.obsoleted) == Some(bool_text(po.obsoleted->0))
    &&& opt_text(rec.type_) == opt_text(po.type_)
    &&& rec.supplier_updated == po.supplier_updated
    &&& rec.updated_at == po.updated_at
    &&& rec.user_id == po.user_id
    &&& rec.payment_terms == po.payment_terms
    &&& rec.request_id == po.request_id
    &&& (rec.currency_position matches Some(c) ==> po_currency(s, po) == Some(c as int))
    &&& (rec.currency_position is None ==> po_currency(s, po) is None)
    &&& rec.shipping == first_some_position(shipping_keys(s.shippings@), po.id)->0
    &&& (rec.proposal_shipping matches Some(p) ==> last_position(shipable_ids(s.proposal_shippings@), po.proposal_id.unwrap_or(0)) == Some(p as int))
    &&& (rec.proposal_shipping is None ==> last_position(shipable_ids(s.proposal_shippings@), po.proposal_id.unwrap_or(0)) is None)
    &&& (rec.tax matches Some(t) ==> last_position(taxable_ids(s.taxes@), po.id) == Some(t as int))
    &&& (rec.tax is None ==> last_position(taxable_ids(s.taxes@), po.id) is None)
    &&& rec.proposal_tax == match ptax {
        Some(t) => if opt_text(s.proposal_taxes@[t].type_) == Some("Pg::RetailTax"@) {
            Some(t as usize)
        } else {
            None
        },
        None => None,
    }
}

/// The indexes of the sources.
pub struct PurchaseOrderIndexes {
    pub provider_purchase_orders: LastIndex,
    pub currencies: LastIndex,
    pub providers: LastIndex,
    pub taxes: LastIndex,
    pub proposal_taxes: LastIndex,
    pub proposal_shippings: LastIndex,
}

/// Each index finds the last row of its source by what the row belongs to.
pub open spec fn indexes_of(ix: PurchaseOrderIndexes, s: PurchaseOrderSources) -> bool {
    &&& ix.provider_purchase_orders.wf() && ix.provider_purchase_orders.ids() == cpo_ids(s.provider_purchase_orders@)
    &&& ix.currencies.wf() && ix.currencies.ids() == exchangable_ids(s.currencies@)
    &&& ix.providers.wf() && ix.providers.ids() == provider_ids(s.providers@)
    &&& ix.taxes.wf() && ix.taxes.ids() == taxable_ids(s.taxes@)
    &&& ix.proposal_taxes.wf() && ix.proposal_taxes.ids() == taxable_ids(s.proposal_taxes@)
    &&& ix.proposal_shippings.wf() && ix.proposal_shippings.ids() == shipable_ids(s.proposal_shippings@)
}

fn cpo_id_list(v: &Vec<PurchaseOrderRow>) -> (r: Vec<i32>)
    requires
        forall|i: int| 0 <= i < v@.len() ==> (#[trigger] v@[i]).cpo_id is Some,
    ensures
        r@ == cpo_ids(v@),
{
    let mut r: Vec<i32> = Vec::new();
    let mut i: usize = 0;
    while i < v.len()
        invariant
            i <= v.len(),
            forall|j: int| 0 <= j < v@.len() ==> (#[trigger] v@[j]).cpo_id is Some,
            r@ == cpo_ids(v@.take(i as int)),
        decreases v.len() - i,
    {
        r.push(v[i].cpo_id.unwrap());
        i += 1;
        assert(cpo_ids(v@.take(i as int)) =~= cpo_ids(v@.take(i - 1)).push(v@[i - 1].cpo_id.unwrap_or(0)));
    }
    assert(v@.take(v.len() as int) =~= v@);
    r
}

fn find_action_item(v: &Vec<ActionItemRow>, order_id: Option<i32>) -> (r: Option<usize>)
    ensures
        r matches Some(p) ==> first_action_item(action_item_keys(v@), order_id) == Some(p as int) && p < v.len(),
        r is None ==> first_action_item(action_item_keys(v@), order_id) is None,
{
    let ghost keys = action_item_keys(v@);
    let mut i: usize = 0;
    while i < v.len()
        invariant
            i <= v.len(),
            keys == action_item_keys(v@),
            first_action_item(keys.take(i as int), order_id) is None,
        decreases v.len() - i,
    {
        assert(keys.take(i + 1).drop_last() =~= keys.take(i as int));
        assert(keys.take(i + 1).last() == v@[i as int].order_id);
        if v[i].order_id == order_id {
            proof {
                lemma_action_prefix(keys, i as int + 1, order_id);
            }
            return Some(i);
        }
        i += 1;
    }
    assert(keys.take(v.len() as int) =~= keys);
    None
}

proof fn lemma_action_prefix(keys: Seq<Option<i32>>, n: int, k: Option<i32>)
    requires
        0 <= n <= keys.len(),
        first_action_item(keys.take(n), k) is Some,
    ensures
        first_action_item(keys, k) == first_action_item(keys.take(n), k),
    decreases keys.len() - n,
{
    if n < keys.len() {
        assert(keys.take(n + 1).drop_last() =~= keys.take(n));
        lemma_action_prefix(keys, n + 1, k);
    } else {
        assert(keys.take(n) =~= keys);
    }
}

/// The task that builds the purchase order report.
pub struct PurchaseOrderTask {}

impl PurchaseOrderTask {
    /// Indexes the sources.
    pub fn indexes(s: &PurchaseOrderSources) -> (ix: PurchaseOrderIndexes)
        requires
            readable(*s),
        ensures
            indexes_of(ix, *s),
    {
        PurchaseOrderIndexes {
            provider_purchase_orders: LastIndex::new(&cpo_id_list(&s.provider_purchase_orders)),
            currencies: LastIndex::new(&exchangable_id_list(&s.currencies)),
            providers: LastIndex::new(&ids_of_providers(&s.providers)),
            taxes: LastIndex::new(&taxable_id_list(&s.taxes)),
            proposal_taxes: LastIndex::new(&taxable_id_list(&s.proposal_taxes)),
            proposal_shippings: LastIndex::new(&shipable_id_list(&s.proposal_shippings)),
        }
    }

    /// The report row of one purchase order joined with the sources.
    pub fn record(po: &PurchaseOrderRow, s: &PurchaseOrderSources, ix: &PurchaseOrderIndexes) -> (r: PurchaseOrderTaskRecord)
        requires
            indexes_of(*ix, *s),
            reportable(*s, *po),
        ensures
            is_po_record(r, *po, *s),
    {
        let ppo = ix.provider_purchase_orders.get(po.id);
        proof {
            lemma_last_position(cpo_ids(s.provider_purchase_orders@), po.id);
            lemma_last_position(exchangable_ids(s.currencies@), po.id);
            lemma_last_position(taxable_ids(s.proposal_taxes@), po.proposal_id.unwrap_or(0));
        }
        let ad_po_number = match ppo {
            Some(p) => clone_opt_text(&s.provider_purchase_orders[p].ad_po_number),
            None => clone_opt_text(&po.ad_po_number),
        };
        let currency_position = ix.currencies.get(po.id);
        let currency = match currency_position {
            Some(c) => Some(s.currencies[c].currency.as_ref().unwrap().clone()),
            None => None,
        };
        let proposal_key = match po.proposal_id {
            Some(k) => k,
            None => 0,
        };
        let shipping = find_shipping(&s.shippings, po.id);
        let proposal_shipping = ix.proposal_shippings.get(proposal_key);
        let provider_name = provider_name_lookup(&s.providers, &ix.providers, po.provider_id);
        let supplier_id = match find_action_item(&s.action_items, po.order_id) {
            Some(a) => clone_opt_text(&s.action_items[a].provider_id),
            None => None,
        };
        let tax = ix.taxes.get(po.id);
        let proposal_tax = match ix.proposal_taxes.get(proposal_key) {
            Some(t) => {
                let retail = match &s.proposal_taxes[t].type_ {
                    Some(ty) => text_eq(ty.as_str(), "Pg::RetailTax"),
                    None => false,
                };
                if retail {
                    Some(t)
                } else {
                    None
                }
            },
            None => None,
        };
        PurchaseOrderTaskRecord {
            id: po.id,
            ad_po_number,
            po_number: clone_opt_text(&po.po_number),
            po_created_at: po.po_created_at,
            po_submission_date: date_of(po.po_created_at),
            status: clone_opt_text(&po.status),
            created_at: po.created_at,
            proposal_id: po.proposal_id,
            provider_id: po.provider_id,
            provider_name,
            supplier_id,
            justifications: join_texts(&po.justifications, ", "),
            currency,
            order_id: po.order_id,
            provider_shipping_address_id: po.provider_shipping_address_id,
            customer_shipping_address_id: po.customer_shipping_address_id,
            cpo_id: po.cpo_id,
            uuid: clone_opt_text(&po.uuid),
            rejected: Some(bool_to_text(po.rejected.unwrap())),
            obsoleted: Some(bool_to_text(po.obsoleted.unwrap())),
            type_: clone_opt_text(&po.type_),
            supplier_updated: po.supplier_updated,
            updated_at: po.updated_at,
            user_id: po.user_id,
            payment_terms: po.payment_terms,
            request_id: po.request_id,
            currency_position,
            shipping,
            proposal_shipping,
            tax,
            proposal_tax,
        }
    }

    /// The report rows of the purchase orders with a number and a creation
    /// time, in their order.
    pub fn records(purchase_orders: &Vec<PurchaseOrderRow>, s: &PurchaseOrderSources) -> (r: Vec<PurchaseOrderTaskRecord>)
        requires
            readable(*s),
            forall|i: int| 0 <= i < reported(purchase_orders@).len() ==> reportable(*s, #[trigger] reported(purchase_orders@)[i]),
        ensures
            r.len() == reported(purchase_orders@).len(),
            forall|i: int| 0 <= i < r.len() ==> is_po_record(#[trigger] r@[i], reported(purchase_orders@)[i], *s),
    {
        let ix = PurchaseOrderTask::indexes(s);
        let mut r: Vec<PurchaseOrderTaskRecord> = Vec::new();
        let mut i: usize = 0;
        while i < purchase_orders.len()
            invariant
                i <= purchase_orders.len(),
                indexes_of(ix, *s),
                forall|j: int| 0 <= j < reported(purchase_orders@).len() ==> reportable(*s, #[trigger] reported(purchase_orders@)[j]),
                r.len() == reported(purchase_orders@.take(i as int)).len(),
                forall|j: int| 0 <= j < r.len() ==> is_po_record(#[trigger] r@[j], reported(purchase_orders@.take(i as int))[j], *s),
            decreases purchase_orders.len() - i,
        {
            assert(purchase_orders@.take(i + 1).drop_last() =~= purchase_orders@.take(i as int));
            proof {
                lemma_reported_prefix(purchase_orders@, i as int + 1);
                lemma_reported_prefix(purchase_orders@, i as int);
            }
            let po = &purchase_orders[i];
            if po.po_number.is_some() && po.po_created_at.is_some() {
                proof {
                    let k = reported(purchase_orders@.take(i as int)).len();
                    assert(reported(purchase_orders@.take(i + 1))[k as int] == purchase_orders@[i as int]);
                    assert(reported(purchase_orders@)[k as int] == purchase_orders@[i as int]);
                    assert(reportable(*s, reported(purchase_orders@)[k as int]));
                }
                r.push(PurchaseOrderTask::record(po, s, &ix));
            }
            i += 1;
        }
        assert(purchase_orders@.take(purchase_orders.len() as int) =~= purchase_orders@);
        r
    }
}

/// The report rows of a prefix of the purchase orders are a prefix of the report.
proof fn lemma_reported_prefix(v: Seq<PurchaseOrderRow>, n: int)
    requires
        0 <= n <= v.len(),
    ensures
        reported(v.take(n)).len() <= reported(v).len(),
        forall|j: int| 0 <= j < reported(v.take(n)).len() ==> reported(v.take(n))[j] == reported(v)[j],
    decreases v.len() - n,
{
    if n < v.len() {
        lemma_reported_prefix(v, n + 1);
        assert(v.take(n + 1).drop_last() =~= v.take(n));
    } else {
        assert(v.take(n) =~= v);
    }
}

/// Every reported purchase order has a number and a creation time.
pub proof fn law_reported_have_number_and_time(v: Seq<PurchaseOrderRow>, i: int)
    requires
        0 <= i < reported(v).len(),
    ensures
        reported(v)[i].po_number is Some,
        reported(v)[i].po_created_at is Some,
    decreases v.len(),
{
    if v.len() > 0 {
        let rest = reported(v.drop_last());
        if i < rest.len() {
            law_reported_have_number_and_time(v.drop_last(), i);
        }
    }
}

/// The report keeps exactly the purchase orders that have a number and a
/// creation time, in their order: whether one is reported depends on no other
/// field (not on being rejected or obsoleted), and every such one is reported.
pub proof fn law_report_is_numbered_purchase_orders(v: Seq<PurchaseOrderRow>)
    ensures
        reported(v) == v.filter(|po: PurchaseOrderRow| po.po_number is Some && po.po_created_at is Some),
        forall|i: int|
            0 <= i < v.len() && (#[trigger] v[i]).po_number is Some && v[i].po_created_at is Some
                ==> reported(v).contains(v[i]),
    decreases v.len(),
{
    reveal(Seq::filter);
    if v.len() > 0 {
        law_report_is_numbered_purchase_orders(v.drop_last());
    }
    assert forall|i: int|
        0 <= i < v.len() && (#[trigger] v[i]).po_number is Some && v[i].po_created_at is Some
            implies reported(v).contains(v[i]) by {
        v.lemma_filter_contains(|po: PurchaseOrderRow| po.po_number is Some && po.po_created_at is Some, i);
    }
}

/// Each copied column of the export is the same-named column of its row.
pub proof fn law_po_record_columns(rec: PurchaseOrderTaskRecord, po: PurchaseOrderRow, s: PurchaseOrderSources)
    requires
        is_po_record(rec, po, s),
    ensures
        rec.id == po.id,
        opt_text(rec.po_number) == opt_text(po.po_number),
        rec.po_created_at == po.po_created_at,
        opt_text(rec.status) == opt_text(po.status),
        rec.created_at == po.created_at,
        rec.proposal_id == po.proposal_id,
        rec.provider_id == po.provider_id,
        rec.order_id == po.order_id,
        rec.provider_shipping_address_id == po.provider_shipping_address_id,
        rec.customer_shipping_address_id == po.customer_shipping_address_id,
        rec.cpo_id == po.cpo_id,
        opt_text(rec.uuid) == opt_text(po.uuid),
        opt_text(rec.type_) == opt_text(po.type_),
        rec.supplier_updated == po.supplier_updated,
        rec.updated_at == po.updated_at,
        rec.user_id == po.user_id,
        rec.payment_terms == po.payment_terms,
        rec.request_id == po.request_id,
{
}

} // verus!
