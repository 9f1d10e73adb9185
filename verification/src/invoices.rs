//! The invoice export: an invoice with its currency and its shipping.
use crate::calendar::{CalendarDate, Timestamp};
use crate::index::{first_some_position, lemma_first_some_unique, scan_finds};
use crate::money::{all_exchangable, all_taxable, CurrencyRow, ShippingRow, TaxRow};
use crate::rows::{clone_opt_text, date_of, opt_date, opt_text};
use crate::streaming::text_eq;
use crate::text::{bool_text, bool_to_text, to_text};
use vstd::prelude::*;

verus! {

/// A loaded row of the `invoices` table (its prices stay with the caller).
pub struct InvoiceRow {
    pub id: i32,
    pub invoice_number: Option<String>,
    pub issued_at: Option<Timestamp>,
    pub purchase_order_id: Option<i32>,
    pub created_at: Option<Timestamp>,
    pub document_type: String,
    pub provider_id: Option<i32>,
    pub order_id: Option<i32>,
    pub cancelled: bool,
    pub uuid: Option<String>,
    pub approved_for_payment: Option<bool>,
    pub discount: Option<String>,
}

/// An exported invoice. The caller adds the prices, computed from the
/// currency and the shipping found here; the prices of an invoice that is not
/// a `standard` document count negative.
pub struct InvoiceRecord {
    pub id: i32,
    pub invoice_number: Option<String>,
    pub issued_at: Option<Timestamp>,
    pub purchase_order_id: Option<i32>,
    pub created_at: Option<Timestamp>,
    pub created_on: Option<CalendarDate>,
    pub currency_name: String,
    pub document_type: String,
    pub provider_id: Option<i32>,
    pub order_id: Option<i32>,
    pub cancelled: String,
    pub uuid: Option<String>,
    pub approved_for_payment: Option<bool>,
    pub discount: Option<String>,
    /// Whether the invoice is a `standard` document.
    pub standard: bool,
    /// The position of the invoice's currency among the currencies.
    pub currency: usize,
    /// The position of the invoice's shipping among the shippings.
    pub shipping: usize,
}

/// The rows that an invoice export reads besides the invoices.
pub struct InvoiceSources {
    pub currencies: Vec<CurrencyRow>,
    pub taxes: Vec<TaxRow>,
    pub shippings: Vec<ShippingRow>,
}

/// What each currency belongs to.
pub open spec fn currency_keys(v: Seq<CurrencyRow>) -> Seq<Option<i32>> {
    v.map_values(|c: CurrencyRow| c.exchangable_id)
}

/// What each shipping belongs to.
pub open spec fn shipping_keys(v: Seq<ShippingRow>) -> Seq<Option<i32>> {
    v.map_values(|s: ShippingRow| s.shipable_id)
}

/// An invoice can be exported: it has a uuid, a currency and a shipping, and
/// the shippings before its shipping all name what they belong to.
pub open spec fn exportable_invoice(s: InvoiceSources, i: InvoiceRow) -> bool {
    &&& i.uuid is Some
    &&& scan_finds(currency_keys(s.currencies@), i.id)
    &&& scan_finds(shipping_keys(s.shippings@), i.id)
}

/// The sources can be read: every currency and every tax names what it belongs to.
pub open spec fn readable(s: InvoiceSources) -> bool {
    all_exchangable(s.currencies@) && all_taxable(s.taxes@)
}

/// `rec` is the export of `i` joined with the rows of `s`.
pub open spec fn is_invoice_record(rec: InvoiceRecord, i: InvoiceRow, s: InvoiceSources) -> bool {
    let c = first_some_position(currency_keys(s.currencies@), i.id)->0;
    &&& rec.id == i.id
    &&& opt_text(rec.invoice_number) == opt_text(i.invoice_number)
    &&& rec.issued_at == i.issued_at
    &&& rec.purchase_order_id == i.purchase_order_id
    &&& rec.created_at == i.created_at
    &&& rec.created_on == opt_date(i.created_at)
    &&& rec.currency_name@ == match s.currencies@[c].currency {
        Some(n) => n@,
        None => "USD"@,
    }
    &&& rec.document_type@ == i.document_type@
    &&& rec.provider_id == i.provider_id
    &&& rec.order_id == i.order_id
    &&& rec.cancelled@ == bool_text(i.cancelled)
    &&& opt_text(rec.uuid) == opt_text(i.uuid)
    &&& rec.approved_for_payment == i.approved_for_payment
    &&& opt_text(rec.discount) == opt_text(i.discount)
    &&& rec.standard == (i.document_type@ == "standard"@)
    &&& rec.currency == c
    &&& rec.shipping == first_some_position(shipping_keys(s.shippings@), i.id)->0
}

/// The position of the first currency that belongs to the invoice `id`.
pub fn find_currency(v: &Vec<CurrencyRow>, id: i32) -> (r: usize)
    requires
        scan_finds(currency_keys(v@), id),
    ensures
        first_some_position(currency_keys(v@), id) == Some(r as int),
        r < v.len(),
{
    let ghost keys = currency_keys(v@);
    proof {
        crate::index::lemma_first_some_position(keys, id);
    }
    let mut i: usize = 0;
    while i < v.len()
        invariant
            i <= v.len(),
            keys == currency_keys(v@),
            scan_finds(keys, id),
            first_some_position(keys, id)->0 >= i,
            forall|j: int| 0 <= j < i ==> keys[j] != Some(id),
        decreases v.len() - i,
    {
        assert(keys[i as int] == v@[i as int].exchangable_id);
        proof {
            crate::index::lemma_first_some_position(keys, id);
        }
        if v[i].exchangable_id.unwrap() == id {
            proof {
                lemma_first_some_unique(keys, id, i as int);
            }
            return i;
        }
        i += 1;
    }
    proof {
        crate::index::lemma_first_some_position(keys, id);
    }
    0
}

/// The position of the first shipping that belongs to `id`.
pub fn find_shipping(v: &Vec<ShippingRow>, id: i32) -> (r: usize)
    requires
        scan_finds(shipping_keys(v@), id),
    ensures
        first_some_position(shipping_keys(v@), id) == Some(r as int),
        r < v.len(),
{
    let ghost keys = shipping_keys(v@);
    proof {
        crate::index::lemma_first_some_position(keys, id);
    }
    let mut i: usize = 0;
    while i < v.len()
        invariant
            i <= v.len(),
            keys == shipping_keys(v@),
            scan_finds(keys, id),
            first_some_position(keys, id)->0 >= i,
            forall|j: int| 0 <= j < i ==> keys[j] != Some(id),
        decreases v.len() - i,
    {
        assert(keys[i as int] == v@[i as int].shipable_id);
        proof {
            crate::index::lemma_first_some_position(keys, id);
        }
        if v[i].shipable_id.unwrap() == id {
            proof {
                lemma_first_some_unique(keys, id, i as int);
            }
            return i;
        }
        i += 1;
    }
    proof {
        crate::index::lemma_first_some_position(keys, id);
    }
    0
}

/// The task that exports the invoices.
pub struct InvoiceTask {}

impl InvoiceTask {
    /// The export of one invoice joined with the sources.
    pub fn record(i: &InvoiceRow, s: &InvoiceSources) -> (r: InvoiceRecord)
        requires
            exportable_invoice(*s, *i),
        ensures
            is_invoice_record(r, *i, *s),
    {
        let currency = find_currency(&s.currencies, i.id);
        let currency_name = match &s.currencies[currency].currency {
            Some(n) => n.clone(),
            None => to_text("USD"),
        };
        let shipping = find_shipping(&s.shippings, i.id);
        InvoiceRecord {
            id: i.id,
            invoice_number: clone_opt_text(&i.invoice_number),
            issued_at: i.issued_at,
            purchase_order_id: i.purchase_order_id,
            created_at: i.created_at,
            created_on: date_of(i.created_at),
            currency_name,
            document_type: i.document_type.clone(),
            provider_id: i.provider_id,
            order_id: i.order_id,
            cancelled: bool_to_text(i.cancelled),
            uuid: clone_opt_text(&i.uuid),
            approved_for_payment: i.approved_for_payment,
            discount: clone_opt_text(&i.discount),
            standard: text_eq(i.document_type.as_str(), "standard"),
            currency,
            shipping,
        }
    }

    /// The exports of the invoices, in their order.
    pub fn records(invoices: &Vec<InvoiceRow>, s: &InvoiceSources) -> (r: Vec<InvoiceRecord>)
        requires
            readable(*s),
            forall|k: int| 0 <= k < invoices.len() ==> exportable_invoice(*s, #[trigger] invoices@[k]),
        ensures
            r.len() == invoices.len(),
            forall|k: int| 0 <= k < invoices.len() ==> is_invoice_record(#[trigger] r@[k], invoices@[k], *s),
    {
        let mut r: Vec<InvoiceRecord> = Vec::new();
        let mut k: usize = 0;
        while k < invoices.len()
            invariant
                k <= invoices.len(),
                r.len() == k,
                forall|j: int| 0 <= j < invoices.len() ==> exportable_invoice(*s, #[trigger] invoices@[j]),
                forall|j: int| 0 <= j < k ==> is_invoice_record(#[trigger] r@[j], invoices@[j], *s),
            decreases invoices.len() - k,
        {
            r.push(InvoiceTask::record(&invoices[k], s));
            k += 1;
        }
        r
    }
}

/// Each copied column of the export is the same-named column of its row,
/// and each flag is written as `true` or `false`.
pub proof fn law_invoice_record_columns(rec: InvoiceRecord, i: InvoiceRow, s: InvoiceSources)
    requires
        is_invoice_record(rec, i, s),
    ensures
        rec.id == i.id,
        opt_text(rec.invoice_number) == opt_text(i.invoice_number),
        rec.issued_at == i.issued_at,
        rec.purchase_order_id == i.purchase_order_id,
        rec.created_at == i.created_at,
        rec.document_type@ == i.document_type@,
        rec.provider_id == i.provider_id,
        rec.order_id == i.order_id,
        rec.cancelled@ == bool_text(i.cancelled),
        opt_text(rec.uuid) == opt_text(i.uuid),
        rec.approved_for_payment == i.approved_for_payment,
        opt_text(rec.discount) == opt_text(i.discount),
{
}

} // verus!
