//! Currencies, taxes and shipping costs: their rows, their exports, and the
//! ids by which other exports find them. Their amounts are decimals that the
//! caller converts; here they are found, not computed.
use crate::calendar::Timestamp;
use crate::rows::{clone_opt_text, opt_text};
use crate::text::{bool_text, bool_to_text};
use vstd::prelude::*;

verus! {

/// A loaded row of the `currencies` table (its `conversion_rate` stays with the caller).
pub struct CurrencyRow {
    pub id: i32,
    pub exchangable_id: Option<i32>,
    pub exchangable_type: Option<String>,
    pub currency: Option<String>,
    pub conversion_set_at: Option<Timestamp>,
    /// The `conversion_history` JSON document, rendered.
    pub conversion_history: Option<String>,
    pub created_at: Option<Timestamp>,
    pub updated_at: Option<Timestamp>,
}

/// A loaded row of the `taxes` table (its `amount` and `percent_rate` stay
/// with the caller).
pub struct TaxRow {
    pub id: i32,
    pub taxable_id: Option<i32>,
    pub taxable_type: Option<String>,
    pub category: Option<String>,
    pub currency: Option<String>,
    pub description: Option<String>,
    pub locale: Option<String>,
    pub notes: Option<String>,
    pub created_at: Option<Timestamp>,
    pub updated_at: Option<Timestamp>,
    pub type_: Option<String>,
}

/// A loaded row of the `shippings` table (its `cost` stays with the caller).
pub struct ShippingRow {
    pub id: i32,
    pub shipable_id: Option<i32>,
    pub shipable_type: Option<String>,
    pub free_shipping: bool,
    pub currency: Option<String>,
    pub notes: Option<String>,
    pub created_at: Option<Timestamp>,
    pub updated_at: Option<Timestamp>,
}

/// An exported currency (with the conversion rate added by the caller).
pub struct CurrencyRecord {
    pub id: i32,
    pub exchangable_id: Option<i32>,
    pub exchangable_type: Option<String>,
    pub currency: Option<String>,
    pub conversion_set_at: Option<Timestamp>,
    pub conversion_history: Option<String>,
    pub created_at: Option<Timestamp>,
    pub updated_at: Option<Timestamp>,
}

/// An exported tax (with the amount and the percent rate added by the caller).
pub struct TaxesRecord {
    pub id: i32,
    pub taxable_id: Option<i32>,
    pub taxable_type: Option<String>,
    pub category: Option<String>,
    pub currency: Option<String>,
    pub description: Option<String>,
    pub locale: Option<String>,
    pub notes: Option<String>,
    pub created_at: Option<Timestamp>,
    pub updated_at: Option<Timestamp>,
    pub type_: Option<String>,
}

/// An exported shipping (with the cost added by the caller).
pub struct ShippingRecord {
    pub id: i32,
    pub shipable_id: Option<i32>,
    pub shipable_type: Option<String>,
    pub free_shipping: String,
    pub currency: Option<String>,
    pub notes: Option<String>,
    pub created_at: Option<Timestamp>,
    pub updated_at: Option<Timestamp>,
}

/// The ids of the exchangeables of the currencies.
pub open spec fn exchangable_ids(v: Seq<CurrencyRow>) -> Seq<i32> {
    v.map_values(|c: CurrencyRow| c.exchangable_id.unwrap_or(0))
}

/// The ids of the taxables of the taxes.
pub open spec fn taxable_ids(v: Seq<TaxRow>) -> Seq<i32> {
    v.map_values(|t: TaxRow| t.taxable_id.unwrap_or(0))
}

/// The ids of the shipables of the shippings.
pub open spec fn shipable_ids(v: Seq<ShippingRow>) -> Seq<i32> {
    v.map_values(|s: ShippingRow| s.shipable_id.unwrap_or(0))
}

/// Every currency names what it belongs to.
pub open spec fn all_exchangable(v: Seq<CurrencyRow>) -> bool {
    forall|i: int| 0 <= i < v.len() ==> (#[trigger] v[i]).exchangable_id is Some
}

/// Every tax names what it belongs to.
pub open spec fn all_taxable(v: Seq<TaxRow>) -> bool {
    forall|i: int| 0 <= i < v.len() ==> (#[trigger] v[i]).taxable_id is Some
}

/// Every shipping names what it belongs to.
pub open spec fn all_shipable(v: Seq<ShippingRow>) -> bool {
    forall|i: int| 0 <= i < v.len() ==> (#[trigger] v[i]).shipable_id is Some
}

/// The ids of the exchangeables, which every currency must have.
pub fn exchangable_id_list(v: &Vec<CurrencyRow>) -> (r: Vec<i32>)
    requires
        all_exchangable(v@),
    ensures
        r@ == exchangable_ids(v@),
{
    let mut r: Vec<i32> = Vec::new();
    let mut i: usize = 0;
    while i < v.len()
        invariant
            i <= v.len(),
            all_exchangable(v@),
            r@ == exchangable_ids(v@.take(i as int)),
        decreases v.len() - i,
    {
        r.push(v[i].exchangable_id.unwrap());
        i += 1;
        assert(exchangable_ids(v@.take(i as int)) =~= exchangable_ids(v@.take(i - 1)).push(
            v@[i - 1].exchangable_id.unwrap_or(0),
        ));
    }
    assert(v@.take(v.len() as int) =~= v@);
    r
}

/// The ids of the taxables, which every tax must have.
pub fn taxable_id_list(v: &Vec<TaxRow>) -> (r: Vec<i32>)
    requires
        all_taxable(v@),
    ensures
        r@ == taxable_ids(v@),
{
    let mut r: Vec<i32> = Vec::new();
    let mut i: usize = 0;
    while i < v.len()
        invariant
            i <= v.len(),
            all_taxable(v@),
            r@ == taxable_ids(v@.take(i as int)),
        decreases v.len() - i,
    {
        r.push(v[i].taxable_id.unwrap());
        i += 1;
        assert(taxable_ids(v@.take(i as int)) =~= taxable_ids(v@.take(i - 1)).push(
            v@[i - 1].taxable_id.unwrap_or(0),
        ));
    }
    assert(v@.take(v.len() as int) =~= v@);
    r
}

/// The ids of the shipables, which every shipping must have.
pub fn shipable_id_list(v: &Vec<ShippingRow>) -> (r: Vec<i32>)
    requires
        all_shipable(v@),
    ensures
        r@ == shipable_ids(v@),
{
    let mut r: Vec<i32> = Vec::new();
    let mut i: usize = 0;
    while i < v.len()
        invariant
            i <= v.len(),
            all_shipable(v@),
            r@ == shipable_ids(v@.take(i as int)),
        decreases v.len() - i,
    {
        r.push(v[i].shipable_id.unwrap());
        i += 1;
        assert(shipable_ids(v@.take(i as int)) =~= shipable_ids(v@.take(i - 1)).push(
            v@[i - 1].shipable_id.unwrap_or(0),
        ));
    }
    assert(v@.take(v.len() as int) =~= v@);
    r
}

/// The task that exports the currencies.
pub struct CurrencyTask {}

/// The task that exports the taxes.
pub struct TaxTask {}

/// The task that exports the shippings.
pub struct ShippingTask {}

/// `rec` is the export of `c`.
pub open spec fn is_currency_record(rec: CurrencyRecord, c: CurrencyRow) -> bool {
    &&& rec.id == c.id
    &&& rec.exchangable_id == c.exchangable_id
    &&& opt_text(rec.exchangable_type) == opt_text(c.exchangable_type)
    &&& opt_text(rec.currency) == opt_text(c.currency)
    &&& rec.conversion_set_at == c.conversion_set_at
    &&& opt_text(rec.conversion_history) == opt_text(c.conversion_history)
    &&& rec.created_at == c.created_at
    &&& rec.updated_at == c.updated_at
}

/// `rec` is the export of `t`.
pub open spec fn is_tax_record(rec: TaxesRecord, t: TaxRow) -> bool {
    &&& rec.id == t.id
    &&& rec.taxable_id == t.taxable_id
    &&& opt_text(rec.taxable_type) == opt_text(t.taxable_type)
    &&& opt_text(rec.category) == opt_text(t.category)
    &&& opt_text(rec.currency) == opt_text(t.currency)
    &&& opt_text(rec.description) == opt_text(t.description)
    &&& opt_text(rec.locale) == opt_text(t.locale)
    &&& opt_text(rec.notes) == opt_text(t.notes)
    &&& rec.created_at == t.created_at
    &&& rec.updated_at == t.updated_at
    &&& opt_text(rec.type_) == opt_text(t.type_)
}

/// `rec` is the export of `s`.
pub open spec fn is_shipping_record(rec: ShippingRecord, s: ShippingRow) -> bool {
    &&& rec.id == s.id
    &&& rec.shipable_id == s.shipable_id
    &&& opt_text(rec.shipable_type) == opt_text(s.shipable_type)
    &&& rec.free_shipping@ == bool_text(s.free_shipping)
    &&& opt_text(rec.currency) == opt_text(s.currency)
    &&& opt_text(rec.notes) == opt_text(s.notes)
    &&& rec.created_at == s.created_at
    &&& rec.updated_at == s.updated_at
}

impl CurrencyTask {
    /// The export of one currency.
    pub fn record(c: &CurrencyRow) -> (r: CurrencyRecord)
        ensures
            is_currency_record(r, *c),
    {
        CurrencyRecord {
            id: c.id,
            exchangable_id: c.exchangable_id,
            exchangable_type: clone_opt_text(&c.exchangable_type),
            currency: clone_opt_text(&c.currency),
            conversion_set_at: c.conversion_set_at,
            conversion_history: clone_opt_text(&c.conversion_history),
            created_at: c.created_at,
            updated_at: c.updated_at,
        }
    }

    /// The exports of the currencies, in their order.
    pub fn records(v: &Vec<CurrencyRow>) -> (r: Vec<CurrencyRecord>)
        ensures
            r.len() == v.len(),
            forall|i: int| 0 <= i < v.len() ==> is_currency_record(#[trigger] r@[i], v@[i]),
    {
        let mut r: Vec<CurrencyRecord> = Vec::new();
        let mut i: usize = 0;
        while i < v.len()
            invariant
                i <= v.len(),
                r.len() == i,
                forall|j: int| 0 <= j < i ==> is_currency_record(#[trigger] r@[j], v@[j]),
            decreases v.len() - i,
        {
            r.push(CurrencyTask::record(&v[i]));
            i += 1;
        }
        r
    }
}

impl TaxTask {
    /// The export of one tax.
    pub fn record(t: &TaxRow) -> (r: TaxesRecord)
        ensures
            is_tax_record(r, *t),
    {
        TaxesRecord {
            id: t.id,
            taxable_id: t.taxable_id,
            taxable_type: clone_opt_text(&t.taxable_type),
            category: clone_opt_text(&t.category),
            currency: clone_opt_text(&t.currency),
            description: clone_opt_text(&t.description),
            locale: clone_opt_text(&t.locale),
            notes: clone_opt_text(&t.notes),
            created_at: t.created_at,
            updated_at: t.updated_at,
            type_: clone_opt_text(&t.type_),
        }
    }

    /// The exports of the taxes, in their order.
    pub fn records(v: &Vec<TaxRow>) -> (r: Vec<TaxesRecord>)
        ensures
            r.len() == v.len(),
            forall|i: int| 0 <= i < v.len() ==> is_tax_record(#[trigger] r@[i], v@[i]),
    {
        let mut r: Vec<TaxesRecord> = Vec::new();
        let mut i: usize = 0;
        while i < v.len()
            invariant
                i <= v.len(),
                r.len() == i,
                forall|j: int| 0 <= j < i ==> is_tax_record(#[trigger] r@[j], v@[j]),
            decreases v.len() - i,
        {
            r.push(TaxTask::record(&v[i]));
            i += 1;
        }
        r
    }
}

impl ShippingTask {
    /// The export of one shipping.
    pub fn record(d: &ShippingRow) -> (r: ShippingRecord)
        ensures
            is_shipping_record(r, *d),
    {
        ShippingRecord {
            id: d.id,
            shipable_id: d.shipable_id,
            shipable_type: clone_opt_text(&d.shipable_type),
            free_shipping: bool_to_text(d.free_shipping),
            currency: clone_opt_text(&d.currency),
            notes: clone_opt_text(&d.notes),
            created_at: d.created_at,
            updated_at: d.updated_at,
        }
    }

    /// The exports of the shippings, in their order.
    pub fn records(v: &Vec<ShippingRow>) -> (r: Vec<ShippingRecord>)
        ensures
            r.len() == v.len(),
            forall|i: int| 0 <= i < v.len() ==> is_shipping_record(#[trigger] r@[i], v@[i]),
    {
        let mut r: Vec<ShippingRecord> = Vec::new();
        let mut i: usize = 0;
        while i < v.len()
            invariant
                i <= v.len(),
                r.len() == i,
                forall|j: int| 0 <= j < i ==> is_shipping_record(#[trigger] r@[j], v@[j]),
            decreases v.len() - i,
        {
            r.push(ShippingTask::record(&v[i]));
            i += 1;
        }
        r
    }
}

/// Each copied column of the export is the same-named column of its row.
pub proof fn law_currency_record_columns(rec: CurrencyRecord, c: CurrencyRow)
    requires
        is_currency_record(rec, c),
    ensures
        rec.id == c.id,
        rec.exchangable_id == c.exchangable_id,
        opt_text(rec.exchangable_type) == opt_text(c.exchangable_type),
        opt_text(rec.currency) == opt_text(c.currency),
        rec.conversion_set_at == c.conversion_set_at,
        opt_text(rec.conversion_history) == opt_text(c.conversion_history),
        rec.created_at == c.created_at,
        rec.updated_at == c.updated_at,
{
}

/// Each copied column of the export is the same-named column of its row.
pub proof fn law_tax_record_columns(rec: TaxesRecord, t: TaxRow)
    requires
        is_tax_record(rec, t),
    ensures
        rec.id == t.id,
        rec.taxable_id == t.taxable_id,
        opt_text(rec.taxable_type) == opt_text(t.taxable_type),
        opt_text(rec.category) == opt_text(t.category),
        opt_text(rec.currency) == opt_text(t.currency),
        opt_text(rec.description) == opt_text(t.description),
        opt_text(rec.locale) == opt_text(t.locale),
        opt_text(rec.notes) == opt_text(t.notes),
        rec.created_at == t.created_at,
        rec.updated_at == t.updated_at,
        opt_text(rec.type_) == opt_text(t.type_),
{
}

/// Each copied column of the export is the same-named column of its row,
/// and each flag is written as `true` or `false`.
pub proof fn law_shipping_record_columns(rec: ShippingRecord, s: ShippingRow)
    requires
        is_shipping_record(rec, s),
    ensures
        rec.id == s.id,
        rec.shipable_id == s.shipable_id,
        opt_text(rec.shipable_type) == opt_text(s.shipable_type),
        rec.free_shipping@ == bool_text(s.free_shipping),
        opt_text(rec.currency) == opt_text(s.currency),
        opt_text(rec.notes) == opt_text(s.notes),
        rec.created_at == s.created_at,
        rec.updated_at == s.updated_at,
{
}

} // verus!
