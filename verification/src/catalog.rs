//! The exports that copy their rows: addresses, wares, organizations,
//! inventory groups and embedded dynamic forms.
use crate::calendar::Timestamp;
use crate::rows::{clone_opt_text, opt_text};
use crate::text::{bool_text, bool_to_text};
use vstd::prelude::*;

verus! {

/// A loaded row of the `addresses` table.
pub struct AddressRow {
    pub id: i32,
    pub type_: Option<String>,
    pub organization_name: Option<String>,
    pub site_name: Option<String>,
    pub attention: Option<String>,
    pub person_name: Option<String>,
    pub street: Option<String>,
    pub street2: Option<String>,
    pub city: Option<String>,
    pub state: Option<String>,
    pub zipcode: Option<String>,
    pub country: Option<String>,
    pub created_at: Option<Timestamp>,
    pub addressable_id: Option<i32>,
    pub addressable_type: Option<String>,
    pub legal_entity_id: Option<i32>,
}

/// An exported address.
pub struct TinyAddress {
    pub id: i32,
    pub type_: Option<String>,
    pub organization_name: Option<String>,
    pub site_name: Option<String>,
    pub attention: Option<String>,
    pub person_name: Option<String>,
    pub street: Option<String>,
    pub street2: Option<String>,
    pub city: Option<String>,
    pub state: Option<String>,
    pub zipcode: Option<String>,
    pub country: Option<String>,
    pub created_at: Option<Timestamp>,
    pub addressable_id: Option<i32>,
    pub addressable_type: Option<String>,
    pub legal_entity_id: Option<i32>,
}

/// `t` holds the fields of `a`.
pub open spec fn is_tiny_address(t: TinyAddress, a: AddressRow) -> bool {
    &&& t.id == a.id
    &&& opt_text(t.type_) == opt_text(a.type_)
    &&& opt_text(t.organization_name) == opt_text(a.organization_name)
    &&& opt_text(t.site_name) == opt_text(a.site_name)
    &&& opt_text(t.attention) == opt_text(a.attention)
    &&& opt_text(t.person_name) == opt_text(a.person_name)
    &&& opt_text(t.street) == opt_text(a.street)
    &&& opt_text(t.street2) == opt_text(a.street2)
    &&& opt_text(t.city) == opt_text(a.city)
    &&& opt_text(t.state) == opt_text(a.state)
    &&& opt_text(t.zipcode) == opt_text(a.zipcode)
    &&& opt_text(t.country) == opt_text(a.country)
    &&& t.created_at == a.created_at
    &&& t.addressable_id == a.addressable_id
    &&& opt_text(t.addressable_type) == opt_text(a.addressable_type)
    &&& t.legal_entity_id == a.legal_entity_id
}

impl TinyAddress {
    /// The export of an address.
    pub fn from(incoming: &AddressRow) -> (r: TinyAddress)
        ensures
            is_tiny_address(r, *incoming),
    {
        TinyAddress {
            id: incoming.id,
            type_: clone_opt_text(&incoming.type_),
            organization_name: clone_opt_text(&incoming.organization_name),
            site_name: clone_opt_text(&incoming.site_name),
            attention: clone_opt_text(&incoming.attention),
            person_name: clone_opt_text(&incoming.person_name),
            street: clone_opt_text(&incoming.street),
            street2: clone_opt_text(&incoming.street2),
            city: clone_opt_text(&incoming.city),
            state: clone_opt_text(&incoming.state),
            zipcode: clone_opt_text(&incoming.zipcode),
            country: clone_opt_text(&incoming.country),
            created_at: incoming.created_at,
            addressable_id: incoming.addressable_id,
            addressable_type: clone_opt_text(&incoming.addressable_type),
            legal_entity_id: incoming.legal_entity_id,
        }
    }
}

/// The task that exports the addresses.
pub struct AddressTask {}

impl AddressTask {
    /// The exports of the addresses, in their order.
    pub fn records(v: &Vec<AddressRow>) -> (r: Vec<TinyAddress>)
        ensures
            r.len() == v.len(),
            forall|i: int| 0 <= i < v.len() ==> is_tiny_address(#[trigger] r@[i], v@[i]),
    {
        let mut r: Vec<TinyAddress> = Vec::new();
        let mut i: usize = 0;
        while i < v.len()
            invariant
                i <= v.len(),
                r.len() == i,
                forall|j: int| 0 <= j < i ==> is_tiny_address(#[trigger] r@[j], v@[j]),
            decreases v.len() - i,
        {
            r.push(TinyAddress::from(&v[i]));
            i += 1;
        }
        r
    }
}

/// A loaded row of the `wares` table.
pub struct WareRow {
    pub id: i32,
    pub name: Option<String>,
    pub created_at: Option<Timestamp>,
    pub updated_at: Option<Timestamp>,
    pub slug: Option<String>,
    pub description: Option<String>,
    pub ware_type: Option<String>,
}

/// An exported ware.
pub struct WareRecord {
    pub id: i32,
    pub name: Option<String>,
    pub created_at: Option<Timestamp>,
    pub updated_at: Option<Timestamp>,
    pub slug: Option<String>,
    pub description: Option<String>,
    pub ware_type: Option<String>,
}

/// `r` is the export of `w`.
pub open spec fn is_ware_record(r: WareRecord, w: WareRow) -> bool {
    &&& r.id == w.id
    &&& opt_text(r.name) == opt_text(w.name)
    &&& r.created_at == w.created_at
    &&& r.updated_at == w.updated_at
    &&& opt_text(r.slug) == opt_text(w.slug)
    &&& opt_text(r.description) == opt_text(w.description)
    &&& opt_text(r.ware_type) == opt_text(w.ware_type)
}

/// The task that exports the wares.
pub struct WareTask {}

impl WareTask {
    /// The exports of the wares, in their order.
    pub fn records(v: &Vec<WareRow>) -> (r: Vec<WareRecord>)
        ensures
            r.len() == v.len(),
            forall|i: int| 0 <= i < v.len() ==> is_ware_record(#[trigger] r@[i], v@[i]),
    {
        let mut r: Vec<WareRecord> = Vec::new();
        let mut i: usize = 0;
        while i < v.len()
            invariant
                i <= v.len(),
                r.len() == i,
                forall|j: int| 0 <= j < i ==> is_ware_record(#[trigger] r@[j], v@[j]),
            decreases v.len() - i,
        {
            let w = &v[i];
            r.push(
                WareRecord {
                    id: w.id,
                    name: clone_opt_text(&w.name),
                    created_at: w.created_at,
                    updated_at: w.updated_at,
                    slug: clone_opt_text(&w.slug),
                    description: clone_opt_text(&w.description),
                    ware_type: clone_opt_text(&w.ware_type),
                },
            );
            i += 1;
        }
        r
    }
}

/// A loaded row of the `organizations` table.
pub struct OrganizationRow {
    pub id: i32,
    pub name: Option<String>,
    pub uuid: Option<String>,
    pub created_at: Option<Timestamp>,
    pub updated_at: Option<Timestamp>,
    pub parent_id: Option<i32>,
    pub domain: Option<String>,
    pub webstore: bool,
    pub archived_at: Option<Timestamp>,
}

/// An exported organization.
pub struct OrganizationRecord {
    pub id: i32,
    pub name: Option<String>,
    pub uuid: Option<String>,
    pub created_at: Option<Timestamp>,
    pub updated_at: Option<Timestamp>,
    pub parent_id: Option<i32>,
    pub domain: Option<String>,
    pub webstore: String,
    pub archived_at: Option<Timestamp>,
}

/// `r` is the export of `o`.
pub open spec fn is_organization_record(r: OrganizationRecord, o: OrganizationRow) -> bool {
    &&& r.id == o.id
    &&& opt_text(r.name) == opt_text(o.name)
    &&& opt_text(r.uuid) == opt_text(o.uuid)
    &&& r.created_at == o.created_at
    &&& r.updated_at == o.updated_at
    &&& r.parent_id == o.parent_id
    &&& opt_text(r.domain) == opt_text(o.domain)
    &&& r.webstore@ == bool_text(o.webstore)
    &&& r.archived_at == o.archived_at
}

/// The task that exports the organizations.
pub struct OrganizationTask {}

impl OrganizationTask {
    /// The exports of the organizations, which must all have a uuid, in their order.
    pub fn records(v: &Vec<OrganizationRow>) -> (r: Vec<OrganizationRecord>)
        requires
            forall|i: int| 0 <= i < v.len() ==> (#[trigger] v@[i]).uuid is Some,
        ensures
            r.len() == v.len(),
            forall|i: int| 0 <= i < v.len() ==> is_organization_record(#[trigger] r@[i], v@[i]),
    {
        let mut r: Vec<OrganizationRecord> = Vec::new();
        let mut i: usize = 0;
        while i < v.len()
            invariant
                i <= v.len(),
                r.len() == i,
                forall|j: int| 0 <= j < v.len() ==> (#[trigger] v@[j]).uuid is Some,
                forall|j: int| 0 <= j < i ==> is_organization_record(#[trigger] r@[j], v@[j]),
            decreases v.len() - i,
        {
            let o = &v[i];
            r.push(
                OrganizationRecord {
                    id: o.id,
                    name: clone_opt_text(&o.name),
                    uuid: Some(o.uuid.as_ref().unwrap().clone()),
                    created_at: o.created_at,
                    updated_at: o.updated_at,
                    parent_id: o.parent_id,
                    domain: clone_opt_text(&o.domain),
                    webstore: bool_to_text(o.webstore),
                    archived_at: o.archived_at,
                },
            );
            i += 1;
        }
        r
    }
}

/// A loaded row of the `inventory_groups` table (its shipping cost stays with the caller).
pub struct InventoryGroupRow {
    pub id: i32,
    pub index: i32,
    /// The `metadata` JSON document, rendered.
    pub metadata: Option<String>,
    pub created_at: Option<Timestamp>,
    pub updated_at: Option<Timestamp>,
    pub uuid: Option<String>,
    pub deleted_at: Option<Timestamp>,
}

/// An exported inventory group (with the shipping cost added by the caller).
pub struct InventoryGroupRecord {
    pub id: i32,
    pub index: i32,
    pub metadata: Option<String>,
    pub created_at: Option<Timestamp>,
    pub updated_at: Option<Timestamp>,
    pub uuid: Option<String>,
    pub deleted_at: Option<Timestamp>,
}

/// `r` is the export of `g`.
pub open spec fn is_inventory_group_record(r: InventoryGroupRecord, g: InventoryGroupRow) -> bool {
    &&& r.id == g.id
    &&& r.index == g.index
    &&& opt_text(r.metadata) == opt_text(g.metadata)
    &&& r.created_at == g.created_at
    &&& r.updated_at == g.updated_at
    &&& opt_text(r.uuid) == opt_text(g.uuid)
    &&& r.deleted_at == g.deleted_at
}

/// The task that exports the inventory groups.
pub struct InventoryGroupTask {}

impl InventoryGroupTask {
    /// The exports of the inventory groups, which must all have a uuid, in their order.
    pub fn records(v: &Vec<InventoryGroupRow>) -> (r: Vec<InventoryGroupRecord>)
        requires
            forall|i: int| 0 <= i < v.len() ==> (#[trigger] v@[i]).uuid is Some,
        ensures
            r.len() == v.len(),
            forall|i: int| 0 <= i < v.len() ==> is_inventory_group_record(#[trigger] r@[i], v@[i]),
    {
        let mut r: Vec<InventoryGroupRecord> = Vec::new();
        let mut i: usize = 0;
        while i < v.len()
            invariant
                i <= v.len(),
                r.len() == i,
                forall|j: int| 0 <= j < v.len() ==> (#[trigger] v@[j]).uuid is Some,
                forall|j: int| 0 <= j < i ==> is_inventory_group_record(#[trigger] r@[j], v@[j]),
            decreases v.len() - i,
        {
            let g = &v[i];
            r.push(
                InventoryGroupRecord {
                    id: g.id,
                    index: g.index,
                    metadata: clone_opt_text(&g.metadata),
                    created_at: g.created_at,
                    updated_at: g.updated_at,
                    uuid: Some(g.uuid.as_ref().unwrap().clone()),
                    deleted_at: g.deleted_at,
                },
            );
            i += 1;
        }
        r
    }
}

/// A loaded row of the `embedded_dynamic_forms` table, its JSON documents rendered.
pub struct EmbeddedDynamicFormRow {
    pub id: i32,
    pub name: Option<String>,
    pub version_number: Option<i32>,
    pub slug: Option<String>,
    pub key: Option<String>,
    pub schema: Option<String>,
    pub options: Option<String>,
    pub data: Option<String>,
    pub created_at: Option<Timestamp>,
    pub updated_at: Option<Timestamp>,
}

/// An exported embedded dynamic form.
pub struct EmbeddedDynamicFormRecord {
    pub id: i32,
    pub name: Option<String>,
    pub version_number: Option<i32>,
    pub slug: Option<String>,
    pub key: Option<String>,
    pub schema: Option<String>,
    pub options: Option<String>,
    pub data: Option<String>,
    pub created_at: Option<Timestamp>,
    pub updated_at: Option<Timestamp>,
}

/// `r` is the export of `d`.
pub open spec fn is_form_record(r: EmbeddedDynamicFormRecord, d: EmbeddedDynamicFormRow) -> bool {
    &&& r.id == d.id
    &&& opt_text(r.name) == opt_text(d.name)
    &&& r.version_number == d.version_number
    &&& opt_text(r.slug) == opt_text(d.slug)
    &&& opt_text(r.key) == opt_text(d.key)
    &&& opt_text(r.schema) == opt_text(d.schema)
    &&& opt_text(r.options) == opt_text(d.options)
    &&& opt_text(r.data) == opt_text(d.data)
    &&& r.created_at == d.created_at
    &&& r.updated_at == d.updated_at
}

impl crate::events::EmbeddedDynamicFormTask {
    /// The exports of the embedded dynamic forms of a partition, in their order.
    pub fn records(v: &Vec<EmbeddedDynamicFormRow>) -> (r: Vec<EmbeddedDynamicFormRecord>)
        ensures
            r.len() == v.len(),
            forall|i: int| 0 <= i < v.len() ==> is_form_record(#[trigger] r@[i], v@[i]),
    {
        let mut r: Vec<EmbeddedDynamicFormRecord> = Vec::new();
        let mut i: usize = 0;
        while i < v.len()
            invariant
                i <= v.len(),
                r.len() == i,
                forall|j: int| 0 <= j < i ==> is_form_record(#[trigger] r@[j], v@[j]),
            decreases v.len() - i,
        {
            let d = &v[i];
            r.push(
                EmbeddedDynamicFormRecord {
                    id: d.id,
                    name: clone_opt_text(&d.name),
                    version_number: d.version_number,
                    slug: clone_opt_text(&d.slug),
                    key: clone_opt_text(&d.key),
                    schema: clone_opt_text(&d.schema),
                    options: clone_opt_text(&d.options),
                    data: clone_opt_text(&d.data),
                    created_at: d.created_at,
                    updated_at: d.updated_at,
                },
            );
            i += 1;
        }
        r
    }
}

/// Each copied column of the export is the same-named column of its row.
pub proof fn law_tiny_address_columns(t: TinyAddress, a: AddressRow)
    requires
        is_tiny_address(t, a),
    ensures
        t.id == a.id,
        opt_text(t.type_) == opt_text(a.type_),
        opt_text(t.organization_name) == opt_text(a.organization_name),
        opt_text(t.site_name) == opt_text(a.site_name),
        opt_text(t.attention) == opt_text(a.attention),
        opt_text(t.person_name) == opt_text(a.person_name),
        opt_text(t.street) == opt_text(a.street),
        opt_text(t.street2) == opt_text(a.street2),
        opt_text(t.city) == opt_text(a.city),
        opt_text(t.state) == opt_text(a.state),
        opt_text(t.zipcode) == opt_text(a.zipcode),
        opt_text(t.country) == opt_text(a.country),
        t.created_at == a.created_at,
        t.addressable_id == a.addressable_id,
        opt_text(t.addressable_type) == opt_text(a.addressable_type),
        t.legal_entity_id == a.legal_entity_id,
{
}

/// Each copied column of the export is the same-named column of its row.
pub proof fn law_ware_record_columns(r: WareRecord, w: WareRow)
    requires
        is_ware_record(r, w),
    ensures
        r.id == w.id,
        opt_text(r.name) == opt_text(w.name),
        r.created_at == w.created_at,
        r.updated_at == w.updated_at,
        opt_text(r.slug) == opt_text(w.slug),
        opt_text(r.description) == opt_text(w.description),
        opt_text(r.ware_type) == opt_text(w.ware_type),
{
}

/// Each copied column of the export is the same-named column of its row,
/// and each flag is written as `true` or `false`.
pub proof fn law_organization_record_columns(r: OrganizationRecord, o: OrganizationRow)
    requires
        is_organization_record(r, o),
    ensures
        r.id == o.id,
        opt_text(r.name) == opt_text(o.name),
        opt_text(r.uuid) == opt_text(o.uuid),
        r.created_at == o.created_at,
        r.updated_at == o.updated_at,
        r.parent_id == o.parent_id,
        opt_text(r.domain) == opt_text(o.domain),
        r.webstore@ == bool_text(o.webstore),
        r.archived_at == o.archived_at,
{
}

/// Each copied column of the export is the same-named column of its row.
pub proof fn law_inventory_group_record_columns(r: InventoryGroupRecord, g: InventoryGroupRow)
    requires
        is_inventory_group_record(r, g),
    ensures
        r.id == g.id,
        r.index == g.index,
        opt_text(r.metadata) == opt_text(g.metadata),
        r.created_at == g.created_at,
        r.updated_at == g.updated_at,
        opt_text(r.uuid) == opt_text(g.uuid),
        r.deleted_at == g.deleted_at,
{
}

/// Each copied column of the export is the same-named column of its row.
pub proof fn law_form_record_columns(r: EmbeddedDynamicFormRecord, d: EmbeddedDynamicFormRow)
    requires
        is_form_record(r, d),
    ensures
        r.id == d.id,
        opt_text(r.name) == opt_text(d.name),
        r.version_number == d.version_number,
        opt_text(r.slug) == opt_text(d.slug),
        opt_text(r.key) == opt_text(d.key),
        opt_text(r.schema) == opt_text(d.schema),
        opt_text(r.options) == opt_text(d.options),
        opt_text(r.data) == opt_text(d.data),
        r.created_at == d.created_at,
        r.updated_at == d.updated_at,
{
}

} // verus!
