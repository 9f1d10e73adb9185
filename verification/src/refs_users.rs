//! The export of the user references, whose fields are a JSON document.
use crate::calendar::{CalendarDate, Timestamp};
use crate::rows::{clone_opt_text, json_member, json_member_text, opt_text, JsonMembers};
use crate::text::{lemma_without_char, remove_char, without_char};
use vstd::prelude::*;

verus! {

/// A loaded row of the `refs` table.
pub struct RefRow {
    pub id: i64,
    pub type_: Option<String>,
    pub reference_of_type: Option<String>,
    pub reference_to_id: Option<i32>,
    pub reference_of_id: Option<i32>,
    pub created_at: Option<Timestamp>,
    pub updated_at: Option<Timestamp>,
    /// The members of the `fields` JSON document, where there is one.
    pub fields: Option<JsonMembers>,
}

/// An exported user reference.
pub struct RefsUserRecord {
    pub id: i64,
    pub type_: Option<String>,
    pub reference_of_type: Option<String>,
    pub reference_to_id: Option<i32>,
    pub reference_of_id: Option<i32>,
    pub created_at: Option<Timestamp>,
    pub updated_at: Option<Timestamp>,
    pub location: String,
    pub email: String,
    pub company: String,
    pub last_name: String,
    pub first_name: String,
    pub organization_name: String,
}

/// The date that stands for a missing creation or update time: 2020-11-26 00:00:00.
pub open spec fn default_ref_time() -> Timestamp {
    Timestamp::start_of_day(CalendarDate { year: 2020, month: 11, day: 26 })
}

/// A field of a user reference: the rendered member without its double
/// quotes, or `""` when the member is missing.
pub open spec fn ref_field(members: Seq<(String, String)>, key: Seq<char>) -> Seq<char> {
    match json_member(members, key) {
        Some(v) => without_char(v, '"'),
        None => Seq::empty(),
    }
}

/// `rec` is the export of `row`.
pub open spec fn is_refs_user_record(rec: RefsUserRecord, row: RefRow) -> bool {
    let members = row.fields->0@;
    &&& rec.id == row.id
    &&& opt_text(rec.type_) == opt_text(row.type_)
    &&& opt_text(rec.reference_of_type) == opt_text(row.reference_of_type)
    &&& rec.reference_to_id == row.reference_to_id
    &&& rec.reference_of_id == row.reference_of_id
    &&& rec.created_at == if row.created_at is Some {
        row.created_at
    } else {
        Some(default_ref_time())
    }
    &&& rec.updated_at == if row.updated_at is Some {
        row.updated_at
    } else {
        Some(default_ref_time())
    }
    &&& rec.location@ == ref_field(members, "location"@)
    &&& rec.email@ == ref_field(members, "email"@)
    &&& rec.company@ == ref_field(members, "company"@)
    &&& rec.last_name@ == ref_field(members, "last_name"@)
    &&& rec.first_name@ == ref_field(members, "first_name"@)
    &&& rec.organization_name@ == ref_field(members, "organization_name"@)
}

/// The exported fields of a user reference hold no double quote.
pub proof fn law_ref_fields_hold_no_quotes(members: Seq<(String, String)>, key: Seq<char>)
    ensures
        !ref_field(members, key).contains('"'),
{
    match json_member(members, key) {
        Some(v) => lemma_without_char(v, '"'),
        None => {},
    }
}

/// A field of a user reference.
pub fn ref_field_text(members: &JsonMembers, key: &str) -> (r: String)
    ensures
        r@ == ref_field(members@, key@),
{
    match json_member_text(members, key) {
        Some(v) => remove_char(v.as_str(), '"'),
        None => String::new(),
    }
}

/// The task that exports the user references.
pub struct RefsUserTaskPart {}

impl RefsUserTaskPart {
    /// The export of one user reference, which must have its fields.
    pub fn record(r: &RefRow) -> (rec: RefsUserRecord)
        requires
            r.fields is Some,
        ensures
            is_refs_user_record(rec, *r),
    {
        let fields = r.fields.as_ref().unwrap();
        let default_date = match CalendarDate::from_ymd_opt(2020, 11, 26) {
            Some(d) => Timestamp::start_of_day_of(d),
            None => {
                assert(false);
                Timestamp::start_of_day_of(CalendarDate { year: 2020, month: 11, day: 26 })
            },
        };
        RefsUserRecord {
            id: r.id,
            type_: clone_opt_text(&r.type_),
            reference_of_type: clone_opt_text(&r.reference_of_type),
            reference_to_id: r.reference_to_id,
            reference_of_id: r.reference_of_id,
            created_at: match r.created_at {
                Some(t) => Some(t),
                None => Some(default_date),
            },
            updated_at: match r.updated_at {
                Some(t) => Some(t),
                None => Some(default_date),
            },
            location: ref_field_text(fields, "location"),
            email: ref_field_text(fields, "email"),
            company: ref_field_text(fields, "company"),
            last_name: ref_field_text(fields, "last_name"),
            first_name: ref_field_text(fields, "first_name"),
            organization_name: ref_field_text(fields, "organization_name"),
        }
    }

    /// The exports of the user references, which must all have their fields.
    pub fn records(results: &Vec<RefRow>) -> (r: Vec<RefsUserRecord>)
        requires
            forall|i: int| 0 <= i < results.len() ==> (#[trigger] results@[i]).fields is Some,
        ensures
            r.len() == results.len(),
            forall|i: int| 0 <= i < results.len() ==> is_refs_user_record(#[trigger] r@[i], results@[i]),
    {
        let mut r: Vec<RefsUserRecord> = Vec::new();
        let mut i: usize = 0;
        while i < results.len()
            invariant
                i <= results.len(),
                r.len() == i,
                forall|j: int| 0 <= j < results.len() ==> (#[trigger] results@[j]).fields is Some,
                forall|j: int| 0 <= j < i ==> is_refs_user_record(#[trigger] r@[j], results@[j]),
            decreases results.len() - i,
        {
            r.push(RefsUserTaskPart::record(&results[i]));
            i += 1;
        }
        r
    }
}

/// Each copied column of the export is the same-named column of its row.
pub proof fn law_refs_user_record_columns(rec: RefsUserRecord, row: RefRow)
    requires
        is_refs_user_record(rec, row),
    ensures
        rec.id == row.id,
        opt_text(rec.type_) == opt_text(row.type_),
        opt_text(rec.reference_of_type) == opt_text(row.reference_of_type),
        rec.reference_to_id == row.reference_to_id,
        rec.reference_of_id == row.reference_of_id,
{
}

} // verus!
