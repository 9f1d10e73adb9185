//! The milestone export, whose missing dates are filled with January 1 of year 1.
use crate::calendar::{CalendarDate, Timestamp};
use crate::rows::{clone_opt_text, opt_date, opt_text};
use vstd::prelude::*;

verus! {

/// The date that stands for a missing date: January 1 of year 1.
pub open spec fn placeholder_date() -> CalendarDate {
    CalendarDate { year: 1, month: 1, day: 1 }
}

/// The time that stands for a missing time: January 1 of year 1, 00:00:00.
pub open spec fn placeholder_time() -> Timestamp {
    Timestamp::start_of_day(placeholder_date())
}

fn first_day_of_year_one() -> (r: CalendarDate)
    ensures
        r == placeholder_date(),
{
    match CalendarDate::from_ymd_opt(1, 1, 1) {
        Some(d) => d,
        None => {
            assert(false);
            CalendarDate { year: 1, month: 1, day: 1 }
        },
    }
}

/// The time, or the placeholder time when there is none.
pub fn date_at_or_placeholder(date: Option<Timestamp>) -> (r: Timestamp)
    ensures
        r == match date {
            Some(t) => t,
            None => placeholder_time(),
        },
{
    match date {
        Some(t) => t,
        None => Timestamp::start_of_day_of(first_day_of_year_one()),
    }
}

/// The date, or the placeholder date when there is none.
pub fn estimated_date_placeholder(date: Option<CalendarDate>) -> (r: CalendarDate)
    ensures
        r == match date {
            Some(d) => d,
            None => placeholder_date(),
        },
{
    match date {
        Some(d) => d,
        None => first_day_of_year_one(),
    }
}

/// A loaded row of the `milestones` table (its quantity, tax rate and prices
/// stay with the caller).
pub struct MilestoneRow {
    pub id: i32,
    pub itemizable_id: Option<i32>,
    pub itemizable_type: Option<String>,
    pub _type: String,
    pub name: Option<String>,
    pub state: String,
    pub currency: Option<String>,
    pub unit_of_measure: Option<String>,
    /// The `classifications` JSON document, rendered.
    pub classifications: String,
    pub line_number: Option<i32>,
    pub comments: Option<String>,
    pub created_at: Option<Timestamp>,
    pub updated_at: Option<Timestamp>,
    pub status: Option<String>,
    pub provider_id: Option<i32>,
    pub cancelled_at: Option<Timestamp>,
    pub shipped_at: Option<Timestamp>,
    pub estimated_date: Option<Timestamp>,
}

/// An exported milestone (with the quantity, tax rate and prices added by the caller).
pub struct MilestoneRecord {
    pub id: i32,
    pub itemizable_id: Option<i32>,
    pub itemizable_type: Option<String>,
    pub _type: String,
    pub name: Option<String>,
    pub state: String,
    pub currency: Option<String>,
    pub unit_of_measure: Option<String>,
    pub classifications: String,
    pub line_number: Option<i32>,
    pub comments: Option<String>,
    pub created_at: Option<Timestamp>,
    pub updated_at: Option<Timestamp>,
    pub status: Option<String>,
    pub provider_id: Option<i32>,
    pub cancelled_at: Option<Timestamp>,
    pub shipped_at: Option<Timestamp>,
    pub estimated_date: Option<CalendarDate>,
}

/// The time, or the placeholder time where there is none.
pub open spec fn time_or_placeholder(t: Option<Timestamp>) -> Timestamp {
    match t {
        Some(t) => t,
        None => placeholder_time(),
    }
}

/// `rec` is the export of `m`: every date is present, a missing one being
/// the placeholder.
pub open spec fn is_milestone_record(rec: MilestoneRecord, m: MilestoneRow) -> bool {
    &&& rec.id == m.id
    &&& rec.itemizable_id == m.itemizable_id
    &&& opt_text(rec.itemizable_type) == opt_text(m.itemizable_type)
    &&& rec._type@ == m._type@
    &&& opt_text(rec.name) == opt_text(m.name)
    &&& rec.state@ == m.state@
    &&& opt_text(rec.currency) == opt_text(m.currency)
    &&& opt_text(rec.unit_of_measure) == opt_text(m.unit_of_measure)
    &&& rec.classifications@ == m.classifications@
    &&& rec.line_number == m.line_number
    &&& opt_text(rec.comments) == opt_text(m.comments)
    &&& rec.created_at == Some(time_or_placeholder(m.created_at))
    &&& rec.updated_at == Some(time_or_placeholder(m.updated_at))
    &&& opt_text(rec.status) == opt_text(m.status)
    &&& rec.provider_id == m.provider_id
    &&& rec.cancelled_at == Some(time_or_placeholder(m.cancelled_at))
    &&& rec.shipped_at == Some(time_or_placeholder(m.shipped_at))
    &&& rec.estimated_date == Some(
        match opt_date(m.estimated_date) {
            Some(d) => d,
            None => placeholder_date(),
        },
    )
}

/// The task that exports the milestones.
pub struct MilestoneTask {}

impl MilestoneTask {
    /// The export of one milestone.
    pub fn record(m: &MilestoneRow) -> (r: MilestoneRecord)
        ensures
            is_milestone_record(r, *m),
    {
        MilestoneRecord {
            id: m.id,
            itemizable_id: m.itemizable_id,
            itemizable_type: clone_opt_text(&m.itemizable_type),
            _type: m._type.clone(),
            name: clone_opt_text(&m.name),
            state: m.state.clone(),
            currency: clone_opt_text(&m.currency),
            unit_of_measure: clone_opt_text(&m.unit_of_measure),
            classifications: m.classifications.clone(),
            line_number: m.line_number,
            comments: clone_opt_text(&m.comments),
            created_at: Some(date_at_or_placeholder(m.created_at)),
            updated_at: Some(date_at_or_placeholder(m.updated_at)),
            status: clone_opt_text(&m.status),
            provider_id: m.provider_id,
            cancelled_at: Some(date_at_or_placeholder(m.cancelled_at)),
            shipped_at: Some(date_at_or_placeholder(m.shipped_at)),
            estimated_date: Some(
                estimated_date_placeholder(
                    match m.estimated_date {
                        Some(t) => Some(t.date),
                        None => None,
                    },
                ),
            ),
        }
    }

    /// The exports of the milestones, in their order.
    pub fn records(v: &Vec<MilestoneRow>) -> (r: Vec<MilestoneRecord>)
        ensures
            r.len() == v.len(),
            forall|i: int| 0 <= i < v.len() ==> is_milestone_record(#[trigger] r@[i], v@[i]),
    {
        let mut r: Vec<MilestoneRecord> = Vec::new();
        let mut i: usize = 0;
        while i < v.len()
            invariant
                i <= v.len(),
                r.len() == i,
                forall|j: int| 0 <= j < i ==> is_milestone_record(#[trigger] r@[j], v@[j]),
            decreases v.len() - i,
        {
            r.push(MilestoneTask::record(&v[i]));
            i += 1;
        }
        r
    }
}

/// Every date of an exported milestone is a real date: the placeholders are
/// valid dates, so the export never holds an invalid one where the row had none.
pub proof fn law_placeholders_are_dates()
    ensures
        placeholder_date().wf(),
        placeholder_time().date.wf(),
{
}

/// Each copied column of the export is the same-named column of its row.
pub proof fn law_milestone_record_columns(rec: MilestoneRecord, m: MilestoneRow)
    requires
        is_milestone_record(rec, m),
    ensures
        rec.id == m.id,
        rec.itemizable_id == m.itemizable_id,
        opt_text(rec.itemizable_type) == opt_text(m.itemizable_type),
        rec._type@ == m._type@,
        opt_text(rec.name) == opt_text(m.name),
        rec.state@ == m.state@,
        opt_text(rec.currency) == opt_text(m.currency),
        opt_text(rec.unit_of_measure) == opt_text(m.unit_of_measure),
        rec.classifications@ == m.classifications@,
        rec.line_number == m.line_number,
        opt_text(rec.comments) == opt_text(m.comments),
        opt_text(rec.status) == opt_text(m.status),
        rec.provider_id == m.provider_id,
{
}

} // verus!
