//! The rating export: the ratings that are not spam, with their provider's name.
use crate::calendar::{CalendarDate, Timestamp};
use crate::index::{find_first, first_position, lemma_first_position};
use crate::orders::provider_ids;
use crate::providers::ProviderRow;
use crate::rows::{clone_opt_text, date_of, opt_date, opt_text};
use crate::text::{bool_text, bool_to_text};
use vstd::prelude::*;

verus! {

/// A loaded row of the `ratings` table.
pub struct RatingRow {
    pub id: i32,
    pub value: i32,
    pub ware_id: Option<String>,
    pub spam: bool,
    pub provider_id: Option<i32>,
    pub created_at: Option<Timestamp>,
    pub request_id: Option<i32>,
    pub order_id: Option<i32>,
    pub comment: Option<String>,
    pub organization_id: Option<i32>,
    pub user_id: Option<i32>,
}

/// An exported rating.
pub struct RatingShort {
    pub id: i32,
    pub value: i32,
    pub ware_id: Option<String>,
    pub spam: String,
    pub provider_id: Option<i32>,
    pub provider_name: Option<String>,
    pub created_at: Option<Timestamp>,
    pub created_on: Option<CalendarDate>,
    pub request_id: Option<i32>,
    pub order_id: Option<i32>,
    pub comment: Option<String>,
    pub organization_id: Option<i32>,
    pub user_id: Option<i32>,
}

/// The ratings that are not spam, in their order.
pub open spec fn non_spam(ratings: Seq<RatingRow>) -> Seq<RatingRow>
    decreases ratings.len(),
{
    if ratings.len() == 0 {
        seq![]
    } else if ratings.last().spam {
        non_spam(ratings.drop_last())
    } else {
        non_spam(ratings.drop_last()).push(ratings.last())
    }
}

/// The name of the first provider whose id is the rating's provider id.
pub open spec fn first_provider_name(providers: Seq<ProviderRow>, id: Option<i32>) -> Option<Seq<char>> {
    match id {
        Some(k) => match first_position(provider_ids(providers), k) {
            Some(p) => opt_text(providers[p].name),
            None => None,
        },
        None => None,
    }
}

/// `rec` is the export of `r`.
pub open spec fn is_rating_record(rec: RatingShort, r: RatingRow, providers: Seq<ProviderRow>) -> bool {
    &&& rec.id == r.id
    &&& rec.value == r.value
    &&& opt_text(rec.ware_id) == opt_text(r.ware_id)
    &&& rec.spam@ == bool_text(r.spam)
    &&& rec.provider_id == r.provider_id
    &&& opt_text(rec.provider_name) == first_provider_name(providers, r.provider_id)
    &&& rec.created_at == r.created_at
    &&& rec.created_on == opt_date(r.created_at)
    &&& rec.request_id == r.request_id
    &&& rec.order_id == r.order_id
    &&& opt_text(rec.comment) == opt_text(r.comment)
    &&& rec.organization_id == r.organization_id
    &&& rec.user_id == r.user_id
}

/// The task that exports the ratings.
pub struct RatingTask {}

impl RatingTask {
    /// The export of one rating.
    pub fn record(r: &RatingRow, providers: &Vec<ProviderRow>, ids: &Vec<i32>) -> (rec: RatingShort)
        requires
            ids@ == provider_ids(providers@),
        ensures
            is_rating_record(rec, *r, providers@),
    {
        let provider_name = match r.provider_id {
            Some(k) => match find_first(ids, k) {
                Some(p) => {
                    proof {
                        lemma_first_position(ids@, k);
                    }
                    clone_opt_text(&providers[p].name)
                },
                None => None,
            },
            None => None,
        };
        RatingShort {
            id: r.id,
            value: r.value,
            ware_id: clone_opt_text(&r.ware_id),
            spam: bool_to_text(r.spam),
            provider_id: r.provider_id,
            provider_name,
            created_at: r.created_at,
            created_on: date_of(r.created_at),
            request_id: r.request_id,
            order_id: r.order_id,
            comment: clone_opt_text(&r.comment),
            organization_id: r.organization_id,
            user_id: r.user_id,
        }
    }

    /// The exports of the ratings that are not spam, in their order.
    pub fn records(ratings: &Vec<RatingRow>, providers: &Vec<ProviderRow>) -> (r: Vec<RatingShort>)
        ensures
            r.len() == non_spam(ratings@).len(),
            forall|i: int| 0 <= i < r.len() ==> is_rating_record(#[trigger] r@[i], non_spam(ratings@)[i], providers@),
    {
        let ids = crate::orders::ids_of_providers(providers);
        let mut r: Vec<RatingShort> = Vec::new();
        let mut i: usize = 0;
        while i < ratings.len()
            invariant
                i <= ratings.len(),
                ids@ == provider_ids(providers@),
                r.len() == non_spam(ratings@.take(i as int)).len(),
                forall|j: int| 0 <= j < r.len() ==> is_rating_record(#[trigger] r@[j], non_spam(ratings@.take(i as int))[j], providers@),
            decreases ratings.len() - i,
        {
            assert(ratings@.take(i + 1).drop_last() =~= ratings@.take(i as int));
            if !ratings[i].spam {
                r.push(RatingTask::record(&ratings[i], providers, &ids));
            }
            i += 1;
        }
        assert(ratings@.take(ratings.len() as int) =~= ratings@);
        r
    }
}

/// No exported rating is spam.
pub proof fn law_no_spam_exported(ratings: Seq<RatingRow>, i: int)
    requires
        0 <= i < non_spam(ratings).len(),
    ensures
        !non_spam(ratings)[i].spam,
    decreases ratings.len(),
{
    if ratings.len() > 0 {
        let rest = non_spam(ratings.drop_last());
        if i < rest.len() {
            law_no_spam_exported(ratings.drop_last(), i);
        }
    }
}

/// Exactly the ratings that are not spam are exported, in their order:
/// whether a rating is exported depends on no other field, and every rating
/// that is not spam is exported.
pub proof fn law_export_is_the_ratings_not_spam(ratings: Seq<RatingRow>)
    ensures
        non_spam(ratings) == ratings.filter(|r: RatingRow| !r.spam),
        forall|i: int| 0 <= i < ratings.len() && !(#[trigger] ratings[i]).spam ==> non_spam(ratings).contains(ratings[i]),
    decreases ratings.len(),
{
    reveal(Seq::filter);
    if ratings.len() > 0 {
        law_export_is_the_ratings_not_spam(ratings.drop_last());
    }
    assert forall|i: int| 0 <= i < ratings.len() && !(#[trigger] ratings[i]).spam implies non_spam(ratings).contains(ratings[i]) by {
        ratings.lemma_filter_contains(|r: RatingRow| !r.spam, i);
    }
}

/// Each copied column of the export is the same-named column of its row,
/// and each flag is written as `true` or `false`.
pub proof fn law_rating_record_columns(rec: RatingShort, r: RatingRow, providers: Seq<ProviderRow>)
    requires
        is_rating_record(rec, r, providers),
    ensures
        rec.id == r.id,
        rec.value == r.value,
        opt_text(rec.ware_id) == opt_text(r.ware_id),
        rec.spam@ == bool_text(r.spam),
        rec.provider_id == r.provider_id,
        rec.created_at == r.created_at,
        rec.request_id == r.request_id,
        rec.order_id == r.order_id,
        opt_text(rec.comment) == opt_text(r.comment),
        rec.organization_id == r.organization_id,
        rec.user_id == r.user_id,
{
}

} // verus!
