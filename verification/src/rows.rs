//! Helpers on the plain values of loaded rows: optional texts and lists.
use crate::calendar::{CalendarDate, Timestamp};
use crate::text::{join, join_texts};
use vstd::prelude::*;

verus! {

/// The characters of an optional text.
pub open spec fn opt_text(o: Option<String>) -> Option<Seq<char>> {
    match o {
        Some(s) => Some(s@),
        None => None,
    }
}

/// The characters of the texts of a list.
pub open spec fn texts(v: Seq<String>) -> Seq<Seq<char>> {
    v.map_values(|t: String| t@)
}

/// The items of an optional list joined by `", "`; an absent list gives `""`
/// (`unwrap_or_default().join(", ")`).
pub open spec fn joined_or_empty(o: Option<Vec<String>>) -> Seq<char> {
    match o {
        Some(v) => join(texts(v@), ", "@),
        None => Seq::empty(),
    }
}

/// The date of an optional timestamp (`map(|t| t.date())`).
pub open spec fn opt_date(o: Option<Timestamp>) -> Option<CalendarDate> {
    match o {
        Some(t) => Some(t.date),
        None => None,
    }
}

/// The members of a JSON document, each rendered as JSON text: the members of
/// an object; none for any other document.
pub type JsonMembers = Vec<(String, String)>;

/// A JSON document: its rendering, and its members where it is an object.
pub struct JsonDocument {
    pub text: String,
    pub members: JsonMembers,
}

/// The rendering of an optional document.
pub open spec fn opt_json_text(o: Option<JsonDocument>) -> Option<Seq<char>> {
    match o {
        Some(d) => Some(d.text@),
        None => None,
    }
}

/// The rendering of an optional document.
pub fn json_text(o: &Option<JsonDocument>) -> (r: Option<String>)
    ensures
        opt_text(r) == opt_json_text(*o),
{
    match o {
        Some(d) => Some(d.text.clone()),
        None => None,
    }
}

/// The rendered value of the first member named `key`.
pub open spec fn json_member(members: Seq<(String, String)>, key: Seq<char>) -> Option<Seq<char>>
    decreases members.len(),
{
    if members.len() == 0 {
        None
    } else if members[0].0@ == key {
        Some(members[0].1@)
    } else {
        json_member(members.drop_first(), key)
    }
}

/// The rendered value of the member named `key`, if any.
pub fn json_member_text(members: &JsonMembers, key: &str) -> (r: Option<String>)
    ensures
        opt_text(r) == json_member(members@, key@),
{
    let mut i: usize = 0;
    assert(members@.skip(0) =~= members@);
    while i < members.len()
        invariant
            i <= members.len(),
            json_member(members@, key@) == json_member(members@.skip(i as int), key@),
        decreases members.len() - i,
    {
        assert(members@.skip(i as int).drop_first() =~= members@.skip(i + 1));
        if crate::streaming::text_eq(members[i].0.as_str(), key) {
            return Some(members[i].1.clone());
        }
        i += 1;
    }
    None
}

/// A copy of an optional text.
pub fn clone_opt_text(o: &Option<String>) -> (r: Option<String>)
    ensures
        opt_text(r) == opt_text(*o),
{
    match o {
        Some(s) => Some(s.clone()),
        None => None,
    }
}

/// The items of an optional list joined by `", "`, or `""` when absent.
pub fn join_or_empty(o: &Option<Vec<String>>) -> (r: String)
    ensures
        r@ == joined_or_empty(*o),
{
    match o {
        Some(v) => join_texts(v, ", "),
        None => String::new(),
    }
}

/// The date of an optional timestamp.
pub fn date_of(o: Option<Timestamp>) -> (r: Option<CalendarDate>)
    ensures
        r == opt_date(o),
{
    match o {
        Some(t) => Some(t.date),
        None => None,
    }
}

} // verus!
