//! The user export.
use crate::calendar::Timestamp;
use crate::rows::{clone_opt_text, json_member, json_member_text, json_text, opt_json_text, opt_text, JsonDocument};
use crate::text::{bool_text, bool_to_text, to_text};
use vstd::prelude::*;

verus! {

/// A loaded row of the `users` table.
pub struct UserRow {
    pub id: i32,
    pub shipping_address_id: Option<i32>,
    pub billing_address_id: Option<i32>,
    pub active: bool,
    pub company: Option<String>,
    pub email: Option<String>,
    /// The full name that the user model gives.
    pub full_name: Option<String>,
    pub sso_attributes: Option<JsonDocument>,
    pub last_request_at: Option<Timestamp>,
    pub last_sign_in_at: Option<Timestamp>,
    pub created_at: Option<Timestamp>,
    pub user_agreement_signed_at: Option<Timestamp>,
    pub expired_at: Option<Timestamp>,
    pub uuid: Option<String>,
}

/// An exported user.
pub struct UserRecord {
    pub id: i32,
    pub shipping_address_id: Option<i32>,
    pub billing_address_id: Option<i32>,
    pub active: String,
    pub company: Option<String>,
    pub email: Option<String>,
    pub full_name: Option<String>,
    pub sso_attributes: Option<String>,
    pub user_sso_email: String,
    pub last_request_at: Option<Timestamp>,
    pub last_sign_in_at: Option<Timestamp>,
    pub created_at: Option<Timestamp>,
    pub user_agreement_signed_at: Option<Timestamp>,
    pub expired_at: Option<Timestamp>,
    pub uuid: Option<String>,
}

/// The rendered `email` member of a document, `null` where there is none
/// (indexing a JSON document gives `null` for a missing member).
pub open spec fn sso_email(doc: JsonDocument) -> Seq<char> {
    match json_member(doc.members@, "email"@) {
        Some(v) => v,
        None => "null"@,
    }
}

/// The users that can be exported: those with single sign-on attributes and
/// a uuid.
pub open spec fn exportable_user(row: UserRow) -> bool {
    row.sso_attributes is Some && row.uuid is Some
}

/// `rec` is the export of `row`.
pub open spec fn is_user_record(rec: UserRecord, row: UserRow) -> bool {
    &&& rec.id == row.id
    &&& rec.shipping_address_id == row.shipping_address_id
    &&& rec.billing_address_id == row.billing_address_id
    &&& rec.active@ == bool_text(row.active)
    &&& opt_text(rec.company) == opt_text(row.company)
    &&& opt_text(rec.email) == opt_text(row.email)
    &&& opt_text(rec.full_name) == opt_text(row.full_name)
    &&& opt_text(rec.sso_attributes) == opt_json_text(row.sso_attributes)
    &&& rec.user_sso_email@ == sso_email(row.sso_attributes->0)
    &&& rec.last_request_at == row.last_request_at
    &&& rec.last_sign_in_at == row.last_sign_in_at
    &&& rec.created_at == row.created_at
    &&& rec.user_agreement_signed_at == row.user_agreement_signed_at
    &&& rec.expired_at == row.expired_at
    &&& opt_text(rec.uuid) == opt_text(row.uuid)
}

/// The task that exports the users.
pub struct UserTask {}

impl UserTask {
    /// The export of one user.
    pub fn record(u: &UserRow) -> (r: UserRecord)
        requires
            exportable_user(*u),
        ensures
            is_user_record(r, *u),
    {
        let sso = u.sso_attributes.as_ref().unwrap();
        let user_sso_email = match json_member_text(&sso.members, "email") {
            Some(v) => v,
            None => to_text("null"),
        };
        UserRecord {
            id: u.id,
            shipping_address_id: u.shipping_address_id,
            billing_address_id: u.billing_address_id,
            active: bool_to_text(u.active),
            company: clone_opt_text(&u.company),
            email: clone_opt_text(&u.email),
            full_name: clone_opt_text(&u.full_name),
            sso_attributes: json_text(&u.sso_attributes),
            user_sso_email,
            last_request_at: u.last_request_at,
            last_sign_in_at: u.last_sign_in_at,
            created_at: u.created_at,
            user_agreement_signed_at: u.user_agreement_signed_at,
            expired_at: u.expired_at,
            uuid: clone_opt_text(&u.uuid),
        }
    }

    /// The exports of the users, in their order.
    pub fn records(users: &Vec<UserRow>) -> (r: Vec<UserRecord>)
        requires
            forall|i: int| 0 <= i < users.len() ==> exportable_user(#[trigger] users@[i]),
        ensures
            r.len() == users.len(),
            forall|i: int| 0 <= i < users.len() ==> is_user_record(#[trigger] r@[i], users@[i]),
    {
        let mut r: Vec<UserRecord> = Vec::new();
        let mut i: usize = 0;
        while i < users.len()
            invariant
                i <= users.len(),
                r.len() == i,
                forall|j: int| 0 <= j < users.len() ==> exportable_user(#[trigger] users@[j]),
                forall|j: int| 0 <= j < i ==> is_user_record(#[trigger] r@[j], users@[j]),
            decreases users.len() - i,
        {
            r.push(UserTask::record(&users[i]));
            i += 1;
        }
        r
    }
}

/// Each copied column of the export is the same-named column of its row,
/// and each flag is written as `true` or `false`.
pub proof fn law_user_record_columns(rec: UserRecord, row: UserRow)
    requires
        is_user_record(rec, row),
    ensures
        rec.id == row.id,
        rec.shipping_address_id == row.shipping_address_id,
        rec.billing_address_id == row.billing_address_id,
        rec.active@ == bool_text(row.active),
        opt_text(rec.company) == opt_text(row.company),
        opt_text(rec.email) == opt_text(row.email),
        opt_text(rec.full_name) == opt_text(row.full_name),
        rec.last_request_at == row.last_request_at,
        rec.last_sign_in_at == row.last_sign_in_at,
        rec.created_at == row.created_at,
        rec.user_agreement_signed_at == row.user_agreement_signed_at,
        rec.expired_at == row.expired_at,
        opt_text(rec.uuid) == opt_text(row.uuid),
{
}

} // verus!
