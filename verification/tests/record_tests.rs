use dracula_tasks::calendar::{CalendarDate, Timestamp};
use dracula_tasks::catalog::{AddressRow, OrganizationRow, OrganizationTask, TinyAddress};
use dracula_tasks::events::{EventEmailTask, EventRow, EventTask};
use dracula_tasks::milestones::{MilestoneRow, MilestoneTask};
use dracula_tasks::money::{ShippingRow, ShippingTask};
use dracula_tasks::refs_users::{RefRow, RefsUserTaskPart};
use dracula_tasks::requests::{RequestRow, RequestTask};
use dracula_tasks::rows::JsonDocument;
use dracula_tasks::users::{UserRow, UserTask};

fn s(x: &str) -> Option<String> {
    Some(x.to_string())
}

fn date(y: i32, m: u32, d: u32) -> CalendarDate {
    CalendarDate::from_ymd_opt(y, m, d).unwrap()
}

fn event(id: i64, session: Option<&str>, email: Option<&str>) -> EventRow {
    EventRow {
        id,
        event: s("click"),
        email: email.map(|e| e.to_string()),
        username: None,
        application: s("web"),
        remote_addr: None,
        host: None,
        action: None,
        controller: None,
        session_id: session.map(|x| x.to_string()),
        computer_id: None,
        query: None,
        raw_post: None,
        source: Some(vec!["search".to_string(), "catalog".to_string()]),
        providers: s("[1,2]"),
        uuid: "e-uuid".to_string(),
        datetime: None,
        created_at: None,
        updated_at: None,
        organization_id: Some(3),
    }
}

#[test]
fn events_take_the_first_email_of_their_session() {
    let rows = vec![
        event(1, Some("s1"), None),
        event(2, Some("s1"), Some("a@x.org")),
        event(3, Some("s2"), Some("b@x.org")),
        event(4, Some("s1"), Some("c@x.org")),
        event(5, None, Some("d@x.org")),
        event(6, Some("s3"), None),
    ];
    let rs = EventEmailTask::records(&rows);
    let emails: Vec<Option<&str>> = rs.iter().map(|r| r.full_email.as_deref()).collect();
    assert_eq!(emails, vec![Some("a@x.org"), Some("a@x.org"), Some("b@x.org"), Some("a@x.org"), None, None]);
    assert_eq!(rs[0].application.as_deref(), Some(""));
    assert_eq!(rs[0].categories, "search, catalog");
    assert_eq!(rs[0].source, "search, catalog");
    assert_eq!(rs[0].organization_id, Some(3));
}

#[test]
fn event_categories_repeat_the_source() {
    let mut row = event(9, None, None);
    row.source = None;
    let r = EventTask::record(&row);
    assert_eq!(r.categories, "");
    assert_eq!(r.source, "");
    assert_eq!(r.application.as_deref(), Some("web"));
    let rs = EventTask::records(&vec![event(1, None, None), event(2, None, None)]);
    assert_eq!(rs.iter().map(|r| r.id).collect::<Vec<_>>(), vec![1, 2]);
    assert_eq!(rs[1].providers.as_deref(), Some("[1,2]"));
}

fn request(filters: Option<Vec<Option<String>>>) -> RequestRow {
    RequestRow {
        id: 1,
        name: s("req"),
        quantity: 3,
        request_type: None,
        reason_for_cancelling: None,
        filters,
        closed: true,
        cancelled: false,
        on_hold: true,
        status: s("open"),
        exclude: false,
        ordered_at: None,
        user_id: Some(4),
        ware_id: None,
        organization_id: Some(5),
        uuid: "r-uuid".to_string(),
        created_at: None,
        updated_at: None,
        description: None,
    }
}

#[test]
fn request_filters_default_to_empty_text() {
    let r = RequestTask::record(&request(None));
    assert_eq!((r.filter1.as_deref(), r.filter2.as_deref(), r.filter3.as_deref()), (Some(""), Some(""), Some("")));
    let r = RequestTask::record(&request(Some(vec![s("red"), None])));
    assert_eq!((r.filter1.as_deref(), r.filter2.as_deref(), r.filter3.as_deref()), (Some("red"), Some(""), Some("")));
    let r = RequestTask::record(&request(Some(vec![s("a"), s("b"), s("c"), s("d")])));
    assert_eq!((r.filter1.as_deref(), r.filter2.as_deref(), r.filter3.as_deref()), (Some("a"), Some("b"), Some("c")));
    assert!(r.closed && r.on_hold && !r.cancelled && !r.exclude);
    assert_eq!(RequestTask::records(&vec![request(None), request(None)]).len(), 2);
}

fn members(v: &[(&str, &str)]) -> Vec<(String, String)> {
    v.iter().map(|(k, x)| (k.to_string(), x.to_string())).collect()
}

#[test]
fn user_references_strip_quotes_and_default_their_times() {
    let row = RefRow {
        id: 11,
        type_: s("Pg::UserRef"),
        reference_of_type: None,
        reference_to_id: Some(1),
        reference_of_id: None,
        created_at: None,
        updated_at: Some(Timestamp::start_of_day_of(date(2021, 1, 2))),
        fields: Some(members(&[("location", "\"Boston\""), ("email", "\"a@x.org\""), ("company", "{\"n\":1}")])),
    };
    let r = RefsUserTaskPart::record(&row);
    assert_eq!(r.location, "Boston");
    assert_eq!(r.email, "a@x.org");
    assert_eq!(r.company, "{n:1}");
    assert_eq!(r.last_name, "");
    assert_eq!(r.created_at, Some(Timestamp::start_of_day_of(date(2020, 11, 26))));
    assert_eq!(r.updated_at, Some(Timestamp::start_of_day_of(date(2021, 1, 2))));
    assert_eq!(RefsUserTaskPart::records(&vec![row]).len(), 1);
}

fn user(members_: &[(&str, &str)]) -> UserRow {
    UserRow {
        id: 2,
        shipping_address_id: None,
        billing_address_id: Some(8),
        active: true,
        company: None,
        email: s("u@x.org"),
        full_name: s("Ann Lee"),
        sso_attributes: Some(JsonDocument { text: "{...}".to_string(), members: members(members_) }),
        last_request_at: None,
        last_sign_in_at: None,
        created_at: None,
        user_agreement_signed_at: None,
        expired_at: None,
        uuid: s("u-uuid"),
    }
}

#[test]
fn user_sso_email_is_rendered_or_null() {
    let r = UserTask::record(&user(&[("email", "\"sso@x.org\"")]));
    assert_eq!(r.user_sso_email, "\"sso@x.org\"");
    assert_eq!(r.active, "true");
    assert_eq!(r.sso_attributes.as_deref(), Some("{...}"));
    let r = UserTask::record(&user(&[("name", "\"x\"")]));
    assert_eq!(r.user_sso_email, "null");
    assert_eq!(UserTask::records(&vec![user(&[])]).len(), 1);
}

#[test]
fn milestones_fill_missing_dates() {
    let t = Timestamp { date: date(2022, 3, 4), hour: 5, minute: 6, second: 7, nanosecond: 0 };
    let m = MilestoneRow {
        id: 1,
        itemizable_id: None,
        itemizable_type: None,
        _type: "Pg::Milestone".to_string(),
        name: None,
        state: "open".to_string(),
        currency: None,
        unit_of_measure: None,
        classifications: "[]".to_string(),
        line_number: None,
        comments: None,
        created_at: Some(t),
        updated_at: None,
        status: None,
        provider_id: None,
        cancelled_at: None,
        shipped_at: None,
        estimated_date: Some(t),
    };
    let r = MilestoneTask::record(&m);
    let placeholder = Timestamp::start_of_day_of(date(1, 1, 1));
    assert_eq!(r.created_at, Some(t));
    assert_eq!(r.updated_at, Some(placeholder));
    assert_eq!(r.cancelled_at, Some(placeholder));
    assert_eq!(r.shipped_at, Some(placeholder));
    assert_eq!(r.estimated_date, Some(date(2022, 3, 4)));
    let mut m2 = m;
    m2.estimated_date = None;
    assert_eq!(MilestoneTask::records(&vec![m2])[0].estimated_date, Some(date(1, 1, 1)));
}

#[test]
fn copies_keep_fields_and_render_flags() {
    let a = AddressRow {
        id: 3,
        type_: s("billing"),
        organization_name: None,
        site_name: None,
        attention: None,
        person_name: None,
        street: s("Main St"),
        street2: None,
        city: s("Lyon"),
        state: None,
        zipcode: None,
        country: s("FR"),
        created_at: None,
        addressable_id: Some(9),
        addressable_type: None,
        legal_entity_id: None,
    };
    let t = TinyAddress::from(&a);
    assert_eq!((t.id, t.city.as_deref(), t.addressable_id), (3, Some("Lyon"), Some(9)));
    let o = OrganizationRow {
        id: 1,
        name: s("Org"),
        uuid: s("o-uuid"),
        created_at: None,
        updated_at: None,
        parent_id: None,
        domain: None,
        webstore: false,
        archived_at: None,
    };
    let r = OrganizationTask::records(&vec![o]);
    assert_eq!(r[0].webstore, "false");
    assert_eq!(r[0].uuid.as_deref(), Some("o-uuid"));
    let sh = ShippingRow {
        id: 1,
        shipable_id: Some(2),
        shipable_type: None,
        free_shipping: true,
        currency: None,
        notes: None,
        created_at: None,
        updated_at: None,
    };
    assert_eq!(ShippingTask::records(&vec![sh])[0].free_shipping, "true");
}
