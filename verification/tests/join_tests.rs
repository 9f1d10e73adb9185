use dracula_tasks::calendar::{CalendarDate, Timestamp};
use dracula_tasks::invoices::{InvoiceRow, InvoiceSources, InvoiceTask};
use dracula_tasks::money::{CurrencyRow, CurrencyTask, ShippingRow, TaxRow, TaxTask};
use dracula_tasks::orders::{OrderRow, OrderSources, OrderTask, TimepointRow};
use dracula_tasks::proposals::{ProposalPageTask, ProposalRow, ProposalSources, TurnAroundTimeRow};
use dracula_tasks::providers::ProviderRow;
use dracula_tasks::purchase_orders::{ActionItemRow, PurchaseOrderRow, PurchaseOrderSources, PurchaseOrderTask};
use dracula_tasks::ratings::{RatingRow, RatingTask};
use dracula_tasks::requests::RequestRow;
use dracula_tasks::users::UserRow;

fn s(x: &str) -> Option<String> {
    Some(x.to_string())
}

fn date(y: i32, m: u32, d: u32) -> CalendarDate {
    CalendarDate::from_ymd_opt(y, m, d).unwrap()
}

fn at(y: i32, m: u32, d: u32, hour: u32, minute: u32, second: u32) -> Timestamp {
    Timestamp { date: date(y, m, d), hour, minute, second, nanosecond: 0 }
}

fn provider(id: i32, name: &str) -> ProviderRow {
    ProviderRow {
        id,
        name: s(name),
        slug: None,
        uuid: s("p-uuid"),
        created_at: None,
        certifications: vec![],
        setup: vec![],
        tier: None,
        contact_emails: Some(vec![]),
        sales_email: None,
        phone_number: None,
        ads_advertiser_id: None,
        website: None,
        number_of_employees: None,
        type_of_company: None,
    }
}

fn user(id: i32, email: &str) -> UserRow {
    UserRow {
        id,
        shipping_address_id: None,
        billing_address_id: None,
        active: true,
        company: None,
        email: s(email),
        full_name: None,
        sso_attributes: None,
        last_request_at: None,
        last_sign_in_at: None,
        created_at: None,
        user_agreement_signed_at: None,
        expired_at: None,
        uuid: None,
    }
}

fn request(id: i32, user_id: Option<i32>, organization_id: Option<i32>) -> RequestRow {
    RequestRow {
        id,
        name: None,
        quantity: 1,
        request_type: None,
        reason_for_cancelling: None,
        filters: None,
        closed: false,
        cancelled: false,
        on_hold: false,
        status: None,
        exclude: false,
        ordered_at: None,
        user_id,
        ware_id: None,
        organization_id,
        uuid: "r-uuid".to_string(),
        created_at: None,
        updated_at: None,
        description: None,
    }
}

fn timepoint(id: i32, name: &str, when: Timestamp) -> TimepointRow {
    TimepointRow { id, name: s(name), date: Some(when), order_id: Some(id) }
}

fn order(id: i32, provider_id: Option<i32>, request_id: Option<i32>) -> OrderRow {
    OrderRow {
        id,
        provider_id,
        request_id,
        client_id: Some(40),
        obligations: s("[]"),
        state: "open".to_string(),
        declined: false,
        order_cancelled: false,
        request_cancelled: true,
        last_computed_status: None,
        uuid: "o-uuid".to_string(),
        created_at: None,
        updated_at: None,
    }
}

#[test]
fn orders_join_the_last_row_of_each_source() {
    let sources = OrderSources {
        providers: vec![provider(1, "Acme"), provider(1, "Acme Labs")],
        users: vec![user(5, "old@x.org"), user(5, "new@x.org")],
        requests: vec![request(10, Some(5), Some(7))],
        timepoints: vec![
            timepoint(3, "review date", at(2021, 3, 4, 10, 0, 0)),
            timepoint(100, "approval date", at(2021, 5, 6, 23, 59, 59)),
        ],
    };
    let orders = vec![order(3, Some(1), Some(10)), order(100, None, Some(11)), order(8, Some(2), Some(10))];
    let rs = OrderTask::records(&orders, &sources);
    assert_eq!(rs.len(), 3);
    assert_eq!(rs[0].provider_name.as_deref(), Some("Acme Labs"));
    assert_eq!(rs[0].user_email.as_deref(), Some("new@x.org"));
    assert_eq!(rs[0].organization_id, Some(7));
    assert_eq!(rs[0].review_date, Some(date(2021, 3, 4)));
    assert_eq!(rs[0].approval_date, None);
    assert_eq!(rs[0].client_id, Some(40));
    assert_eq!(rs[0].request_cancelled, true);
    assert_eq!(rs[1].provider_name, None);
    assert_eq!(rs[1].user_email, None);
    assert_eq!(rs[1].organization_id, None);
    assert_eq!(rs[1].approval_date, Some(date(2021, 5, 6)));
    assert_eq!(rs[1].review_date, None);
    assert_eq!(rs[1].submission_date, None);
    assert_eq!(rs[1].completion_date, None);
    assert_eq!(rs[2].provider_name, None);
    assert_eq!(rs[2].approval_date, None);
    for r in &rs {
        let dates = [r.approval_date, r.review_date, r.submission_date, r.completion_date];
        assert!(dates.iter().filter(|d| d.is_some()).count() <= 1);
    }
    assert_eq!(OrderTask::provider_ids(&orders), vec![1, 0, 2]);
    assert_eq!(OrderTask::request_ids(&orders), vec![10, 11, 10]);
}

fn rating(id: i32, spam: bool, provider_id: Option<i32>) -> RatingRow {
    RatingRow {
        id,
        value: 4,
        ware_id: s("w1"),
        spam,
        provider_id,
        created_at: Some(at(2022, 2, 28, 13, 5, 0)),
        request_id: None,
        order_id: Some(9),
        comment: None,
        organization_id: None,
        user_id: Some(2),
    }
}

#[test]
fn ratings_drop_spam_and_take_the_first_provider() {
    let providers = vec![provider(2, "First"), provider(2, "Second")];
    let ratings = vec![rating(1, false, Some(2)), rating(2, true, Some(2)), rating(3, false, None)];
    let rs = RatingTask::records(&ratings, &providers);
    assert_eq!(rs.len(), 2);
    assert_eq!(rs[0].id, 1);
    assert_eq!(rs[0].provider_name.as_deref(), Some("First"));
    assert_eq!(rs[0].spam, "false");
    assert_eq!(rs[0].created_on, Some(date(2022, 2, 28)));
    assert_eq!(rs[1].id, 3);
    assert_eq!(rs[1].provider_name, None);
}

fn proposal(id: i32, active: bool, order_id: Option<i32>, created_at: Option<Timestamp>) -> ProposalRow {
    ProposalRow {
        id,
        active,
        proposal_type: None,
        exclude: false,
        justifications: Some(vec!["cost".to_string(), "speed".to_string()]),
        user_full_name: s("Ann"),
        provider_id: Some(2),
        created_at,
        updated_at: None,
        tax_category: None,
        order_id,
        type_: None,
        obsoleted: true,
        state: None,
        ware_id: None,
        user_id: None,
        uuid: s("pr-uuid"),
        description: "d".to_string(),
        status: None,
    }
}

fn currency(id: i32, owner: i32, name: Option<&str>) -> CurrencyRow {
    CurrencyRow {
        id,
        exchangable_id: Some(owner),
        exchangable_type: None,
        currency: name.map(|n| n.to_string()),
        conversion_set_at: None,
        conversion_history: None,
        created_at: None,
        updated_at: None,
    }
}

fn tax(id: i32, owner: i32, type_: Option<&str>) -> TaxRow {
    TaxRow {
        id,
        taxable_id: Some(owner),
        taxable_type: None,
        category: None,
        currency: None,
        description: None,
        locale: None,
        notes: None,
        created_at: None,
        updated_at: None,
        type_: type_.map(|t| t.to_string()),
    }
}

fn shipping(id: i32, owner: Option<i32>) -> ShippingRow {
    ShippingRow {
        id,
        shipable_id: owner,
        shipable_type: None,
        free_shipping: false,
        currency: None,
        notes: None,
        created_at: None,
        updated_at: None,
    }
}

#[test]
fn proposals_default_currency_and_turnaround_and_deduct_tax_after_june_2018() {
    let sources = ProposalSources {
        currencies: vec![currency(1, 20, Some("EUR")), currency(2, 20, Some("GBP"))],
        turn_around_times: vec![TurnAroundTimeRow {
            turnaroundable_id: Some(20),
            min: Some(3),
            max: Some(9),
            display_units: s("days"),
        }],
        taxes: vec![tax(1, 21, None)],
        providers: vec![provider(2, "Acme")],
    };
    let proposals = vec![
        proposal(20, true, Some(1), Some(at(2018, 6, 1, 0, 0, 1))),
        proposal(21, true, Some(1), Some(at(2018, 6, 1, 0, 0, 0))),
        proposal(22, false, Some(1), None),
        proposal(23, true, None, None),
        proposal(24, true, Some(2), None),
    ];
    let rs = ProposalPageTask::records(&proposals, &sources);
    assert_eq!(rs.len(), 3);
    assert_eq!(rs[0].id, 20);
    assert_eq!(rs[0].currency_name, "GBP");
    assert_eq!(rs[0].currency, Some(1));
    assert_eq!(rs[0].min_turnaround_time, Some(3));
    assert_eq!(rs[0].max_turnaround_time, Some(9));
    assert_eq!(rs[0].display_units.as_deref(), Some("days"));
    assert!(rs[0].tax_deducted);
    assert_eq!(rs[0].tax, None);
    assert_eq!(rs[0].justifications, "cost, speed");
    assert_eq!(rs[0].active, "true");
    assert_eq!(rs[0].obsoleted, "true");
    assert_eq!(rs[0].provider_name.as_deref(), Some("Acme"));
    assert_eq!(rs[1].id, 21);
    assert_eq!(rs[1].currency_name, "USD");
    assert_eq!(rs[1].currency, None);
    assert_eq!(rs[1].min_turnaround_time, Some(0));
    assert_eq!(rs[1].max_turnaround_time, Some(0));
    assert_eq!(rs[1].display_units.as_deref(), Some("None"));
    assert!(!rs[1].tax_deducted);
    assert_eq!(rs[1].tax, Some(0));
    assert_eq!(rs[1].created_on, Some(date(2018, 6, 1)));
    assert_eq!(rs[2].id, 24);
    assert!(!rs[2].tax_deducted);
}

fn invoice(id: i32, document_type: &str) -> InvoiceRow {
    InvoiceRow {
        id,
        invoice_number: s("INV-1"),
        issued_at: None,
        purchase_order_id: Some(3),
        created_at: Some(at(2020, 12, 31, 23, 0, 0)),
        document_type: document_type.to_string(),
        provider_id: None,
        order_id: None,
        cancelled: false,
        uuid: s("i-uuid"),
        approved_for_payment: Some(true),
        discount: None,
    }
}

#[test]
fn invoices_take_the_first_currency_and_shipping() {
    let sources = InvoiceSources {
        currencies: vec![currency(1, 5, Some("CHF")), currency(2, 6, None), currency(3, 5, Some("EUR"))],
        taxes: vec![],
        shippings: vec![shipping(1, Some(6)), shipping(2, Some(5)), shipping(3, Some(5))],
    };
    let invoices = vec![invoice(5, "standard"), invoice(6, "credit_note")];
    let rs = InvoiceTask::records(&invoices, &sources);
    assert_eq!(rs.len(), 2);
    assert_eq!(rs[0].currency_name, "CHF");
    assert_eq!(rs[0].currency, 0);
    assert_eq!(rs[0].shipping, 1);
    assert!(rs[0].standard);
    assert_eq!(rs[0].cancelled, "false");
    assert_eq!(rs[0].created_on, Some(date(2020, 12, 31)));
    assert_eq!(rs[1].currency_name, "USD");
    assert_eq!(rs[1].currency, 1);
    assert_eq!(rs[1].shipping, 0);
    assert!(!rs[1].standard);
}

fn purchase_order(id: i32, po_number: Option<&str>, created: Option<Timestamp>) -> PurchaseOrderRow {
    PurchaseOrderRow {
        id,
        ad_po_number: s("own"),
        po_number: po_number.map(|n| n.to_string()),
        po_created_at: created,
        created_at: None,
        proposal_id: Some(50),
        provider_id: Some(2),
        justifications: vec!["a".to_string(), "b".to_string()],
        order_id: None,
        provider_shipping_address_id: None,
        customer_shipping_address_id: None,
        cpo_id: None,
        uuid: s("po-uuid"),
        rejected: Some(false),
        obsoleted: Some(true),
        type_: None,
        supplier_updated: None,
        updated_at: None,
        user_id: None,
        payment_terms: Some(30),
        request_id: None,
        status: s("sent"),
    }
}

#[test]
fn purchase_orders_report_numbered_rows_with_their_joins() {
    let mut ppo = purchase_order(90, Some("P"), None);
    ppo.cpo_id = Some(1);
    ppo.ad_po_number = s("AD-90");
    let sources = PurchaseOrderSources {
        provider_purchase_orders: vec![ppo],
        currencies: vec![currency(1, 1, Some("JPY"))],
        providers: vec![provider(2, "Acme")],
        action_items: vec![
            ActionItemRow { order_id: Some(6), provider_id: s("sup-other") },
            ActionItemRow { order_id: Some(4), provider_id: s("sup-first") },
            ActionItemRow { order_id: Some(4), provider_id: s("sup-later") },
        ],
        shippings: vec![shipping(1, Some(1)), shipping(2, Some(2))],
        taxes: vec![tax(1, 2, None)],
        proposal_taxes: vec![tax(1, 50, Some("Pg::VatTax")), tax(2, 50, Some("Pg::RetailTax"))],
        proposal_shippings: vec![shipping(1, Some(50))],
    };
    let when = Some(at(2019, 7, 8, 9, 10, 11));
    let mut first = purchase_order(1, Some("PO-1"), when);
    first.order_id = Some(4);
    let pos = vec![
        first,
        purchase_order(2, None, when),
        purchase_order(3, Some("PO-3"), None),
        purchase_order(2, Some("PO-2"), when),
    ];
    let rs = PurchaseOrderTask::records(&pos, &sources);
    assert_eq!(rs.len(), 2);
    assert_eq!(rs[0].id, 1);
    assert_eq!(rs[0].ad_po_number.as_deref(), Some("AD-90"));
    assert_eq!(rs[0].currency.as_deref(), Some("JPY"));
    assert_eq!(rs[0].currency_position, Some(0));
    assert_eq!(rs[0].supplier_id.as_deref(), Some("sup-first"));
    assert_eq!(rs[0].provider_name.as_deref(), Some("Acme"));
    assert_eq!(rs[0].justifications, "a, b");
    assert_eq!(rs[0].rejected.as_deref(), Some("false"));
    assert_eq!(rs[0].obsoleted.as_deref(), Some("true"));
    assert_eq!(rs[0].po_submission_date, Some(date(2019, 7, 8)));
    assert_eq!(rs[0].shipping, 0);
    assert_eq!(rs[0].proposal_shipping, Some(0));
    assert_eq!(rs[0].proposal_tax, Some(1));
    assert_eq!(rs[0].tax, None);
    assert_eq!(rs[1].id, 2);
    assert_eq!(rs[1].ad_po_number.as_deref(), Some("own"));
    assert_eq!(rs[1].supplier_id, None);
    assert_eq!(rs[1].currency, None);
    assert_eq!(rs[1].shipping, 1);
    assert_eq!(rs[1].tax, Some(0));
}

#[test]
fn purchase_orders_ignore_a_vat_proposal_tax() {
    let sources = PurchaseOrderSources {
        provider_purchase_orders: vec![],
        currencies: vec![],
        providers: vec![],
        action_items: vec![ActionItemRow { order_id: Some(4), provider_id: s("s4") }],
        shippings: vec![shipping(1, Some(1))],
        taxes: vec![],
        proposal_taxes: vec![tax(1, 50, Some("Pg::RetailTax")), tax(2, 50, Some("Pg::VatTax"))],
        proposal_shippings: vec![],
    };
    let mut po = purchase_order(1, Some("PO-1"), Some(at(2019, 1, 1, 0, 0, 0)));
    po.order_id = Some(4);
    let rs = PurchaseOrderTask::records(&vec![po], &sources);
    assert_eq!(rs.len(), 1);
    assert_eq!(rs[0].proposal_tax, None);
    assert_eq!(rs[0].proposal_shipping, None);
    assert_eq!(rs[0].supplier_id.as_deref(), Some("s4"));
    assert_eq!(rs[0].provider_name, None);
}

#[test]
fn currencies_and_taxes_copy_their_rows() {
    let cs = CurrencyTask::records(&vec![currency(7, 8, Some("EUR"))]);
    assert_eq!(cs.len(), 1);
    assert_eq!(cs[0].id, 7);
    assert_eq!(cs[0].exchangable_id, Some(8));
    assert_eq!(cs[0].currency.as_deref(), Some("EUR"));
    let ts = TaxTask::records(&vec![tax(3, 4, Some("Pg::RetailTax"))]);
    assert_eq!(ts.len(), 1);
    assert_eq!(ts[0].taxable_id, Some(4));
    assert_eq!(ts[0].type_.as_deref(), Some("Pg::RetailTax"));
}
