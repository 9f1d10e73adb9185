use dracula_tasks::providers::{trim_start_text, ProviderRow, ProviderTask};

fn setup(v: &[&str]) -> Vec<String> {
    v.iter().map(|s| s.to_string()).collect()
}

fn completeness(v: &[&str]) -> i32 {
    let text = ProviderTask::setup_text(&setup(v));
    ProviderTask::percent_completeness(&text)
}

#[test]
fn every_known_step_counts_twenty() {
    assert_eq!(completeness(&[]), 0);
    assert_eq!(completeness(&["Create Account"]), 20);
    assert_eq!(completeness(&["Create Account", "Add Addresses"]), 40);
    assert_eq!(
        completeness(&["Create Account", "Update Company Profile", "Add Addresses", "Add Certifications", "Add Accounting Details"]),
        100
    );
}

#[test]
fn unknown_steps_count_nothing_and_repeats_count_again() {
    assert_eq!(completeness(&["Say Hello"]), 0);
    assert_eq!(completeness(&["Add Addresses", "Add Addresses"]), 40);
    assert_eq!(completeness(&["add addresses"]), 0);
}

#[test]
fn checked_completeness_agrees_where_it_fits() {
    assert_eq!(ProviderTask::checked_percent_completeness("Create Account, Add Addresses"), Some(40));
    assert_eq!(ProviderTask::checked_percent_completeness(""), Some(0));
    assert_eq!(ProviderTask::checked_percent_completeness(" Add Certifications,Add Accounting Details,x"), Some(40));
}

#[test]
fn a_step_named_with_a_comma_counts_as_its_parts() {
    assert_eq!(completeness(&["Create Account,Add Addresses"]), 40);
    assert_eq!(completeness(&["Create Account, Add Addresses", "Add Certifications"]), 60);
}

#[test]
fn steps_are_split_at_commas_and_trimmed_at_the_start() {
    assert_eq!(ProviderTask::percent_completeness("  Add Addresses,\tCreate Account"), 40);
    assert_eq!(ProviderTask::percent_completeness("Add Addresses ,Create Account"), 20);
    assert_eq!(ProviderTask::percent_completeness("Create Account,Add Addresses"), 40);
    assert_eq!(ProviderTask::percent_completeness(",,"), 0);
    assert_eq!(trim_start_text("\u{3000} x "), "x ");
}

fn provider(id: i32, name: &str) -> ProviderRow {
    ProviderRow {
        id,
        name: Some(name.to_string()),
        slug: None,
        uuid: Some("u-1".to_string()),
        created_at: None,
        certifications: setup(&["ISO 9001", "GMP"]),
        setup: setup(&["Create Account", "Add Certifications"]),
        tier: Some(2),
        contact_emails: Some(setup(&["a@x.org", "b@x.org"])),
        sales_email: None,
        phone_number: None,
        ads_advertiser_id: None,
        website: None,
        number_of_employees: None,
        type_of_company: None,
    }
}

#[test]
fn provider_record_joins_its_lists() {
    let rs = ProviderTask::records(&vec![provider(7, "Acme")]);
    assert_eq!(rs.len(), 1);
    assert_eq!(rs[0].certifications, "ISO 9001, GMP");
    assert_eq!(rs[0].contact_emails, "a@x.org, b@x.org");
    assert_eq!(rs[0].percent_completeness, 40);
    assert_eq!(rs[0].uuid.as_deref(), Some("u-1"));
    assert_eq!(rs[0].name.as_deref(), Some("Acme"));
}
