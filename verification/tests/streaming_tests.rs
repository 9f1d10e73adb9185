use dracula_tasks::pages::{next_page, PageIter, RecordIter};
use dracula_tasks::streaming::{InventoriesStTask, NoteStreamingTask, RefsPrStreamingTask, WPCStreamingTask};

fn names(v: &[&str]) -> Vec<String> {
    v.iter().map(|s| s.to_string()).collect()
}

#[test]
fn notes_query_casts_the_uuid() {
    let q = NoteStreamingTask::query(&names(&["id", "title", "uuid", "created_at"]));
    assert_eq!(q, "SELECT id, title, uuid::varchar, created_at FROM notes");
}

#[test]
fn provider_references_query_reads_the_fields_document() {
    let q = RefsPrStreamingTask::query(&names(&["id", "type_", "name", "slug", "score", "contract_status", "type"]));
    assert_eq!(
        q,
        "SELECT id, type as type_ , (fields->'name')::varchar as name , (fields->'slug')::varchar as slug , (fields->'score'->> 0)::float as score , (fields->'contract_status')::varchar as contract_status , type as type_ FROM refs"
    );
}

#[test]
fn wpcs_query_casts_the_booster() {
    let q = WPCStreamingTask::query(&names(&["id", "booster", "uuid"]));
    assert_eq!(q, "SELECT id, booster::float, uuid FROM wpcs");
}

#[test]
fn inventories_query_is_fixed() {
    let q = InventoriesStTask::query(&names(&["id"]));
    assert_eq!(
        q,
        "select id, inventory_group_id, data::varchar, created_at, updated_at, product_name, product_url, provider_id,uuid::varchar from inventories"
    );
    assert_eq!(InventoriesStTask::columns(&names(&["id", "uuid"])), names(&["id", "uuid::varchar"]));
}

#[test]
fn empty_column_list_gives_empty_select() {
    assert_eq!(NoteStreamingTask::query(&vec![]), "SELECT  FROM notes");
}

#[test]
fn pages_advance_by_their_size() {
    let mut p = PageIter::new(50);
    assert!(p.can_advance());
    assert_eq!(p.next_window(), (0, 50));
    assert_eq!(p.next_window(), (50, 50));
    assert_eq!(p.next_window(), (100, 50));
    let mut r = RecordIter::new();
    assert_eq!(r.next_window(), (0, 100));
    assert_eq!(r.next_window(), (100, 100));
    assert!(PageIter::f().is_ok());
}

#[test]
fn pages_stop_before_the_offset_overflows() {
    let mut p = PageIter::new(i64::MAX);
    assert_eq!(p.next_window(), (0, i64::MAX));
    assert!(p.can_advance());
    assert_eq!(p.next_window(), (i64::MAX, i64::MAX));
    assert!(!p.can_advance());
}

#[test]
fn empty_page_ends_the_paging() {
    let empty: Result<Vec<i32>, String> = Ok(vec![]);
    assert_eq!(next_page(empty), None);
    assert_eq!(next_page::<i32, String>(Ok(vec![1, 2])), Some(Ok(vec![1, 2])));
    assert_eq!(next_page::<i32, String>(Err("down".to_string())), Some(Err("down".to_string())));
}
