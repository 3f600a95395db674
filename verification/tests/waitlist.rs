use waitlist::context::Context;
use waitlist::entry::WaitlistEntry;
use waitlist::handlers;
use waitlist::store::{Store, StoreError};

fn mk(email: &str, first_name: &str, last_name: &str, notes: &str) -> WaitlistEntry {
    WaitlistEntry {
        email: email.to_owned(),
        first_name: first_name.to_owned(),
        last_name: last_name.to_owned(),
        notes: notes.to_owned(),
    }
}

#[test]
fn insert_then_list_round_trip() {
    let mut store = Store::new();
    let r = store.insert(mk("ann@example.com", "Ann", "Lee", "first in line"));
    assert_eq!(r, Ok(1));
    let rows = store.all();
    assert_eq!(rows.len(), 1);
    assert_eq!(rows[0].email, "ann@example.com");
    assert_eq!(rows[0].first_name, "Ann");
    assert_eq!(rows[0].last_name, "Lee");
    assert_eq!(rows[0].notes, "first in line");
}

#[test]
fn delete_twice_is_idempotent() {
    let mut store = Store::new();
    assert_eq!(store.insert(mk("ann@example.com", "Ann", "Lee", "")), Ok(1));
    assert_eq!(store.delete_with_email("ann@example.com"), Ok(1));
    assert_eq!(store.delete_with_email("ann@example.com"), Ok(0));
}

#[test]
fn list_orders_last_names_descending() {
    let mut store = Store::new();
    assert_eq!(store.insert(mk("a@example.com", "A", "Alpha", "")), Ok(1));
    assert_eq!(store.insert(mk("z@example.com", "Z", "Zulu", "")), Ok(1));
    assert_eq!(store.insert(mk("m@example.com", "M", "Mno", "")), Ok(1));
    let rows = store.all();
    let names: Vec<&str> = rows.iter().map(|e| e.last_name.as_str()).collect();
    assert_eq!(names, vec!["Zulu", "Mno", "Alpha"]);
}

#[test]
fn longer_last_name_sorts_before_its_prefix() {
    let mut store = Store::new();
    assert_eq!(store.insert(mk("ab@example.com", "A", "Ab", "")), Ok(1));
    assert_eq!(store.insert(mk("abc@example.com", "A", "Abc", "")), Ok(1));
    assert_eq!(store.insert(mk("none@example.com", "A", "", "")), Ok(1));
    let rows = store.all();
    let names: Vec<&str> = rows.iter().map(|e| e.last_name.as_str()).collect();
    assert_eq!(names, vec!["Abc", "Ab", ""]);
}

#[test]
fn equal_last_names_with_distinct_emails_both_stay() {
    let mut store = Store::new();
    assert_eq!(store.insert(mk("one@example.com", "One", "Lee", "")), Ok(1));
    assert_eq!(store.insert(mk("two@example.com", "Two", "Lee", "")), Ok(1));
    let rows = store.all();
    assert_eq!(rows.len(), 2);
    assert!(rows.iter().any(|e| e.email == "one@example.com"));
    assert!(rows.iter().any(|e| e.email == "two@example.com"));
}

#[test]
fn create_with_empty_email_is_rejected_without_a_store_call() {
    let mut store = Store::new();
    assert_eq!(store.insert(mk("kept@example.com", "K", "Kept", "")), Ok(1));
    let flash = handlers::new(mk("", "Ann", "Lee", ""), &mut store);
    assert_eq!(flash.0, "error");
    assert_eq!(flash.1, "Email cannot be empty");
    let rows = store.all();
    assert_eq!(rows.len(), 1);
    assert_eq!(rows[0].email, "kept@example.com");
}

#[test]
fn duplicate_email_conflicts_and_keeps_one_row() {
    let mut store = Store::new();
    assert_eq!(store.insert(mk("ann@example.com", "Ann", "Lee", "")), Ok(1));
    assert_eq!(
        store.insert(mk("ann@example.com", "Other", "Name", "")),
        Err(StoreError::Conflict)
    );
    let flash = handlers::new(mk("ann@example.com", "Third", "Try", ""), &mut store);
    assert_eq!(flash.0, "error");
    assert_eq!(flash.1, "Entry could not be inserted due an internal error.");
    let rows = store.all();
    assert_eq!(rows.len(), 1);
    assert_eq!(rows[0].first_name, "Ann");
}

#[test]
fn deleting_a_missing_email_still_reports_success() {
    let mut store = Store::new();
    assert_eq!(store.insert(mk("ann@example.com", "Ann", "Lee", "")), Ok(1));
    let out = handlers::delete("nobody@example.com", &mut store);
    let flash = out.expect("delete over the library store cannot fail");
    assert_eq!(flash.0, "success");
    assert_eq!(flash.1, "Entry was deleted.");
    assert_eq!(store.all().len(), 1);
}

#[test]
fn end_to_end_create_list_delete() {
    let mut store = Store::new();
    let flash = handlers::new(mk("ann@example.com", "Ann", "Lee", "hi"), &mut store);
    assert_eq!(flash.0, "success");
    assert_eq!(flash.1, "Successfully added to waitlist");

    let page = handlers::index(Some(flash), &store);
    assert!(page.waitlist.iter().any(|e| e.email == "ann@example.com"));

    let out = handlers::delete("ann@example.com", &mut store);
    let flash = out.expect("delete over the library store cannot fail");
    assert_eq!(flash.1, "Entry was deleted.");

    let page = handlers::index(Some(flash), &store);
    assert!(!page.waitlist.iter().any(|e| e.email == "ann@example.com"));
    assert!(page.waitlist.is_empty());
}

#[test]
fn index_passes_an_incoming_flash_through() {
    let mut store = Store::new();
    assert_eq!(store.insert(mk("ann@example.com", "Ann", "Lee", "")), Ok(1));
    let page = handlers::index(Some(("success".to_owned(), "hello".to_owned())), &store);
    assert_eq!(page.flash, Some(("success".to_owned(), "hello".to_owned())));
    assert_eq!(page.waitlist.len(), 1);
    let page = handlers::index(None, &store);
    assert_eq!(page.flash, None);
}

#[test]
fn context_raw_substitutes_an_error_flash_on_a_failed_listing() {
    let c = Context::raw(
        Some(("success".to_owned(), "hello".to_owned())),
        Err(StoreError::ConnectionOrQuery),
    );
    assert_eq!(
        c.flash,
        Some(("error".to_owned(), "Fail to access database.".to_owned()))
    );
    assert!(c.waitlist.is_empty());
}

#[test]
fn context_raw_keeps_flash_and_rows_on_a_good_listing() {
    let rows = vec![mk("ann@example.com", "Ann", "Lee", "")];
    let c = Context::raw(None, Ok(rows));
    assert_eq!(c.flash, None);
    assert_eq!(c.waitlist.len(), 1);
    assert_eq!(c.waitlist[0].email, "ann@example.com");
}

#[test]
fn context_err_carries_the_message_over_the_fallback_list() {
    let rows = vec![mk("ann@example.com", "Ann", "Lee", "")];
    let c = Context::err("Failed to delete entry", Ok(rows));
    assert_eq!(
        c.flash,
        Some(("error".to_owned(), "Failed to delete entry".to_owned()))
    );
    assert_eq!(c.waitlist.len(), 1);

    let c = Context::err("Failed to delete entry", Err(StoreError::ConnectionOrQuery));
    assert_eq!(
        c.flash,
        Some(("error".to_owned(), "Failed to delete entry".to_owned()))
    );
    assert!(c.waitlist.is_empty());
}

#[test]
fn delete_all_empties_the_table() {
    let mut store = Store::new();
    assert_eq!(store.insert(mk("a@example.com", "A", "Alpha", "")), Ok(1));
    assert_eq!(store.insert(mk("b@example.com", "B", "Beta", "")), Ok(1));
    assert_eq!(store.delete_all(), Ok(2));
    assert!(store.all().is_empty());
}

#[test]
fn validate_new_checks_only_the_email() {
    assert!(!handlers::validate_new(&mk("", "Ann", "Lee", "notes")));
    assert!(handlers::validate_new(&mk("a@b", "", "", "")));
}

#[test]
fn entry_duplicate_copies_every_field() {
    let e = mk("ann@example.com", "Ann", "Lee", "hi");
    let d = e.duplicate();
    assert_eq!(d.email, e.email);
    assert_eq!(d.first_name, e.first_name);
    assert_eq!(d.last_name, e.last_name);
    assert_eq!(d.notes, e.notes);
}
