//! The request handlers: the decisions behind the three routes of the signup
//! site — list, create, delete — as verified functions over the store. Store
//! failures never escape: every outcome is a flash message or a renderable
//! context.

use vstd::prelude::*;
use crate::context::{Context, flash_says};
use crate::entry::WaitlistEntry;
use crate::store::{contains_email, Store, StoreError};

verus! {

/// The candidate entry passes form validation: its email is non-empty. This
/// is the only validation; no store call is made for a rejected entry.
pub fn validate_new(entry: &WaitlistEntry) -> (ok: bool)
    ensures
        ok == (entry@.email.len() > 0),
{
    !entry.email.as_str().is_empty()
}

/// The flash of a rejected submission: the email was empty.
pub fn empty_email_flash() -> (f: (String, String))
    ensures
        flash_says(f, "error"@, "Email cannot be empty"@),
{
    ("error".to_owned(), "Email cannot be empty".to_owned())
}

/// The flash reported for an insert outcome: success, or the generic
/// internal-error message — store detail is not leaked to the client.
pub fn insert_flash(r: &Result<usize, StoreError>) -> (f: (String, String))
    ensures
        r is Ok ==> flash_says(f, "success"@, "Successfully added to waitlist"@),
        r is Err ==> flash_says(f, "error"@, "Entry could not be inserted due an internal error."@),
{
    match r {
        Ok(_) => ("success".to_owned(), "Successfully added to waitlist".to_owned()),
        Err(_) => (
            "error".to_owned(),
            "Entry could not be inserted due an internal error.".to_owned(),
        ),
    }
}

/// The flash of a completed delete — also when no row matched the email; the
/// two cases are not distinguished.
pub fn delete_success_flash() -> (f: (String, String))
    ensures
        flash_says(f, "success"@, "Entry was deleted."@),
{
    ("success".to_owned(), "Entry was deleted.".to_owned())
}

/// The create handler: validates the form entry, inserts it when valid, and
/// returns the flash for the redirect to the index page. An empty email is
/// rejected before any store call; a conflicting email leaves the table
/// unchanged; otherwise the entry joins the table at its place in the
/// last-name order.
pub fn new(waitlist_form: WaitlistEntry, store: &mut Store) -> (flash: (String, String))
    requires
        old(store).wf(),
    ensures
        final(store).wf(),
        waitlist_form@.email.len() == 0 ==> final(store)@ == old(store)@
            && flash_says(flash, "error"@, "Email cannot be empty"@),
        waitlist_form@.email.len() > 0 && contains_email(old(store)@, waitlist_form@.email)
            ==> final(store)@ == old(store)@
            && flash_says(flash, "error"@, "Entry could not be inserted due an internal error."@),
        waitlist_form@.email.len() > 0 && !contains_email(old(store)@, waitlist_form@.email) ==> (
        exists|p: int|
            0 <= p <= old(store)@.len() && final(store)@ == old(store)@.insert(p, waitlist_form@))
            && flash_says(flash, "success"@, "Successfully added to waitlist"@),
{
    if !validate_new(&waitlist_form) {
        empty_email_flash()
    } else {
        let r = store.insert(waitlist_form);
        insert_flash(&r)
    }
}

/// The delete handler over the library's own store: removes the row with the
/// email, if any, and returns the success flash for the redirect — a missing
/// email is a success all the same. The store itself cannot fail, so the
/// rendered error context of the fallible path is never returned here; a
/// caller whose store can fail builds it with `Context::err`.
pub fn delete(email: &str, store: &mut Store) -> (r: Result<(String, String), Context>)
    requires
        old(store).wf(),
    ensures
        final(store).wf(),
        r matches Ok(flash) && flash_says(flash, "success"@, "Entry was deleted."@),
        !contains_email(final(store)@, email@),
        !contains_email(old(store)@, email@) ==> final(store)@ == old(store)@,
        contains_email(old(store)@, email@) ==> (exists|i: int|
            0 <= i < old(store)@.len() && old(store)@[i].email == email@ && final(store)@
                == old(store)@.remove(i)),
{
    match store.delete_with_email(email) {
        Ok(_) => Ok(delete_success_flash()),
        Err(_) => Err(Context::err("Failed to delete entry", Ok(store.all()))),
    }
}

/// The list handler: renders the index context from an incoming flash (if a
/// prior redirect carried one) and the current table, in table order.
pub fn index(flash: Option<(String, String)>, store: &Store) -> (c: Context)
    requires
        store.wf(),
    ensures
        c.flash == flash,
        c.waitlist@.len() == store@.len(),
        forall|i: int| 0 <= i < store@.len() ==> c.waitlist@[i]@ == store@[i],
{
    Context::raw(flash, Ok(store.all()))
}

} // verus!
