//! The view context: what the index page is rendered from. Pure assembly of
//! a flash message and a listing result; no side effects.

use vstd::prelude::*;
use crate::entry::WaitlistEntry;
use crate::store::StoreError;

verus! {

/// The flash pair carries this severity and message.
pub open spec fn flash_says(f: (String, String), severity: Seq<char>, message: Seq<char>) -> bool {
    f.0@ == severity && f.1@ == message
}

/// The optional flash is present and carries this severity and message.
pub open spec fn opt_flash_says(
    f: Option<(String, String)>,
    severity: Seq<char>,
    message: Seq<char>,
) -> bool {
    f matches Some(p) && flash_says(p, severity, message)
}

/// What the index page is rendered from: an optional one-shot status message
/// — a `(severity, text)` pair with severity `"success"` or `"error"` — and
/// the entries to show.
#[derive(Debug)]
pub struct Context {
    pub flash: Option<(String, String)>,
    pub waitlist: Vec<WaitlistEntry>,
}

impl Context {
    /// The index context for a listing outcome: on success, the given flash
    /// over the listed entries; on a failed listing, an error flash over an
    /// empty list — the page renders either way.
    pub fn raw(
        flash: Option<(String, String)>,
        waitlist: Result<Vec<WaitlistEntry>, StoreError>,
    ) -> (c: Context)
        ensures
            waitlist matches Ok(w) ==> c.flash == flash && c.waitlist == w,
            waitlist is Err ==> c.waitlist@.len() == 0
                && opt_flash_says(c.flash, "error"@, "Fail to access database."@),
    {
        match waitlist {
            Ok(w) => Context { flash, waitlist: w },
            Err(_) => Context {
                flash: Some(("error".to_owned(), "Fail to access database.".to_owned())),
                waitlist: Vec::new(),
            },
        }
    }

    /// The index context for an operation that failed: an error flash with
    /// the given message, over a best-effort entry list — the listed entries
    /// when the fallback listing succeeded, an empty list when it failed too.
    pub fn err(msg: &str, waitlist: Result<Vec<WaitlistEntry>, StoreError>) -> (c: Context)
        ensures
            opt_flash_says(c.flash, "error"@, msg@),
            waitlist matches Ok(w) ==> c.waitlist == w,
            waitlist is Err ==> c.waitlist@.len() == 0,
    {
        let entries = match waitlist {
            Ok(w) => w,
            Err(_) => Vec::new(),
        };
        Context { flash: Some(("error".to_owned(), msg.to_owned())), waitlist: entries }
    }
}

} // verus!
