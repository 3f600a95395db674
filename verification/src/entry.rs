//! The waitlist record: a name, an email address and free-form notes. The
//! email address is the unique key of a record.

use vstd::prelude::*;

verus! {

/// One waitlist signup. `email` identifies the record: the store never holds
/// two entries with the same email, and deletion is keyed on it alone.
#[derive(Debug)]
pub struct WaitlistEntry {
    pub email: String,
    pub first_name: String,
    pub last_name: String,
    pub notes: String,
}

/// The mathematical content of a `WaitlistEntry`: each field as its sequence
/// of characters.
pub ghost struct EntryView {
    pub email: Seq<char>,
    pub first_name: Seq<char>,
    pub last_name: Seq<char>,
    pub notes: Seq<char>,
}

impl View for WaitlistEntry {
    type V = EntryView;

    open spec fn view(&self) -> EntryView {
        EntryView {
            email: self.email@,
            first_name: self.first_name@,
            last_name: self.last_name@,
            notes: self.notes@,
        }
    }
}

impl WaitlistEntry {
    /// A field-by-field copy with the same content.
    pub fn duplicate(&self) -> (r: WaitlistEntry)
        ensures
            r@ == self@,
    {
        WaitlistEntry {
            email: self.email.clone(),
            first_name: self.first_name.clone(),
            last_name: self.last_name.clone(),
            notes: self.notes.clone(),
        }
    }
}

} // verus!
