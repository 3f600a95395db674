//! Laws of the store model: facts that relate several operations, stated over
//! the sequence of entry views that the store exposes.

use vstd::prelude::*;
use crate::entry::EntryView;
use crate::store::{contains_email, emails_unique, store_wf};

verus! {

/// In a well-formed table an email identifies at most one row: two indices
/// whose rows share an email are the same index.
pub proof fn lemma_email_identifies_row(s: Seq<EntryView>, i: int, j: int)
    requires
        emails_unique(s),
        0 <= i < s.len(),
        0 <= j < s.len(),
        s[i].email == s[j].email,
    ensures
        i == j,
{
}

/// Round trip of create and list: inserting an entry whose email is absent
/// and then listing shows exactly one row with that email — the inserted
/// entry, at the position where it was inserted.
pub proof fn lemma_insert_round_trip(s: Seq<EntryView>, e: EntryView, p: int)
    requires
        store_wf(s),
        !contains_email(s, e.email),
        0 <= p <= s.len(),
    ensures
        s.insert(p, e)[p] == e,
        contains_email(s.insert(p, e), e.email),
        forall|j: int|
            0 <= j < s.insert(p, e).len() && s.insert(p, e)[j].email == e.email ==> j == p,
{
    let t = s.insert(p, e);
    s.insert_ensures(p, e);
    assert(t[p] == e);
    assert forall|j: int| 0 <= j < t.len() && t[j].email == e.email implies j == p by {
        if j < p {
            assert(t[j] == s[j]);
        } else if j > p {
            assert(t[j] == s[j - 1]);
        }
    }
}

/// End to end: after inserting a fresh entry its email is present; deleting
/// at its position afterwards returns exactly the old table, where the email
/// is absent again.
pub proof fn lemma_create_then_delete(s: Seq<EntryView>, e: EntryView, p: int)
    requires
        store_wf(s),
        !contains_email(s, e.email),
        0 <= p <= s.len(),
    ensures
        contains_email(s.insert(p, e), e.email),
        s.insert(p, e).remove(p) == s,
        !contains_email(s.insert(p, e).remove(p), e.email),
{
    let t = s.insert(p, e);
    s.insert_ensures(p, e);
    t.remove_ensures(p);
    assert(t.remove(p) =~= s);
}

/// In a table with unique emails, removing the row at the index of an email
/// removes every row with that email: a second delete of the same email
/// therefore affects no rows.
pub proof fn lemma_delete_removes_email(s: Seq<EntryView>, i: int)
    requires
        emails_unique(s),
        0 <= i < s.len(),
    ensures
        !contains_email(s.remove(i), s[i].email),
{
    let t = s.remove(i);
    s.remove_ensures(i);
    assert forall|j: int| 0 <= j < t.len() implies t[j].email != s[i].email by {
        if j < i {
            assert(t[j] == s[j]);
        } else {
            assert(t[j] == s[j + 1]);
        }
    }
}

} // verus!
