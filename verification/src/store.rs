//! The entry store: the waitlist table as a value, with the operations the
//! handlers use. Entries are kept with pairwise-distinct emails and ordered by
//! last name, descending; every operation states exactly what it returns and
//! how it changes the table.

use vstd::prelude::*;
use crate::entry::{WaitlistEntry, EntryView};
use crate::order::{lex_le, lex_lt, lemma_lex_connex, lemma_lex_lt_implies_le, lemma_lex_le_trans, str_lt};
use crate::laws::lemma_delete_removes_email;

verus! {

/// Why a store operation failed.
#[derive(Clone, Copy, Debug, PartialEq, Eq)]
pub enum StoreError {
    /// An insert hit the unique-email constraint.
    Conflict,
    /// Any other read or write failure (connectivity, bad query, pool
    /// exhaustion). The in-memory store never produces it; callers that reach
    /// a store over a connection map such failures to it.
    ConnectionOrQuery,
}

/// Some entry of `s` has this email.
pub open spec fn contains_email(s: Seq<EntryView>, email: Seq<char>) -> bool {
    exists|i: int| 0 <= i < s.len() && s[i].email == email
}

/// No two entries of `s` share an email.
pub open spec fn emails_unique(s: Seq<EntryView>) -> bool {
    forall|i: int, j: int| 0 <= i < j < s.len() ==> s[i].email != s[j].email
}

/// Entries of `s` are ordered by last name, descending; equal last names may
/// stand in either order.
pub open spec fn sorted_by_last_name_desc(s: Seq<EntryView>) -> bool {
    forall|i: int, j: int| 0 <= i < j < s.len() ==> lex_le(s[j].last_name, s[i].last_name)
}

/// The store invariant: unique emails and descending last-name order.
pub open spec fn store_wf(s: Seq<EntryView>) -> bool {
    emails_unique(s) && sorted_by_last_name_desc(s)
}

/// The waitlist table. Its view is the sequence of entry views in table
/// order; `wf` is the table invariant that every operation preserves.
pub struct Store {
    entries: Vec<WaitlistEntry>,
}

impl View for Store {
    type V = Seq<EntryView>;

    closed spec fn view(&self) -> Seq<EntryView> {
        self.entries@.map_values(|e: WaitlistEntry| e@)
    }
}

impl Store {
    /// The table invariant.
    pub open spec fn wf(&self) -> bool {
        store_wf(self@)
    }

    /// An empty table.
    pub fn new() -> (s: Store)
        ensures
            s@ == Seq::<EntryView>::empty(),
            s.wf(),
    {
        let s = Store { entries: Vec::new() };
        proof {
            assert(s@ =~= Seq::<EntryView>::empty());
        }
        s
    }

    /// Every row, in table order (descending last name).
    pub fn all(&self) -> (r: Vec<WaitlistEntry>)
        ensures
            r@.len() == self@.len(),
            forall|i: int| 0 <= i < self@.len() ==> r@[i]@ == self@[i],
            self.wf() ==> forall|i: int, j: int|
                0 <= i < j < r@.len() ==> lex_le(r@[j]@.last_name, r@[i]@.last_name),
    {
        let n = self.entries.len();
        let mut r: Vec<WaitlistEntry> = Vec::new();
        let mut k: usize = 0;
        while k < n
            invariant
                k <= n,
                n == self.entries.len(),
                r@.len() == k,
                forall|i: int| 0 <= i < k ==> r@[i]@ == self@[i],
            decreases n - k,
        {
            r.push(self.entries[k].duplicate());
            k = k + 1;
        }
        proof {
            if self.wf() {
                assert forall|i: int, j: int| 0 <= i < j < r@.len() implies lex_le(
                    r@[j]@.last_name,
                    r@[i]@.last_name,
                ) by {
                    assert(r@[i]@ == self@[i]);
                    assert(r@[j]@ == self@[j]);
                }
            }
        }
        r
    }

    /// The position at which a row with this last name is inserted: after
    /// every row whose last name is not below it, before the first that is.
    fn insert_pos(&self, last_name: &str) -> (p: usize)
        ensures
            p <= self@.len(),
            forall|j: int| 0 <= j < p ==> !lex_lt(self@[j].last_name, last_name@),
            p < self@.len() ==> lex_lt(self@[p as int].last_name, last_name@),
    {
        let n = self.entries.len();
        let mut p: usize = 0;
        while p < n
            invariant
                p <= n,
                n == self.entries.len(),
                forall|j: int| 0 <= j < p ==> !lex_lt(self@[j].last_name, last_name@),
            decreases n - p,
        {
            if str_lt(self.entries[p].last_name.as_str(), last_name) {
                return p;
            }
            p = p + 1;
        }
        p
    }

    /// Adds a row. Fails with `Conflict`, changing nothing, when the email is
    /// already present; otherwise inserts the entry at its position in the
    /// last-name order and reports one row affected.
    pub fn insert(&mut self, entry: WaitlistEntry) -> (r: Result<usize, StoreError>)
        requires
            old(self).wf(),
        ensures
            final(self).wf(),
            contains_email(old(self)@, entry@.email) ==> final(self)@ == old(self)@
                && r == Err::<usize, StoreError>(StoreError::Conflict),
            !contains_email(old(self)@, entry@.email) ==> r == Ok::<usize, StoreError>(1)
                && (exists|p: int|
                    0 <= p <= old(self)@.len() && final(self)@ == old(self)@.insert(p, entry@)),
    {
        let n = self.entries.len();
        let mut k: usize = 0;
        while k < n
            invariant
                k <= n,
                n == self.entries.len(),
                *self == *old(self),
                self.wf(),
                forall|j: int| 0 <= j < k ==> self@[j].email != entry@.email,
            decreases n - k,
        {
            if self.entries[k].email == entry.email {
                proof {
                    assert(self@[k as int].email == entry@.email);
                }
                return Err(StoreError::Conflict);
            }
            k = k + 1;
        }
        let ghost s0 = self@;
        let ghost es0 = self.entries@;
        proof {
            assert(!contains_email(s0, entry@.email));
        }
        let p = self.insert_pos(entry.last_name.as_str());
        proof {
            lemma_insert_keeps_wf(s0, entry@, p as int);
        }
        self.entries.insert(p, entry);
        proof {
            es0.insert_ensures(p as int, entry);
            s0.insert_ensures(p as int, entry@);
            assert(self@ =~= s0.insert(p as int, entry@));
        }
        Ok(1)
    }

    /// Deletes the row with this email, if there is one. Reports how many
    /// rows were affected: one when the email was present, zero when it was
    /// not — a missing email is not an error. Afterwards no row has the email.
    pub fn delete_with_email(&mut self, email: &str) -> (r: Result<usize, StoreError>)
        requires
            old(self).wf(),
        ensures
            final(self).wf(),
            !contains_email(old(self)@, email@) ==> final(self)@ == old(self)@
                && r == Ok::<usize, StoreError>(0),
            contains_email(old(self)@, email@) ==> r == Ok::<usize, StoreError>(1)
                && (exists|i: int|
                    0 <= i < old(self)@.len() && old(self)@[i].email == email@
                        && final(self)@ == old(self)@.remove(i)),
            !contains_email(final(self)@, email@),
    {
        let email_owned = email.to_owned();
        let n = self.entries.len();
        let mut k: usize = 0;
        while k < n
            invariant
                k <= n,
                n == self.entries.len(),
                *self == *old(self),
                self.wf(),
                email_owned@ == email@,
                forall|j: int| 0 <= j < k ==> self@[j].email != email@,
            decreases n - k,
        {
            if self.entries[k].email == email_owned {
                let ghost s0 = self@;
                let ghost es0 = self.entries@;
                proof {
                    assert(s0[k as int].email == email@);
                }
                self.entries.remove(k);
                proof {
                    es0.remove_ensures(k as int);
                    s0.remove_ensures(k as int);
                    assert(self@ =~= s0.remove(k as int));
                    lemma_remove_keeps_wf(s0, k as int);
                    lemma_delete_removes_email(s0, k as int);
                }
                return Ok(1);
            }
            k = k + 1;
        }
        Ok(0)
    }

    /// Empties the table, reporting every former row as affected.
    pub fn delete_all(&mut self) -> (r: Result<usize, StoreError>)
        requires
            old(self).wf(),
        ensures
            final(self).wf(),
            final(self)@ == Seq::<EntryView>::empty(),
            r == Ok::<usize, StoreError>(old(self)@.len() as usize),
    {
        let n = self.entries.len();
        self.entries = Vec::new();
        proof {
            assert(self@ =~= Seq::<EntryView>::empty());
        }
        Ok(n)
    }
}

/// Inserting a fresh email at the position `insert_pos` picks keeps the table
/// invariant.
proof fn lemma_insert_keeps_wf(s: Seq<EntryView>, e: EntryView, p: int)
    requires
        store_wf(s),
        !contains_email(s, e.email),
        0 <= p <= s.len(),
        forall|j: int| 0 <= j < p ==> !lex_lt(s[j].last_name, e.last_name),
        p < s.len() ==> lex_lt(s[p].last_name, e.last_name),
    ensures
        store_wf(s.insert(p, e)),
{
    let t = s.insert(p, e);
    s.insert_ensures(p, e);
    assert forall|i: int, j: int| 0 <= i < j < t.len() implies t[i].email != t[j].email by {
        if j < p {
        } else if i < p && j == p {
            assert(t[i] == s[i]);
        } else if i < p && j > p {
            assert(t[i] == s[i] && t[j] == s[j - 1]);
        } else if i == p {
            assert(t[j] == s[j - 1]);
        } else {
            assert(t[i] == s[i - 1] && t[j] == s[j - 1]);
        }
    }
    assert forall|i: int, j: int| 0 <= i < j < t.len() implies lex_le(
        t[j].last_name,
        t[i].last_name,
    ) by {
        if j < p {
        } else if i < p && j == p {
            assert(t[i] == s[i]);
            lemma_lex_connex(e.last_name, s[i].last_name);
        } else if i < p && j > p {
            assert(t[i] == s[i] && t[j] == s[j - 1]);
        } else if i == p {
            assert(t[j] == s[j - 1]);
            lemma_lex_lt_implies_le(s[p].last_name, e.last_name);
            if j - 1 > p {
                lemma_lex_le_trans(s[j - 1].last_name, s[p].last_name, e.last_name);
            }
        } else {
            assert(t[i] == s[i - 1] && t[j] == s[j - 1]);
        }
    }
}

/// Removing a row keeps the table invariant.
proof fn lemma_remove_keeps_wf(s: Seq<EntryView>, i: int)
    requires
        store_wf(s),
        0 <= i < s.len(),
    ensures
        store_wf(s.remove(i)),
{
    let t = s.remove(i);
    s.remove_ensures(i);
    assert forall|a: int, b: int| 0 <= a < b < t.len() implies t[a].email != t[b].email
        && lex_le(t[b].last_name, t[a].last_name) by {
        if b < i {
        } else if a < i {
            assert(t[a] == s[a] && t[b] == s[b + 1]);
        } else {
            assert(t[a] == s[a + 1] && t[b] == s[b + 1]);
        }
    }
}

} // verus!
