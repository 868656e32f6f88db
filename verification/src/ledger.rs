//! The session ledger: for each user at most one session, which a new login
//! replaces and a logout deletes. Expiry is not enforced here: a session
//! stays on record until it is revoked, and whoever reads it holds it
//! against the clock.
//!
//! `SessionLedger` keeps the records of one process. Servers that run side
//! by side keep them in a store they share; its `set`, `get` and `del` are
//! what `create`, `check` and `revoke` state here.

use vstd::prelude::*;

verus! {

/// One record of the ledger.
#[derive(Debug)]
pub struct SessionEntry {
    /// The user the session belongs to.
    pub subject: String,
    /// The last second, counted from the Unix epoch, at which it is alive.
    pub expires_at: usize,
}

/// The sessions that are on record, by subject.
pub struct SessionLedger {
    entries: Vec<SessionEntry>,
}

/// No subject occurs twice.
pub open spec fn subjects_distinct(entries: Seq<SessionEntry>) -> bool {
    forall|i: int, j: int|
        0 <= i < j < entries.len() ==> (#[trigger] entries[i]).subject@ != (
        #[trigger] entries[j]).subject@
}

/// There is an entry for `subject`.
pub open spec fn has_entry(entries: Seq<SessionEntry>, subject: Seq<char>) -> bool {
    exists|i: int| 0 <= i < entries.len() && (#[trigger] entries[i]).subject@ == subject
}

/// The expiry of an entry for `subject`.
pub open spec fn expiry_of(entries: Seq<SessionEntry>, subject: Seq<char>) -> usize {
    let i = choose|i: int| 0 <= i < entries.len() && (#[trigger] entries[i]).subject@ == subject;
    entries[i].expires_at
}

/// The expiry on record for `subject`.
pub open spec fn session_of(sessions: Map<Seq<char>, usize>, subject: Seq<char>) -> Option<usize> {
    if sessions.contains_key(subject) {
        Some(sessions[subject])
    } else {
        None
    }
}

/// A session that was created is the one on record, whatever was on record
/// for the subject before.
pub proof fn lemma_created_session_is_found(
    sessions: Map<Seq<char>, usize>,
    subject: Seq<char>,
    expires_at: usize,
)
    ensures
        session_of(sessions.insert(subject, expires_at), subject) == Some(expires_at),
{
}

/// After a session was revoked none is on record for the subject, and the
/// sessions of the others are as they were.
pub proof fn lemma_revoked_session_is_gone(sessions: Map<Seq<char>, usize>, subject: Seq<char>)
    ensures
        session_of(sessions.remove(subject), subject) is None,
        forall|other: Seq<char>|
            other != subject ==> #[trigger] session_of(sessions.remove(subject), other)
                == session_of(sessions, other),
{
}

/// The sessions that a sequence of entries records, by subject.
pub open spec fn entries_map(entries: Seq<SessionEntry>) -> Map<Seq<char>, usize> {
    Map::new(
        |subject: Seq<char>| has_entry(entries, subject),
        |subject: Seq<char>| expiry_of(entries, subject),
    )
}

/// Where no subject occurs twice, the entry at `i` is the one on record
/// for its subject.
pub proof fn lemma_entry_is_recorded(entries: Seq<SessionEntry>, i: int)
    requires
        subjects_distinct(entries),
        0 <= i < entries.len(),
    ensures
        has_entry(entries, entries[i].subject@),
        expiry_of(entries, entries[i].subject@) == entries[i].expires_at,
{
    let subject = entries[i].subject@;
    let k = choose|k: int| 0 <= k < entries.len() && (#[trigger] entries[k]).subject@ == subject;
    assert(k == i);
}

/// An entry for a subject without session, put behind the others, records
/// that session and leaves the others as they were.
pub proof fn lemma_entry_pushed(entries: Seq<SessionEntry>, entry: SessionEntry)
    requires
        subjects_distinct(entries),
        !has_entry(entries, entry.subject@),
    ensures
        subjects_distinct(entries.push(entry)),
        entries_map(entries.push(entry)) == entries_map(entries).insert(
            entry.subject@,
            entry.expires_at,
        ),
{
    let after = entries.push(entry);
    let last = entries.len() as int;
    assert forall|i: int, j: int| 0 <= i < j < after.len() implies (#[trigger] after[i]).subject@
        != (#[trigger] after[j]).subject@ by {
        assert(after[i] == entries[i]);
        if j < last {
            assert(after[j] == entries[j]);
        }
    }
    assert forall|s: Seq<char>| has_entry(after, s) == (has_entry(entries, s) || s
        == entry.subject@) by {
        if has_entry(entries, s) {
            let k = choose|k: int| 0 <= k < entries.len() && (#[trigger] entries[k]).subject@ == s;
            assert(after[k].subject@ == s);
        }
        if s == entry.subject@ {
            assert(after[last].subject@ == s);
        }
        if has_entry(after, s) {
            let k = choose|k: int| 0 <= k < after.len() && (#[trigger] after[k]).subject@ == s;
            if k < last {
                assert(entries[k].subject@ == s);
            }
        }
    }
    assert forall|s: Seq<char>| #[trigger] has_entry(after, s) implies expiry_of(after, s) == (if s
        == entry.subject@ {
        entry.expires_at
    } else {
        expiry_of(entries, s)
    }) by {
        let k = choose|k: int| 0 <= k < after.len() && (#[trigger] after[k]).subject@ == s;
        lemma_entry_is_recorded(after, k);
        if k < last {
            assert(entries[k].subject@ == s);
            lemma_entry_is_recorded(entries, k);
        }
    }
    assert(entries_map(after) =~= entries_map(entries).insert(entry.subject@, entry.expires_at));
}

/// With the entry at `i` taken out, the session of its subject is gone and
/// the others are as they were.
pub proof fn lemma_entry_removed(entries: Seq<SessionEntry>, i: int)
    requires
        subjects_distinct(entries),
        0 <= i < entries.len(),
    ensures
        subjects_distinct(entries.remove(i)),
        entries_map(entries.remove(i)) == entries_map(entries).remove(entries[i].subject@),
{
    let after = entries.remove(i);
    let subject = entries[i].subject@;
    assert forall|a: int, b: int| 0 <= a < b < after.len() implies (#[trigger] after[a]).subject@
        != (#[trigger] after[b]).subject@ by {
        let a0 = if a < i {
            a
        } else {
            a + 1
        };
        let b0 = if b < i {
            b
        } else {
            b + 1
        };
        assert(after[a] == entries[a0]);
        assert(after[b] == entries[b0]);
    }
    assert forall|s: Seq<char>| has_entry(after, s) == (has_entry(entries, s) && s != subject) by {
        if has_entry(entries, s) && s != subject {
            let k = choose|k: int| 0 <= k < entries.len() && (#[trigger] entries[k]).subject@ == s;
            if k < i {
                assert(after[k].subject@ == s);
            } else {
                assert(after[k - 1].subject@ == s);
            }
        }
        if has_entry(after, s) {
            let k = choose|k: int| 0 <= k < after.len() && (#[trigger] after[k]).subject@ == s;
            if k < i {
                assert(entries[k].subject@ == s);
            } else {
                assert(entries[k + 1].subject@ == s);
            }
        }
    }
    assert forall|s: Seq<char>| #[trigger] has_entry(after, s) implies expiry_of(after, s)
        == expiry_of(entries, s) by {
        let k = choose|k: int| 0 <= k < after.len() && (#[trigger] after[k]).subject@ == s;
        lemma_entry_is_recorded(after, k);
        if k < i {
            assert(entries[k].subject@ == s);
            lemma_entry_is_recorded(entries, k);
        } else {
            assert(entries[k + 1].subject@ == s);
            lemma_entry_is_recorded(entries, k + 1);
        }
    }
    assert(entries_map(after) =~= entries_map(entries).remove(subject));
}

impl View for SessionLedger {
    type V = Map<Seq<char>, usize>;

    closed spec fn view(&self) -> Map<Seq<char>, usize> {
        entries_map(self.entries@)
    }
}

impl SessionLedger {
    /// No subject has two sessions on record. Every ledger that `new`
    /// made and these methods changed is of this kind.
    pub closed spec fn wf(&self) -> bool {
        subjects_distinct(self.entries@)
    }

    /// A ledger without sessions.
    pub fn new() -> (ledger: Self)
        ensures
            ledger.wf(),
            ledger@ == Map::<Seq<char>, usize>::empty(),
    {
        let ledger = SessionLedger { entries: Vec::new() };
        assert(ledger@ =~= Map::<Seq<char>, usize>::empty());
        ledger
    }

    /// Where the entry for `subject` stands, if there is one.
    fn position(&self, subject: &String) -> (r: Option<usize>)
        ensures
            match r {
                Some(i) => i < self.entries.len() && self.entries[i as int].subject@ == subject@,
                None => !has_entry(self.entries@, subject@),
            },
    {
        let mut i: usize = 0;
        while i < self.entries.len()
            invariant
                i <= self.entries.len(),
                forall|k: int| 0 <= k < i ==> (#[trigger] self.entries[k]).subject@ != subject@,
            decreases self.entries.len() - i,
        {
            if self.entries[i].subject == *subject {
                return Some(i);
            }
            i += 1;
        }
        None
    }

    /// Takes the entry for `subject` out, if there is one.
    fn take_out(&mut self, subject: &String)
        requires
            old(self).wf(),
        ensures
            final(self).wf(),
            final(self)@ == old(self)@.remove(subject@),
            !has_entry(final(self).entries@, subject@),
    {
        match self.position(subject) {
            Some(i) => {
                proof {
                    lemma_entry_removed(self.entries@, i as int);
                }
                self.entries.remove(i);
                assert(!self@.contains_key(subject@));
            },
            None => {
                assert(self@ =~= old(self)@.remove(subject@));
            },
        }
    }

    /// Records a session for `subject` that lives through `expires_at`, in
    /// place of the one it may have had.
    pub fn create(&mut self, subject: &str, expires_at: usize)
        requires
            old(self).wf(),
        ensures
            final(self).wf(),
            final(self)@ == old(self)@.insert(subject@, expires_at),
    {
        let key = subject.to_owned();
        self.take_out(&key);
        let entry = SessionEntry { subject: key, expires_at };
        proof {
            lemma_entry_pushed(self.entries@, entry);
        }
        self.entries.push(entry);
        assert(self@ =~= old(self)@.insert(subject@, expires_at));
    }

    /// The expiry on record for `subject`, if a session is on record. It is
    /// for the caller to hold it against the clock.
    pub fn check(&self, subject: &str) -> (r: Option<usize>)
        requires
            self.wf(),
        ensures
            r == session_of(self@, subject@),
    {
        let key = subject.to_owned();
        match self.position(&key) {
            Some(i) => {
                proof {
                    lemma_entry_is_recorded(self.entries@, i as int);
                }
                Some(self.entries[i].expires_at)
            },
            None => None,
        }
    }

    /// Deletes the session of `subject`; where there is none, nothing changes.
    pub fn revoke(&mut self, subject: &str)
        requires
            old(self).wf(),
        ensures
            final(self).wf(),
            final(self)@ == old(self)@.remove(subject@),
    {
        let key = subject.to_owned();
        self.take_out(&key);
    }
}

} // verus!
