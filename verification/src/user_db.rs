//! The record store: one in-memory table from user id to record. Records
//! are created lazily on first write and never deleted.

use vstd::prelude::*;
use crate::schedule::{ScheduleEvent, ScheduleEventV};
use crate::user::{User, UserView, user_wf, default_user};

verus! {

/// One row of the store.
#[derive(Debug)]
pub struct UserEntry {
    pub id: u64,
    pub user: User,
}

/// Mathematical model of a [`UserEntry`].
#[verifier::ext_equal]
pub struct UserEntryV {
    pub id: u64,
    pub user: UserView,
}

impl View for UserEntry {
    type V = UserEntryV;

    open spec fn view(&self) -> UserEntryV {
        UserEntryV { id: self.id, user: self.user@ }
    }
}

impl Clone for UserEntry {
    fn clone(&self) -> (r: Self)
        ensures
            r@ == self@,
    {
        let r = UserEntry { id: self.id, user: self.user.clone() };
        proof {
            assert(r@ =~= self@);
        }
        r
    }
}

/// The models behind a sequence of rows.
pub open spec fn deep_entries(s: Seq<UserEntry>) -> Seq<UserEntryV> {
    s.map_values(|e: UserEntry| e@)
}

/// Whether the store holds a record for `id`.
pub open spec fn db_has(s: Seq<UserEntryV>, id: u64) -> bool {
    exists|i: int| 0 <= i < s.len() && s[i].id == id
}

/// The index of `id`'s row; unique under [`ids_unique`].
pub open spec fn db_index(s: Seq<UserEntryV>, id: u64) -> int {
    choose|i: int| 0 <= i < s.len() && s[i].id == id
}

/// No two rows share a user id.
pub open spec fn ids_unique(s: Seq<UserEntryV>) -> bool {
    forall|i: int, j: int| 0 <= i < j < s.len() ==> s[i].id != s[j].id
}

/// Well-formedness of the store: ids unique, every record well-formed.
pub open spec fn db_wf(s: Seq<UserEntryV>) -> bool {
    &&& ids_unique(s)
    &&& forall|i: int| 0 <= i < s.len() ==> user_wf((#[trigger] s[i]).user)
}

/// The store after a write made sure `id` has a row: unchanged when one
/// exists, else a fresh default record appended.
pub open spec fn materialize(s: Seq<UserEntryV>, id: u64) -> Seq<UserEntryV> {
    if db_has(s, id) {
        s
    } else {
        s.push(UserEntryV { id, user: default_user() })
    }
}

/// The record a write against `id` starts from: the stored one, or the
/// default for a user seen for the first time.
pub open spec fn db_user(s: Seq<UserEntryV>, id: u64) -> UserView {
    materialize(s, id)[db_index(materialize(s, id), id)].user
}

/// The store after a write against `id` left that user's record as `u`.
pub open spec fn db_write(s: Seq<UserEntryV>, id: u64, u: UserView) -> Seq<UserEntryV> {
    materialize(s, id).update(db_index(materialize(s, id), id), UserEntryV { id, user: u })
}

/// Law: a write against one user touches no other user's row. The store
/// keeps unique ids, whether another user has a record does not change,
/// and every other user's record stays exactly as it was. Writes for
/// different users therefore commute on each other's records; only
/// writes for the same user are ordered against each other.
pub proof fn lemma_db_write_isolation(s: Seq<UserEntryV>, id: u64, u: UserView, other: u64)
    requires
        ids_unique(s),
        other != id,
    ensures
        ids_unique(db_write(s, id, u)),
        db_has(db_write(s, id, u), other) == db_has(s, other),
        db_has(s, other) ==> db_write(s, id, u)[db_index(db_write(s, id, u), other)] == s[db_index(
            s,
            other,
        )],
{
    let m = materialize(s, id);
    assert(db_has(m, id)) by {
        if !db_has(s, id) {
            assert(m[m.len() - 1].id == id);
        }
    }
    let ix = db_index(m, id);
    assert(0 <= ix < m.len() && m[ix].id == id);
    assert(ids_unique(m)) by {
        assert forall|p: int, q: int| 0 <= p < q < m.len() implies m[p].id != m[q].id by {
            if q == s.len() && !db_has(s, id) {
                assert(m[q].id == id);
                assert(m[p] == s[p]);
            }
        }
    }
    let w = db_write(s, id, u);
    assert(w.len() == m.len());
    assert(forall|i: int| 0 <= i < w.len() ==> (#[trigger] w[i]).id == m[i].id);
    assert(ids_unique(w));
    assert(db_has(w, other) == db_has(m, other)) by {
        if db_has(m, other) {
            let c = db_index(m, other);
            assert(w[c].id == other);
        }
        if db_has(w, other) {
            let c = db_index(w, other);
            assert(m[c].id == other);
        }
    }
    assert(db_has(m, other) == db_has(s, other)) by {
        if db_has(s, other) {
            let c = db_index(s, other);
            assert(m[c].id == other);
        }
        if db_has(m, other) {
            let c = db_index(m, other);
            assert(c < s.len()) by {
                if c == s.len() {
                    assert(m[c].id == id);
                }
            }
            assert(s[c].id == other);
        }
    }
    if db_has(s, other) {
        let c = db_index(s, other);
        assert(0 <= c < s.len() && s[c].id == other);
        assert(w[c].id == other);
        let cw = db_index(w, other);
        assert(0 <= cw < w.len() && w[cw].id == other);
        assert(cw == c) by {
            assert(ids_unique(w));
        }
        assert(c != ix) by {
            assert(m[ix].id == id);
        }
        assert(w[c] == m[c]);
        assert(m[c] == s[c]);
    }
}

/// The `(user, event)` pairs of one row, in stored order.
pub open spec fn entry_events(e: UserEntryV) -> Seq<(u64, ScheduleEventV)> {
    e.user.schedule.events.map_values(|ev: ScheduleEventV| (e.id, ev))
}

/// Every `(user, event)` pair in the store, rows in order, events in
/// stored order within a row.
pub open spec fn events_of(s: Seq<UserEntryV>) -> Seq<(u64, ScheduleEventV)>
    decreases s.len(),
{
    if s.len() == 0 {
        Seq::empty()
    } else {
        events_of(s.drop_last()) + entry_events(s.last())
    }
}

/// The models behind a list of `(user, event)` pairs.
pub open spec fn deep_user_events(s: Seq<(u64, ScheduleEvent)>) -> Seq<(u64, ScheduleEventV)> {
    s.map_values(|p: (u64, ScheduleEvent)| (p.0, p.1@))
}

/// The in-memory store.
#[derive(Debug)]
pub struct UserDB {
    pub entries: Vec<UserEntry>,
}

impl View for UserDB {
    type V = Seq<UserEntryV>;

    open spec fn view(&self) -> Seq<UserEntryV> {
        deep_entries(self.entries@)
    }
}

impl Clone for UserDB {
    fn clone(&self) -> (r: Self)
        ensures
            r@ == self@,
    {
        let entries = self.entries.clone();
        proof {
            assert(deep_entries(entries@) =~= deep_entries(self.entries@)) by {
                assert forall|i: int| 0 <= i < entries@.len() implies entries@[i]@
                    == self.entries@[i]@ by {
                    assert(cloned::<UserEntry>(self.entries@[i], entries@[i]));
                }
            }
        }
        UserDB { entries }
    }
}

impl UserDB {
    /// Well-formedness of the store.
    pub open spec fn wf(self) -> bool {
        db_wf(self@)
    }

    /// An empty store.
    pub fn new() -> (r: Self)
        ensures
            r.wf(),
            r@ == Seq::<UserEntryV>::empty(),
    {
        let r = UserDB { entries: Vec::new() };
        proof {
            assert(r@ =~= Seq::<UserEntryV>::empty());
        }
        r
    }

    /// The stored record for `id`, without creating one.
    pub fn get_user(&self, id: u64) -> (r: Option<&User>)
        requires
            self.wf(),
        ensures
            (r is Some) == db_has(self@, id),
            r matches Some(u) ==> u@ == self@[db_index(self@, id)].user,
    {
        let n = self.entries.len();
        let mut i: usize = 0;
        while i < n
            invariant
                n == self.entries@.len(),
                0 <= i <= n,
                ids_unique(self@),
                forall|k: int| 0 <= k < i ==> self@[k].id != id,
            decreases n - i,
        {
            if self.entries[i].id == id {
                proof {
                    assert(self@[i as int].id == id);
                    assert(db_has(self@, id));
                    let c = db_index(self@, id);
                    assert(0 <= c < self@.len() && self@[c].id == id);
                }
                return Some(&self.entries[i].user);
            }
            i = i + 1;
        }
        None
    }

    /// Make sure `id` has a row, creating a default record when absent,
    /// and return that row's index.
    pub fn ensure_user(&mut self, id: u64) -> (i: usize)
        requires
            old(self).wf(),
        ensures
            final(self).wf(),
            final(self)@ == materialize(old(self)@, id),
            i < final(self)@.len(),
            final(self)@[i as int].id == id,
            i as int == db_index(final(self)@, id),
            db_has(final(self)@, id),
            final(self)@[i as int].user == db_user(old(self)@, id),
    {
        let ghost s = old(self)@;
        let n = self.entries.len();
        let mut i: usize = 0;
        while i < n
            invariant
                self@ == s,
                n == self.entries@.len(),
                0 <= i <= n,
                db_wf(s),
                forall|k: int| 0 <= k < i ==> s[k].id != id,
            decreases n - i,
        {
            if self.entries[i].id == id {
                proof {
                    assert(s[i as int].id == id);
                    assert(db_has(s, id));
                    let c = db_index(s, id);
                    assert(0 <= c < s.len() && s[c].id == id);
                    assert(materialize(s, id) == s);
                }
                return i;
            }
            i = i + 1;
        }
        proof {
            assert(!db_has(s, id));
        }
        self.entries.push(UserEntry { id, user: User::new() });
        proof {
            assert(self@ =~= s.push(UserEntryV { id, user: default_user() }));
            assert(self@ == materialize(s, id));
            assert(self@[n as int].id == id);
            assert(db_has(self@, id));
            let c = db_index(self@, id);
            assert(0 <= c < self@.len() && self@[c].id == id);
            assert(c == n as int) by {
                if c < n as int {
                    assert(s[c].id == id);
                }
            }
            assert(self.wf()) by {
                assert forall|p: int, q: int| 0 <= p < q < self@.len() implies self@[p].id
                    != self@[q].id by {
                    if q < n as int {
                        assert(s[p].id != s[q].id);
                    }
                }
            }
        }
        n
    }

    /// Every `(user id, event)` pair in the store; seeds the reminder
    /// scheduler at startup.
    pub fn get_events(&self) -> (r: Vec<(u64, ScheduleEvent)>)
        ensures
            deep_user_events(r@) == events_of(self@),
    {
        let mut out: Vec<(u64, ScheduleEvent)> = Vec::new();
        let n = self.entries.len();
        let mut i: usize = 0;
        while i < n
            invariant
                n == self.entries@.len(),
                0 <= i <= n,
                deep_user_events(out@) == events_of(self@.take(i as int)),
            decreases n - i,
        {
            let id = self.entries[i].id;
            let en = self.entries[i].user.schedule.events.len();
            let mut j: usize = 0;
            while j < en
                invariant
                    n == self.entries@.len(),
                    0 <= i < n,
                    id == self@[i as int].id,
                    en == self@[i as int].user.schedule.events.len(),
                    0 <= j <= en,
                    deep_user_events(out@) == events_of(self@.take(i as int))
                        + self@[i as int].user.schedule.events.take(j as int).map_values(
                        |ev: ScheduleEventV| (self@[i as int].id, ev),
                    ),
                decreases en - j,
            {
                let ghost prev = out@;
                let ev = self.entries[i].user.schedule.events[j].clone();
                out.push((id, ev));
                proof {
                    let evs = self@[i as int].user.schedule.events;
                    assert(deep_user_events(out@) =~= deep_user_events(prev).push(
                        (id, evs[j as int]),
                    ));
                    assert(evs.take(j + 1).map_values(|ev: ScheduleEventV| (self@[i as int].id, ev))
                        =~= evs.take(j as int).map_values(
                        |ev: ScheduleEventV| (self@[i as int].id, ev),
                    ).push((id, evs[j as int])));
                }
                j = j + 1;
            }
            proof {
                let evs = self@[i as int].user.schedule.events;
                assert(evs.take(en as int) =~= evs);
                assert(self@.take(i + 1).drop_last() =~= self@.take(i as int));
                assert(self@.take(i + 1).last() == self@[i as int]);
                assert(entry_events(self@[i as int]) == evs.map_values(
                    |ev: ScheduleEventV| (self@[i as int].id, ev),
                ));
            }
            i = i + 1;
        }
        proof {
            assert(self@.take(n as int) =~= self@);
        }
        out
    }
}

} // verus!
