//! Scheduled events: a per-user list of named future instants, kept sorted
//! ascending by instant, with a display timezone per user.

use vstd::prelude::*;
use vstd::string::StringExecFns;
use crate::text::{is_prefix, deep_strings, str_eq, str_starts_with};

verus! {

/// Schedule failures surfaced to the caller of the schedule view.
#[derive(Debug, PartialEq, Eq)]
pub enum ScheduleError {
    /// A read found no record for the user.
    NoUserFound,
    /// A lookup by name found no event of that name.
    EventNotFound,
    /// A timezone name was not recognised.
    ParseError,
}

/// One scheduled event: a name, an absolute UTC instant in seconds, and the
/// timezone name the event was created under (display only).
#[derive(Debug)]
pub struct ScheduleEvent {
    pub name: String,
    pub when: i64,
    pub tz: String,
}

/// Mathematical model of a [`ScheduleEvent`].
#[verifier::ext_equal]
pub struct ScheduleEventV {
    pub name: Seq<char>,
    pub when: i64,
    pub tz: Seq<char>,
}

impl View for ScheduleEvent {
    type V = ScheduleEventV;

    open spec fn view(&self) -> ScheduleEventV {
        ScheduleEventV { name: self.name@, when: self.when, tz: self.tz@ }
    }
}

impl Clone for ScheduleEvent {
    fn clone(&self) -> (r: Self)
        ensures
            r == *self,
    {
        ScheduleEvent { name: self.name.clone(), when: self.when, tz: self.tz.clone() }
    }
}

/// The models behind a sequence of events.
pub open spec fn deep_events(s: Seq<ScheduleEvent>) -> Seq<ScheduleEventV> {
    s.map_values(|e: ScheduleEvent| e@)
}

/// The canonical timezone name that the timezone database resolves `name`
/// to, or nothing when `name` is not a recognised timezone.
pub uninterp spec fn tz_canon_of(name: Seq<char>) -> Option<Seq<char>>;

/// The text that instant `when`, shown in zone `tz`, renders to.
pub uninterp spec fn local_display_of(when: i64, tz: Seq<char>) -> Seq<char>;

/// Relies on `chrono_tz`'s `Tz::from_str` and `Tz::name`: both are lookups
/// in the crate's compiled-in timezone table, so the outcome is a function
/// of the name alone.
#[verifier::external_body]
pub(crate) fn parse_tz(name: &str) -> (r: Option<String>)
    ensures
        (r is Some) == (tz_canon_of(name@) is Some),
        r matches Some(c) ==> tz_canon_of(name@) == Some(c@),
{
    match name.parse::<chrono_tz::Tz>() {
        Ok(tz) => Some(tz.name().to_string()),
        Err(_) => None,
    }
}

/// Relies on `chrono`'s timestamp conversion and display together with
/// `chrono_tz`'s compiled-in timezone database: the rendered text is a
/// function of the instant and the zone name alone.
#[verifier::external_body]
pub(crate) fn render_local(when: i64, tz_name: &str) -> (r: String)
    ensures
        r@ == local_display_of(when, tz_name@),
{
    let tz = tz_name.parse::<chrono_tz::Tz>().unwrap_or(chrono_tz::Tz::UTC);
    match chrono::DateTime::from_timestamp(when, 0) {
        Some(utc) => utc.with_timezone(&tz).to_string(),
        None => String::new(),
    }
}

/// The schedule part of a user record.
#[derive(Debug)]
pub struct ScheduleUser {
    pub timezone: String,
    pub events: Vec<ScheduleEvent>,
}

/// Mathematical model of a [`ScheduleUser`].
#[verifier::ext_equal]
pub struct ScheduleUserView {
    pub timezone: Seq<char>,
    pub events: Seq<ScheduleEventV>,
}

impl View for ScheduleUser {
    type V = ScheduleUserView;

    open spec fn view(&self) -> ScheduleUserView {
        ScheduleUserView { timezone: self.timezone@, events: deep_events(self.events@) }
    }
}

/// The model of an empty schedule in the default timezone.
pub open spec fn default_schedule_user() -> ScheduleUserView {
    ScheduleUserView { timezone: "UTC"@, events: Seq::empty() }
}

/// Events are in non-decreasing instant order.
pub open spec fn events_sorted(s: Seq<ScheduleEventV>) -> bool {
    forall|i: int, j: int| 0 <= i < j < s.len() ==> s[i].when <= s[j].when
}

/// The predicate `prune_past_events(now)` keeps: strictly future events.
pub open spec fn keeps(now: i64) -> spec_fn(ScheduleEventV) -> bool {
    |e: ScheduleEventV| e.when > now
}

/// Whether `p` is where a stable insertion of an event at instant `when`
/// lands: after every event at or before `when`, before the rest.
pub open spec fn is_add_pos(s: Seq<ScheduleEventV>, when: i64, p: int) -> bool {
    &&& 0 <= p <= s.len()
    &&& forall|i: int| 0 <= i < p ==> s[i].when <= when
    &&& p == s.len() || s[p].when > when
}

/// The stable insertion position for instant `when`; unique on a sorted
/// sequence.
pub open spec fn add_pos(s: Seq<ScheduleEventV>, when: i64) -> int {
    choose|p: int| is_add_pos(s, when, p)
}

/// The event that `add_event(name, when)` creates: it carries the user's
/// current timezone for display.
pub open spec fn made_event(v: ScheduleUserView, name: Seq<char>, when: i64) -> ScheduleEventV {
    ScheduleEventV { name, when, tz: v.timezone }
}

/// The schedule after `add_event(name, when)`: the new event is inserted
/// at its stable position, after any event with the same instant.
pub open spec fn add_event_effect(
    v: ScheduleUserView,
    name: Seq<char>,
    when: i64,
) -> ScheduleUserView {
    ScheduleUserView {
        timezone: v.timezone,
        events: v.events.insert(add_pos(v.events, when), made_event(v, name, when)),
    }
}

/// Whether some event in `s` carries exactly the name `name`.
pub open spec fn has_event(s: Seq<ScheduleEventV>, name: Seq<char>) -> bool {
    exists|i: int| 0 <= i < s.len() && s[i].name == name
}

/// Whether `i` is the first index whose event carries `name`.
pub open spec fn is_first_event(s: Seq<ScheduleEventV>, name: Seq<char>, i: int) -> bool {
    &&& 0 <= i < s.len()
    &&& s[i].name == name
    &&& forall|k: int| 0 <= k < i ==> s[k].name != name
}

/// The first index whose event carries `name`; unique by construction.
pub open spec fn first_event_index(s: Seq<ScheduleEventV>, name: Seq<char>) -> int {
    choose|i: int| is_first_event(s, name, i)
}

/// The schedule after `delete_event(name)`: the first event of that name
/// leaves, the others keep their relative order; nothing changes when no
/// event carries the name.
pub open spec fn delete_event_effect(v: ScheduleUserView, name: Seq<char>) -> ScheduleUserView {
    if has_event(v.events, name) {
        ScheduleUserView {
            timezone: v.timezone,
            events: v.events.remove(first_event_index(v.events, name)),
        }
    } else {
        v
    }
}

/// The schedule after `set_timezone(tz)`: only the display timezone for
/// future events changes; stored events keep their instants and zones.
pub open spec fn set_timezone_effect(v: ScheduleUserView, tz: Seq<char>) -> ScheduleUserView {
    ScheduleUserView { timezone: tz, events: v.events }
}

/// The schedule after `prune_past_events(now)`: exactly the events with
/// `when <= now` leave; the others keep their relative order.
pub open spec fn prune_effect(v: ScheduleUserView, now: i64) -> ScheduleUserView {
    ScheduleUserView { timezone: v.timezone, events: v.events.filter(keeps(now)) }
}

/// One line of the schedule listing.
pub open spec fn event_line(e: ScheduleEventV) -> Seq<char> {
    e.name + " : "@ + local_display_of(e.when, e.tz) + "\n"@
}

/// The whole schedule listing: one line per event, in stored order.
pub open spec fn spec_listing(s: Seq<ScheduleEventV>) -> Seq<char>
    decreases s.len(),
{
    if s.len() == 0 {
        Seq::empty()
    } else {
        spec_listing(s.drop_last()) + event_line(s.last())
    }
}

/// The names of the events in `s` whose names start with `p`, in order.
pub open spec fn spec_matching_event_names(s: Seq<ScheduleEventV>, p: Seq<char>) -> Seq<Seq<char>>
    decreases s.len(),
{
    if s.len() == 0 {
        Seq::empty()
    } else {
        let rest = spec_matching_event_names(s.drop_last(), p);
        if is_prefix(p, s.last().name) {
            rest.push(s.last().name)
        } else {
            rest
        }
    }
}

/// Every element of a filtered sequence comes from the source sequence.
proof fn lemma_filter_subset(s: Seq<ScheduleEventV>, pred: spec_fn(ScheduleEventV) -> bool)
    ensures
        forall|k: int| 0 <= k < s.filter(pred).len() ==> s.contains(#[trigger] s.filter(pred)[k]),
    decreases s.len(),
{
    reveal(Seq::filter);
    if s.len() > 0 {
        lemma_filter_subset(s.drop_last(), pred);
        let sub = s.drop_last().filter(pred);
        assert forall|k: int| 0 <= k < s.filter(pred).len() implies s.contains(
            #[trigger] s.filter(pred)[k],
        ) by {
            if k < sub.len() {
                assert(s.drop_last().contains(sub[k]));
                let j = choose|j: int| 0 <= j < s.drop_last().len() && s.drop_last()[j] == sub[k];
                assert(s[j] == sub[k]);
            } else {
                assert(s[s.len() - 1] == s.filter(pred)[k]);
            }
        }
    }
}

/// Filtering a sorted schedule leaves a sorted schedule.
proof fn lemma_filter_sorted(s: Seq<ScheduleEventV>, now: i64)
    requires
        events_sorted(s),
    ensures
        events_sorted(s.filter(keeps(now))),
    decreases s.len(),
{
    reveal(Seq::filter);
    if s.len() > 0 {
        assert(events_sorted(s.drop_last()));
        lemma_filter_sorted(s.drop_last(), now);
        let sub = s.drop_last().filter(keeps(now));
        if keeps(now)(s.last()) {
            lemma_filter_subset(s.drop_last(), keeps(now));
            assert forall|k: int| 0 <= k < sub.len() implies sub[k].when <= s.last().when by {
                assert(s.drop_last().contains(sub[k]));
                let j = choose|j: int| 0 <= j < s.drop_last().len() && s.drop_last()[j] == sub[k];
                assert(s[j] == sub[k]);
            }
        }
    }
}

/// A stable insertion position exists on any sorted schedule, so the one
/// `add_pos` denotes satisfies [`is_add_pos`].
proof fn lemma_add_pos_exists(s: Seq<ScheduleEventV>, when: i64)
    requires
        events_sorted(s),
    ensures
        is_add_pos(s, when, add_pos(s, when)),
    decreases s.len(),
{
    if s.len() == 0 {
        assert(is_add_pos(s, when, 0));
    } else if s[0].when > when {
        assert(is_add_pos(s, when, 0));
    } else {
        let t = s.drop_first();
        assert(events_sorted(t)) by {
            assert forall|i: int, j: int| 0 <= i < j < t.len() implies t[i].when <= t[j].when by {
                assert(t[i] == s[i + 1]);
                assert(t[j] == s[j + 1]);
            }
        }
        lemma_add_pos_exists(t, when);
        let p = add_pos(t, when);
        assert(is_add_pos(s, when, p + 1)) by {
            assert forall|i: int| 0 <= i < p + 1 implies s[i].when <= when by {
                if i > 0 {
                    assert(t[i - 1].when <= when);
                }
            }
            if p + 1 < s.len() {
                assert(s[p + 1] == t[p]);
            }
        }
    }
}

/// Law: after any add, the event list is still in non-decreasing instant
/// order, so a listing taken after it comes out sorted.
pub proof fn lemma_add_keeps_sorted(v: ScheduleUserView, name: Seq<char>, when: i64)
    requires
        events_sorted(v.events),
    ensures
        events_sorted(add_event_effect(v, name, when).events),
{
    lemma_add_pos_exists(v.events, when);
    let p = add_pos(v.events, when);
    let ev = made_event(v, name, when);
    let s2 = v.events.insert(p, ev);
    v.events.insert_ensures(p, ev);
    assert forall|i: int, j: int| 0 <= i < j < s2.len() implies s2[i].when <= s2[j].when by {
        if i < p {
            assert(s2[i] == v.events[i]);
        }
        if j < p {
            assert(s2[j] == v.events[j]);
        }
        if i > p {
            assert(s2[i] == v.events[i - 1]);
        }
        if j > p {
            assert(s2[j] == v.events[j - 1]);
        }
    }
}

impl ScheduleUser {
    /// Well-formedness of this schedule part: events sorted by instant.
    pub open spec fn wf(self) -> bool {
        events_sorted(self@.events)
    }

    /// An empty schedule in the default timezone.
    pub fn new() -> (r: Self)
        ensures
            r.wf(),
            r@ == default_schedule_user(),
    {
        let r = ScheduleUser { timezone: String::from_str("UTC"), events: Vec::new() };
        proof {
            assert(r@ =~= default_schedule_user());
        }
        r
    }

    /// Insert an event named `name` at instant `when`, keeping the list
    /// sorted; an event with the same instant as an existing one lands
    /// after it. Returns the created event for the scheduler hand-off.
    pub fn add_event(&mut self, name: String, when: i64) -> (r: ScheduleEvent)
        requires
            old(self).wf(),
        ensures
            final(self).wf(),
            final(self)@ == add_event_effect(old(self)@, name@, when),
            r@ == made_event(old(self)@, name@, when),
    {
        let ev = ScheduleEvent { name, when, tz: self.timezone.clone() };
        let out = ev.clone();
        let ghost s = old(self)@.events;
        let n = self.events.len();
        let mut i: usize = 0;
        while i < n && self.events[i].when <= when
            invariant
                s == self@.events,
                n == self@.events.len(),
                0 <= i <= n,
                events_sorted(s),
                forall|k: int| 0 <= k < i ==> s[k].when <= when,
            decreases n - i,
        {
            i = i + 1;
        }
        proof {
            assert(is_add_pos(s, when, i as int));
            let c = add_pos(s, when);
            assert(is_add_pos(s, when, c));
            assert(c == i as int) by {
                if c < i as int {
                    assert(s[c].when <= when);
                    assert(s[c].when > when);
                } else if c > i as int {
                    assert(s[i as int].when <= when);
                    assert(s[i as int].when > when);
                }
            }
        }
        self.events.insert(i, ev);
        proof {
            assert(self@.events =~= s.insert(i as int, self@.events[i as int])) by {
                s.insert_ensures(i as int, self@.events[i as int]);
                old(self).events@.insert_ensures(i as int, self.events@[i as int]);
            }
            assert(self@ =~= add_event_effect(old(self)@, out@.name, when));
            assert(events_sorted(self@.events)) by {
                s.insert_ensures(i as int, self@.events[i as int]);
                assert forall|p: int, q: int| 0 <= p < q < self@.events.len() implies self@.events[p].when
                    <= self@.events[q].when by {
                    if p < i as int {
                        assert(self@.events[p] == s[p]);
                    }
                    if q < i as int {
                        assert(self@.events[q] == s[q]);
                    }
                    if p > i as int {
                        assert(self@.events[p] == s[p - 1]);
                    }
                    if q > i as int {
                        assert(self@.events[q] == s[q - 1]);
                    }
                }
            }
        }
        out
    }

    /// Remove the first event named exactly `name`; the remaining events
    /// keep their relative order. Fails when no event carries the name.
    pub fn delete_event(&mut self, target: &str) -> (r: Result<String, ScheduleError>)
        requires
            old(self).wf(),
        ensures
            final(self).wf(),
            final(self)@ == delete_event_effect(old(self)@, target@),
            r is Ok <==> has_event(old(self)@.events, target@),
            r matches Ok(s) ==> s@ == target@,
            r matches Err(e) ==> e == ScheduleError::EventNotFound,
    {
        let ghost s = old(self)@.events;
        let n = self.events.len();
        let mut i: usize = 0;
        while i < n
            invariant
                self@ == old(self)@,
                s == self@.events,
                n == self@.events.len(),
                0 <= i <= n,
                events_sorted(s),
                forall|k: int| 0 <= k < i ==> s[k].name != target@,
            decreases n - i,
        {
            if str_eq(self.events[i].name.as_str(), target) {
                proof {
                    assert(is_first_event(s, target@, i as int));
                    let c = first_event_index(s, target@);
                    assert(is_first_event(s, target@, c));
                    assert(c == i as int) by {
                        if c < i as int {
                            assert(s[c].name == target@);
                        } else if c > i as int {
                            assert(s[i as int].name != target@);
                        }
                    }
                }
                let removed = self.events.remove(i);
                proof {
                    assert(self@.events =~= s.remove(i as int));
                    assert(self@ =~= delete_event_effect(old(self)@, target@));
                    assert(events_sorted(self@.events)) by {
                        assert forall|p: int, q: int| 0 <= p < q < self@.events.len() implies self@.events[p].when
                            <= self@.events[q].when by {
                            let op = if p < i as int { p } else { p + 1 };
                            let oq = if q < i as int { q } else { q + 1 };
                            assert(self@.events[p] == s[op]);
                            assert(self@.events[q] == s[oq]);
                        }
                    }
                }
                return Ok(removed.name);
            }
            i = i + 1;
        }
        Err(ScheduleError::EventNotFound)
    }

    /// Set the timezone used to display events created from now on.
    pub fn set_timezone(&mut self, tz: String)
        requires
            old(self).wf(),
        ensures
            final(self).wf(),
            final(self)@ == set_timezone_effect(old(self)@, tz@),
    {
        self.timezone = tz;
        proof {
            assert(self@ =~= set_timezone_effect(old(self)@, self.timezone@));
        }
    }

    /// Remove exactly the events whose instant is at or before `now`; the
    /// others keep their relative order.
    pub fn prune_past_events(&mut self, now: i64)
        requires
            old(self).wf(),
        ensures
            final(self).wf(),
            final(self)@ == prune_effect(old(self)@, now),
    {
        let ghost s = old(self)@.events;
        let mut kept: Vec<ScheduleEvent> = Vec::new();
        let n = self.events.len();
        let mut i: usize = 0;
        while i < n
            invariant
                s == self@.events,
                n == self@.events.len(),
                0 <= i <= n,
                deep_events(kept@) == s.take(i as int).filter(keeps(now)),
            decreases n - i,
        {
            proof {
                reveal(Seq::filter);
                assert(s.take(i + 1).drop_last() =~= s.take(i as int));
                assert(s.take(i + 1).last() == s[i as int]);
            }
            let ghost prev = kept@;
            if self.events[i].when > now {
                kept.push(self.events[i].clone());
                proof {
                    assert(deep_events(kept@) =~= deep_events(prev).push(s[i as int]));
                }
            }
            i = i + 1;
        }
        proof {
            assert(s.take(n as int) =~= s);
            lemma_filter_sorted(s, now);
        }
        self.events = kept;
        proof {
            assert(self@ =~= prune_effect(old(self)@, now));
        }
    }

    /// The schedule as text: one line per event, in stored order, the
    /// instant shown in the event's own timezone.
    pub fn list_events(&self) -> (r: String)
        ensures
            r@ == spec_listing(self@.events),
    {
        let mut out = String::new();
        let n = self.events.len();
        let mut i: usize = 0;
        while i < n
            invariant
                n == self@.events.len(),
                0 <= i <= n,
                out@ == spec_listing(self@.events.take(i as int)),
            decreases n - i,
        {
            proof {
                assert(self@.events.take(i + 1).drop_last() =~= self@.events.take(i as int));
                assert(self@.events.take(i + 1).last() == self@.events[i as int]);
            }
            let shown = render_local(self.events[i].when, self.events[i].tz.as_str());
            out.append(self.events[i].name.as_str());
            out.append(" : ");
            out.append(shown.as_str());
            out.append("\n");
            i = i + 1;
        }
        proof {
            assert(self@.events.take(n as int) =~= self@.events);
        }
        out
    }

    /// The names of the events whose names start with `partial`, in order;
    /// serves name autocompletion.
    pub fn matching_event_names(&self, partial: &str) -> (r: Vec<String>)
        ensures
            deep_strings(r@) == spec_matching_event_names(self@.events, partial@),
    {
        let mut out: Vec<String> = Vec::new();
        let n = self.events.len();
        let mut i: usize = 0;
        while i < n
            invariant
                n == self@.events.len(),
                0 <= i <= n,
                deep_strings(out@) == spec_matching_event_names(
                    self@.events.take(i as int),
                    partial@,
                ),
            decreases n - i,
        {
            proof {
                assert(self@.events.take(i + 1).drop_last() =~= self@.events.take(i as int));
                assert(self@.events.take(i + 1).last() == self@.events[i as int]);
            }
            let ghost prev = out@;
            if str_starts_with(self.events[i].name.as_str(), partial) {
                out.push(self.events[i].name.clone());
                proof {
                    assert(deep_strings(out@) =~= deep_strings(prev).push(
                        self@.events[i as int].name,
                    ));
                }
            }
            i = i + 1;
        }
        proof {
            assert(self@.events.take(n as int) =~= self@.events);
        }
        out
    }
}

impl Clone for ScheduleUser {
    fn clone(&self) -> (r: Self)
        ensures
            r@ == self@,
    {
        let events = self.events.clone();
        proof {
            assert(events@ =~= self.events@) by {
                assert forall|i: int| 0 <= i < events@.len() implies events@[i] == self.events@[i] by {
                    assert(cloned::<ScheduleEvent>(self.events@[i], events@[i]));
                }
            }
        }
        ScheduleUser { timezone: self.timezone.clone(), events }
    }
}

} // verus!
