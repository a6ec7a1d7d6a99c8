//! The reminder scheduler's state machine. Each stored event gets one
//! independent timer: armed as `Pending`, it fires exactly once, yielding
//! the one delivery for the notification collaborator. There is no
//! cancellation transition. The timer sleep itself and the delivery call
//! live with the surrounding process; this module fixes what is slept for
//! and what exactly is delivered.

use vstd::prelude::*;
use crate::schedule::ScheduleEvent;

verus! {

/// One notification for the delivery collaborator: the user to reach and
/// the text to send.
#[derive(Debug)]
pub struct Delivery {
    pub user_id: u64,
    pub text: String,
}

/// One armed one-shot reminder. `fired` is the whole state machine:
/// `Pending` (`false`) to `Fired` (`true`), with no way back and no other
/// transition.
#[derive(Debug)]
pub struct ReminderTimer {
    pub user_id: u64,
    pub event_name: String,
    pub instant: i64,
    pub fired: bool,
}

/// The seconds a timer armed at `now` for instant `when` sleeps: the time
/// until `when`, or nothing for a past-due instant, which fires at once.
pub open spec fn arm_delay(when: i64, now: i64) -> int {
    if when > now {
        when - now
    } else {
        0
    }
}

/// Law: a reminder armed at `now` for instant `when` fires at or after
/// `when`, and a reminder for a future instant fires exactly at it.
pub proof fn lemma_fire_at_or_after(when: i64, now: i64)
    requires
        0 <= now,
    ensures
        arm_delay(when, now) >= 0,
        now + arm_delay(when, now) >= when,
        (when >= now ==> now + arm_delay(when, now) == when),
{
}

/// Arm one timer for `event`, owned by `user_id`, at instant `now`.
/// Returns the pending timer and the seconds to sleep before firing it.
pub fn arm(user_id: u64, event: &ScheduleEvent, now: i64) -> (out: (ReminderTimer, i64))
    requires
        0 <= now,
    ensures
        out.0.user_id == user_id,
        out.0.event_name@ == event@.name,
        out.0.instant == event@.when,
        !out.0.fired,
        out.1 == arm_delay(event@.when, now),
        now + out.1 >= event@.when,
        event@.when >= now ==> now + out.1 == event@.when,
{
    let delay: i64 = if event.when > now {
        event.when - now
    } else {
        0
    };
    let timer = ReminderTimer {
        user_id,
        event_name: event.name.clone(),
        instant: event.when,
        fired: false,
    };
    (timer, delay)
}

impl ReminderTimer {
    /// Fire a pending timer: it becomes `Fired` and yields the one
    /// delivery for its event. A fired timer cannot fire again, so each
    /// armed reminder results in exactly one delivery call.
    pub fn fire(&mut self) -> (d: Delivery)
        requires
            !old(self).fired,
        ensures
            final(self).fired,
            final(self).user_id == old(self).user_id,
            final(self).event_name == old(self).event_name,
            final(self).instant == old(self).instant,
            d.user_id == old(self).user_id,
            d.text@ == old(self).event_name@,
    {
        self.fired = true;
        Delivery { user_id: self.user_id, text: self.event_name.clone() }
    }
}

/// Arm one timer per stored `(user, event)` pair; seeds the scheduler at
/// startup with every stored event, past-due ones included.
pub fn seed_timers(events: &Vec<(u64, ScheduleEvent)>, now: i64) -> (r: Vec<(ReminderTimer, i64)>)
    requires
        0 <= now,
    ensures
        r@.len() == events@.len(),
        forall|i: int| 0 <= i < r@.len() ==> {
            &&& (#[trigger] r@[i]).0.user_id == events@[i].0
            &&& r@[i].0.event_name@ == events@[i].1@.name
            &&& r@[i].0.instant == events@[i].1@.when
            &&& !r@[i].0.fired
            &&& r@[i].1 == arm_delay(events@[i].1@.when, now)
            &&& now + r@[i].1 >= events@[i].1@.when
        },
{
    let mut out: Vec<(ReminderTimer, i64)> = Vec::new();
    let n = events.len();
    let mut i: usize = 0;
    while i < n
        invariant
            n == events@.len(),
            0 <= i <= n,
            0 <= now,
            out@.len() == i,
            forall|k: int| 0 <= k < i ==> {
                &&& (#[trigger] out@[k]).0.user_id == events@[k].0
                &&& out@[k].0.event_name@ == events@[k].1@.name
                &&& out@[k].0.instant == events@[k].1@.when
                &&& !out@[k].0.fired
                &&& out@[k].1 == arm_delay(events@[k].1@.when, now)
                &&& now + out@[k].1 >= events@[k].1@.when
            },
        decreases n - i,
    {
        let armed = arm(events[i].0, &events[i].1, now);
        out.push(armed);
        i = i + 1;
    }
    out
}

} // verus!
