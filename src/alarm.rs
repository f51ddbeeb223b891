use vstd::prelude::*;
use chrono::Timelike;
use crate::audio::{Sound, play_alarm};
use crate::format::{format_time_hms, hhmmss_text};

verus! {

/// Seconds in a day.
pub const SECONDS_PER_DAY: u32 = 86400;

/// The daily alarm: a target time of day and whether it is armed or has
/// gone off.
pub struct Alarm {
    pub hours: u32,
    pub minutes: u32,
    pub enabled: bool,
    pub triggered: bool,
}

/// Seconds from the clock reading `h:m:s` to the next `th:tm:00`: today if
/// that has not passed yet, tomorrow otherwise.
pub open spec fn seconds_until(th: nat, tm: nat, h: nat, m: nat, s: nat) -> nat {
    let diff = (th * 3600 + tm * 60) - (h * 3600 + m * 60 + s);
    if diff < 0 {
        (diff + 86400) as nat
    } else {
        diff as nat
    }
}

/// Seconds left on alarm `a` at the clock reading `h:m:s`: the time to its
/// target while it is armed, 0 while it is not.
pub open spec fn remaining_at(a: Alarm, h: nat, m: nat, s: nat) -> nat {
    if a.enabled {
        seconds_until(a.hours as nat, a.minutes as nat, h, m, s)
    } else {
        0
    }
}

/// Whether the alarm goes off when the clock shows hour `h`, minute `m`.
pub open spec fn fires(a: Alarm, h: u32, m: u32) -> bool {
    a.enabled && !a.triggered && h == a.hours && m == a.minutes
}

/// The alarm after it is checked at hour `h`, minute `m`.
pub open spec fn checked(a: Alarm, h: u32, m: u32) -> Alarm {
    if fires(a, h, m) {
        Alarm { triggered: true, enabled: false, ..a }
    } else {
        a
    }
}

/// The `HH:MM:SS` text of the seconds left on alarm `a` at the clock
/// reading `h:m:s`.
pub open spec fn shown_at(a: Alarm, h: u32, m: u32, s: u32) -> Seq<char> {
    hhmmss_text(remaining_at(a, h as nat, m as nat, s as nat))
}

/// Relies on chrono's `Local::now` with `Timelike::{hour, minute, second}`:
/// the local time of day, hour 0 to 23, minute and second 0 to 59.
#[verifier::external_body]
fn local_time_of_day() -> (r: (u32, u32, u32))
    ensures
        r.0 < 24,
        r.1 < 60,
        r.2 < 60,
{
    let now = chrono::Local::now();
    (now.hour(), now.minute(), now.second())
}

impl Alarm {
    /// A valid time of day, and a triggered alarm is disarmed.
    pub open spec fn wf(&self) -> bool {
        self.hours < 24 && self.minutes < 60 && (self.triggered ==> !self.enabled)
    }

    /// A disarmed alarm for `hours:minutes`.
    pub fn new(hours: u32, minutes: u32) -> (r: Self)
        requires
            hours < 24,
            minutes < 60,
        ensures
            r.wf(),
            r == (Alarm { hours, minutes, enabled: false, triggered: false }),
    {
        Alarm { hours, minutes, enabled: false, triggered: false }
    }

    /// Goes off, once, when the clock reads the target hour and minute on
    /// an armed alarm: it is then marked triggered and disarmed, and `true`
    /// is returned. Otherwise nothing changes.
    pub fn check_and_trigger_at(&mut self, hour: u32, minute: u32) -> (fired: bool)
        requires
            old(self).wf(),
        ensures
            final(self).wf(),
            fired == fires(*old(self), hour, minute),
            *final(self) == checked(*old(self), hour, minute),
    {
        if !self.enabled || self.triggered {
            return false;
        }
        if hour == self.hours && minute == self.minutes {
            self.triggered = true;
            self.enabled = false;
            return true;
        }
        false
    }

    /// `check_and_trigger_at` on the local clock.
    pub fn check_and_trigger(&mut self) -> (fired: bool)
        requires
            old(self).wf(),
        ensures
            final(self).wf(),
            exists|h: u32, m: u32|
                h < 24 && m < 60 && fired == fires(*old(self), h, m) && *final(self) == checked(
                    *old(self),
                    h,
                    m,
                ),
    {
        let (h, m, _s) = local_time_of_day();
        self.check_and_trigger_at(h, m)
    }

    /// Sets the target time; a triggered alarm is no longer marked so.
    pub fn set_time(&mut self, hours: u32, minutes: u32)
        requires
            old(self).wf(),
            hours < 24,
            minutes < 60,
        ensures
            final(self).wf(),
            *final(self) == (Alarm { hours, minutes, triggered: false, ..*old(self) }),
    {
        self.hours = hours;
        self.minutes = minutes;
        self.triggered = false;
    }

    /// Arms the alarm.
    pub fn enable(&mut self)
        requires
            old(self).wf(),
        ensures
            final(self).wf(),
            *final(self) == (Alarm { enabled: true, triggered: false, ..*old(self) }),
    {
        self.enabled = true;
        self.triggered = false;
    }

    /// Disarms the alarm and clears its triggered mark.
    pub fn reset(&mut self)
        requires
            old(self).wf(),
        ensures
            final(self).wf(),
            *final(self) == (Alarm { enabled: false, triggered: false, ..*old(self) }),
    {
        self.enabled = false;
        self.triggered = false;
    }

    /// Seconds from the clock reading `hour:minute:second` until the next
    /// time the target time of day comes round; 0 while the alarm is not
    /// armed.
    pub fn remaining_seconds_at(&self, hour: u32, minute: u32, second: u32) -> (r: u32)
        requires
            self.wf(),
            hour < 24,
            minute < 60,
            second < 60,
        ensures
            r == remaining_at(*self, hour as nat, minute as nat, second as nat),
            r < SECONDS_PER_DAY,
    {
        if !self.enabled {
            return 0;
        }
        let target: u32 = self.hours * 3600 + self.minutes * 60;
        let current: u32 = hour * 3600 + minute * 60 + second;
        if target < current {
            target + SECONDS_PER_DAY - current
        } else {
            target - current
        }
    }

    /// `remaining_seconds_at` on the local clock, which is read only while
    /// the alarm is armed.
    pub fn remaining_seconds(&self) -> (r: u32)
        requires
            self.wf(),
        ensures
            r < SECONDS_PER_DAY,
            !self.enabled ==> r == 0,
            exists|h: nat, m: nat, s: nat|
                h < 24 && m < 60 && s < 60 && r == #[trigger] remaining_at(*self, h, m, s),
    {
        if !self.enabled {
            assert(remaining_at(*self, 0, 0, 0) == 0);
            return 0;
        }
        let (h, m, s) = local_time_of_day();
        let r = self.remaining_seconds_at(h, m, s);
        assert(r == remaining_at(*self, h as nat, m as nat, s as nat));
        r
    }
}

/// What one second of the alarm shows and does.
pub struct AlarmTick {
    /// The alarm went off on this tick.
    pub triggered: bool,
    /// `HH:MM:SS` left on the alarm after this tick's check (0 once it has
    /// gone off), shown while it is armed or on the tick it goes off.
    pub display: Option<String>,
}

/// What one second of the alarm does to `before` at the clock reading `h:m:s`,
/// leaving `after` and reporting `r` (sounds aside).
pub open spec fn ticked_at(before: Alarm, after: Alarm, r: AlarmTick, h: u32, m: u32, s: u32) -> bool {
    &&& h < 24 && m < 60 && s < 60
    &&& r.triggered == fires(before, h, m)
    &&& after == checked(before, h, m)
    &&& r.display is Some == (after.enabled || r.triggered)
    &&& r.display matches Some(t) ==> t@ == shown_at(after, h, m, s)
}

/// One second of the alarm at the clock reading `hour:minute:second`: it is
/// checked, the time left is shown while it is armed or as it goes off, and
/// going off queues the alarm clip.
pub fn alarm_tick_at(
    alarm: &mut Alarm,
    hour: u32,
    minute: u32,
    second: u32,
    sounds: &mut Vec<Sound>,
) -> (r: AlarmTick)
    requires
        old(alarm).wf(),
        hour < 24,
        minute < 60,
        second < 60,
    ensures
        final(alarm).wf(),
        ticked_at(*old(alarm), *final(alarm), r, hour, minute, second),
        final(sounds)@ == (if r.triggered {
            old(sounds)@.push(Sound::Alarm)
        } else {
            old(sounds)@
        }),
{
    let triggered = alarm.check_and_trigger_at(hour, minute);
    let remaining = alarm.remaining_seconds_at(hour, minute, second);
    let display = if alarm.enabled || triggered {
        Some(format_time_hms(remaining))
    } else {
        None
    };
    if triggered {
        play_alarm(sounds);
    }
    AlarmTick { triggered, display }
}

/// `alarm_tick_at` on the local clock.
pub fn alarm_tick(alarm: &mut Alarm, sounds: &mut Vec<Sound>) -> (r: AlarmTick)
    requires
        old(alarm).wf(),
    ensures
        final(alarm).wf(),
        exists|h: u32, m: u32, s: u32| #[trigger] ticked_at(*old(alarm), *final(alarm), r, h, m, s),
        final(sounds)@ == (if r.triggered {
            old(sounds)@.push(Sound::Alarm)
        } else {
            old(sounds)@
        }),
{
    let (h, m, s) = local_time_of_day();
    alarm_tick_at(alarm, h, m, s, sounds)
}

/// An armed alarm shows no time left at its own target time, goes off when
/// checked then, and afterwards shows 0 and does not go off again, whatever
/// the clock reads, until it is armed anew.
pub proof fn lemma_fires_once(a: Alarm, h: u32, m: u32, s: u32)
    requires
        a.wf(),
        a.enabled,
    ensures
        remaining_at(a, a.hours as nat, a.minutes as nat, 0) == 0,
        fires(a, a.hours, a.minutes),
        checked(a, a.hours, a.minutes).triggered,
        !checked(a, a.hours, a.minutes).enabled,
        remaining_at(checked(a, a.hours, a.minutes), h as nat, m as nat, s as nat) == 0,
        !fires(checked(a, a.hours, a.minutes), h, m),
        checked(checked(a, a.hours, a.minutes), h, m) == checked(a, a.hours, a.minutes),
{
}

/// The alarm after it is checked at each `(hour, minute)` reading of
/// `readings` in turn, and how many of those checks made it go off.
pub open spec fn run_checks(a: Alarm, readings: Seq<(u32, u32)>) -> (Alarm, nat)
    decreases readings.len(),
{
    if readings.len() == 0 {
        (a, 0)
    } else {
        let (h, m) = readings[0];
        let rest = run_checks(checked(a, h, m), readings.drop_first());
        (rest.0, rest.1 + if fires(a, h, m) { 1nat } else { 0nat })
    }
}

/// Checks of a disarmed alarm never make it go off and leave it as it is.
pub proof fn lemma_disarmed_checks(a: Alarm, readings: Seq<(u32, u32)>)
    requires
        !a.enabled,
    ensures
        run_checks(a, readings) == (a, 0nat),
    decreases readings.len(),
{
    if readings.len() > 0 {
        lemma_disarmed_checks(a, readings.drop_first());
    }
}

/// However many checks follow one another, at whatever clock readings, with
/// no arming, time change or reset in between, at most one of them makes
/// the alarm go off; once one has, the alarm ends triggered and disarmed.
pub proof fn lemma_fires_at_most_once(a: Alarm, readings: Seq<(u32, u32)>)
    requires
        a.wf(),
    ensures
        run_checks(a, readings).1 <= 1,
        run_checks(a, readings).1 == 1 ==> run_checks(a, readings).0.triggered
            && !run_checks(a, readings).0.enabled,
        run_checks(a, readings).0.wf(),
    decreases readings.len(),
{
    if readings.len() > 0 {
        let (h, m) = readings[0];
        let b = checked(a, h, m);
        if fires(a, h, m) {
            lemma_disarmed_checks(b, readings.drop_first());
        } else {
            lemma_fires_at_most_once(b, readings.drop_first());
        }
    }
}

} // verus!
