use vstd::prelude::*;
use crate::audio::{Sound, play_notification};
use crate::format::{format_time, mmss_text};

verus! {

/// Where the work/rest countdown stands.
#[derive(Clone, Copy, Debug, PartialEq, Eq, Structural)]
pub enum TimerPhase {
    /// Not started: the full work duration is shown.
    Idle,
    /// Counting down the work period.
    Work,
    /// Counting down the rest period.
    Rest,
    /// Both periods are over.
    Done,
}

/// The work/rest countdown.
pub struct Timer {
    pub phase: TimerPhase,
    pub timer_duration_mins: u32,
    pub rest_duration_mins: u32,
    pub remaining: u32,
    pub running: bool,
}

/// A duration in minutes whose length in seconds fits in a `u32`.
pub open spec fn minutes_fit(mins: u32) -> bool {
    mins * 60 <= u32::MAX
}

/// Whether a duration of `mins` minutes can be counted down in seconds.
pub fn fits_in_seconds(mins: u32) -> (r: bool)
    ensures
        r == minutes_fit(mins),
{
    mins <= u32::MAX / 60
}

/// The timer after one second of running: the countdown drops by one
/// (not below zero) and, on reaching zero, the phase moves on.
pub open spec fn ticked(t: Timer) -> Timer {
    if !t.running {
        t
    } else {
        let rem = if t.remaining > 0 { (t.remaining - 1) as u32 } else { 0u32 };
        if rem == 0 {
            match t.phase {
                TimerPhase::Work => Timer {
                    phase: TimerPhase::Rest,
                    remaining: (t.rest_duration_mins * 60) as u32,
                    ..t
                },
                TimerPhase::Rest => Timer {
                    phase: TimerPhase::Done,
                    remaining: 0,
                    running: false,
                    ..t
                },
                TimerPhase::Done => Timer { phase: TimerPhase::Idle, remaining: 0, ..t },
                TimerPhase::Idle => Timer { remaining: 0, ..t },
            }
        } else {
            Timer { remaining: rem, ..t }
        }
    }
}

/// Whether one second of running ends a work or a rest period, which
/// rings the notification bell.
pub open spec fn tick_rings(t: Timer) -> bool {
    t.running && t.remaining <= 1 && (t.phase == TimerPhase::Work || t.phase == TimerPhase::Rest)
}

/// The timer after the start action: a running work period of the full
/// work duration.
pub open spec fn started(t: Timer) -> Timer {
    Timer {
        phase: TimerPhase::Work,
        remaining: (t.timer_duration_mins * 60) as u32,
        running: true,
        ..t
    }
}

/// The larger of `a` and `b`.
pub open spec fn max_minutes(a: u32, b: u32) -> u32 {
    if a >= b { a } else { b }
}

/// The most time a timer may have left: the length of its current phase
/// while it runs, the longer of its two durations while it is stopped.
pub open spec fn remaining_cap(t: Timer) -> nat {
    if t.running {
        t.phase_total()
    } else {
        (max_minutes(t.timer_duration_mins, t.rest_duration_mins) * 60) as nat
    }
}

/// `t` with its remaining time cut down to `remaining_cap(t)`.
pub open spec fn capped(t: Timer) -> Timer {
    if t.remaining > remaining_cap(t) {
        Timer { remaining: remaining_cap(t) as u32, ..t }
    } else {
        t
    }
}

/// The timer after its work (or, with `is_rest`, its rest) duration is set
/// to `mins`: a new work duration on a stopped timer refills the remaining
/// time; otherwise the remaining time is kept, but cut down where it would
/// be longer than the timer may now have left.
pub open spec fn with_duration(t: Timer, mins: u32, is_rest: bool) -> Timer {
    if is_rest {
        capped(Timer { rest_duration_mins: mins, ..t })
    } else if !t.running {
        Timer { timer_duration_mins: mins, remaining: (mins * 60) as u32, ..t }
    } else {
        capped(Timer { timer_duration_mins: mins, ..t })
    }
}

impl Timer {
    /// Both durations, in seconds, fit in a `u32`; the time left is never
    /// more than the longer duration, nor, in a work period, more than the
    /// work duration, nor, while running, more than the current phase.
    pub open spec fn wf(&self) -> bool {
        &&& minutes_fit(self.timer_duration_mins)
        &&& minutes_fit(self.rest_duration_mins)
        &&& self.remaining <= max_minutes(self.timer_duration_mins, self.rest_duration_mins) * 60
        &&& self.phase == TimerPhase::Work ==> self.remaining <= self.timer_duration_mins * 60
        &&& self.running ==> self.remaining <= self.phase_total()
    }

    /// The length in seconds of the current phase: the rest duration while
    /// resting, the work duration otherwise.
    pub open spec fn phase_total(&self) -> nat {
        match self.phase {
            TimerPhase::Rest => (self.rest_duration_mins * 60) as nat,
            _ => (self.timer_duration_mins * 60) as nat,
        }
    }

    /// An idle, stopped timer showing the full work duration.
    pub fn new(timer_duration_mins: u32, rest_duration_mins: u32) -> (r: Self)
        requires
            minutes_fit(timer_duration_mins),
            minutes_fit(rest_duration_mins),
        ensures
            r.wf(),
            r.phase == TimerPhase::Idle,
            r.timer_duration_mins == timer_duration_mins,
            r.rest_duration_mins == rest_duration_mins,
            r.remaining == timer_duration_mins * 60,
            !r.running,
    {
        Timer {
            phase: TimerPhase::Idle,
            timer_duration_mins,
            rest_duration_mins,
            remaining: timer_duration_mins * 60,
            running: false,
        }
    }

    /// Starts a work period from its full length, whatever the phase was.
    pub fn start(&mut self)
        requires
            minutes_fit(old(self).timer_duration_mins),
        ensures
            old(self).wf() ==> final(self).wf(),
            *final(self) == started(*old(self)),
    {
        self.running = true;
        self.phase = TimerPhase::Work;
        self.remaining = self.timer_duration_mins * 60;
    }

    /// Stops the countdown; phase and remaining time are kept.
    pub fn pause(&mut self)
        ensures
            *final(self) == (Timer { running: false, ..*old(self) }),
    {
        self.running = false;
    }

    /// Back to idle and stopped, showing the full work duration.
    pub fn reset(&mut self)
        requires
            old(self).wf(),
        ensures
            final(self).wf(),
            final(self).phase == TimerPhase::Idle,
            final(self).remaining == old(self).timer_duration_mins * 60,
            !final(self).running,
            final(self).timer_duration_mins == old(self).timer_duration_mins,
            final(self).rest_duration_mins == old(self).rest_duration_mins,
    {
        self.running = false;
        self.phase = TimerPhase::Idle;
        self.remaining = self.timer_duration_mins * 60;
    }

    /// Sets the rest duration (`is_rest`) or the work duration. A new work
    /// duration on a stopped timer also refills the remaining time; the
    /// result says whether that happened, that is whether the shown time
    /// changed.
    pub fn set_duration(&mut self, mins: u32, is_rest: bool) -> (refilled: bool)
        requires
            old(self).wf(),
            minutes_fit(mins),
        ensures
            final(self).wf(),
            refilled == (!is_rest && !old(self).running),
            *final(self) == with_duration(*old(self), mins, is_rest),
    {
        if is_rest {
            self.rest_duration_mins = mins;
            self.cap_remaining();
            false
        } else {
            self.timer_duration_mins = mins;
            if !self.running {
                self.remaining = mins * 60;
                true
            } else {
                self.cap_remaining();
                false
            }
        }
    }

    /// Cuts the remaining time down to `remaining_cap`.
    fn cap_remaining(&mut self)
        requires
            minutes_fit(old(self).timer_duration_mins),
            minutes_fit(old(self).rest_duration_mins),
        ensures
            *final(self) == capped(*old(self)),
    {
        let cap: u32 = if self.running {
            self.total_seconds()
        } else if self.timer_duration_mins >= self.rest_duration_mins {
            self.timer_duration_mins * 60
        } else {
            self.rest_duration_mins * 60
        };
        if self.remaining > cap {
            self.remaining = cap;
        }
    }

    /// The length in seconds of the current phase, against which progress
    /// is measured.
    pub fn total_seconds(&self) -> (r: u32)
        requires
            minutes_fit(self.timer_duration_mins),
            minutes_fit(self.rest_duration_mins),
        ensures
            r == self.phase_total(),
    {
        match self.phase {
            TimerPhase::Rest => self.rest_duration_mins * 60,
            _ => self.timer_duration_mins * 60,
        }
    }

    /// One second of the countdown. A stopped timer is left as it is. On a
    /// running one the remaining time drops by one (not below zero); on
    /// reaching zero a work period turns into a full rest period, a rest
    /// period ends the countdown: the timer is stopped and stays `Done`
    /// until it is started or reset. The end of a work or rest period queues
    /// the bell. (A running timer in `Done`, which no action produces, would
    /// fall back to `Idle`.)
    pub fn tick(&mut self, sounds: &mut Vec<Sound>)
        requires
            old(self).wf(),
        ensures
            final(self).wf(),
            *final(self) == ticked(*old(self)),
            final(sounds)@ == (if tick_rings(*old(self)) {
                old(sounds)@.push(Sound::Notification)
            } else {
                old(sounds)@
            }),
    {
        if !self.running {
            return;
        }
        if self.remaining > 0 {
            self.remaining = self.remaining - 1;
        }
        if self.remaining == 0 {
            match self.phase {
                TimerPhase::Work => {
                    self.phase = TimerPhase::Rest;
                    self.remaining = self.rest_duration_mins * 60;
                    play_notification(sounds);
                },
                TimerPhase::Rest => {
                    self.phase = TimerPhase::Done;
                    self.running = false;
                    play_notification(sounds);
                },
                TimerPhase::Done => {
                    self.phase = TimerPhase::Idle;
                },
                TimerPhase::Idle => {},
            }
        }
    }
}

/// What one second of a running timer shows.
pub struct TimerTick {
    /// The remaining time as `MM:SS`.
    pub time: String,
    /// Seconds left in the current phase.
    pub remaining: u32,
    /// Length of the current phase in seconds; progress is
    /// `remaining / total`, or full when `total` is zero.
    pub total: u32,
    pub running: bool,
    /// The countdown has finished (`Done`).
    pub finished: bool,
    /// The timer is in its rest period.
    pub is_rest: bool,
}

/// One second of the widget's countdown: a stopped timer is skipped
/// (`None`); a running one ticks and its new state is reported.
pub fn timer_tick(timer: &mut Timer, sounds: &mut Vec<Sound>) -> (r: Option<TimerTick>)
    requires
        old(timer).wf(),
    ensures
        final(timer).wf(),
        *final(timer) == ticked(*old(timer)),
        r is None <==> !old(timer).running,
        r matches Some(d) ==> d.time@ == mmss_text(final(timer).remaining as nat) && d.remaining
            == final(timer).remaining && d.total == final(timer).phase_total() && d.running
            == final(timer).running && d.finished == (final(timer).phase == TimerPhase::Done)
            && d.is_rest == (final(timer).phase == TimerPhase::Rest) && d.remaining <= d.total,
        final(sounds)@ == (if tick_rings(*old(timer)) {
            old(sounds)@.push(Sound::Notification)
        } else {
            old(sounds)@
        }),
{
    if !timer.running {
        return None;
    }
    timer.tick(sounds);
    let total = timer.total_seconds();
    Some(
        TimerTick {
            time: format_time(timer.remaining),
            remaining: timer.remaining,
            total,
            running: timer.running,
            finished: timer.phase == TimerPhase::Done,
            is_rest: timer.phase == TimerPhase::Rest,
        },
    )
}

/// Starting puts the timer, from `Done` or any other phase, into a running
/// work period with the full work duration, whatever time was left before;
/// both durations are kept.
pub proof fn lemma_start_from_any_phase(t: Timer)
    requires
        minutes_fit(t.timer_duration_mins),
    ensures
        started(t).phase == TimerPhase::Work,
        started(t).running,
        started(t).remaining == t.timer_duration_mins * 60,
        started(t).timer_duration_mins == t.timer_duration_mins,
        started(t).rest_duration_mins == t.rest_duration_mins,
        forall|u: Timer|
            u.timer_duration_mins == t.timer_duration_mins && u.rest_duration_mins
                == t.rest_duration_mins ==> #[trigger] started(u) == started(t),
{
}

/// A running work period turns into a rest period on a tick exactly when at
/// most one second is left, and otherwise counts down by one; the rest
/// period starts from the full rest duration. A running rest period with at
/// most one second left ends the countdown and stops the timer. The bell
/// rings on a tick exactly when it makes one of these two transitions.
pub proof fn lemma_phase_transitions(t: Timer)
    ensures
        (t.phase == TimerPhase::Work && ticked(t).phase == TimerPhase::Rest) <==> (t.running
            && t.phase == TimerPhase::Work && t.remaining <= 1),
        t.running && t.phase == TimerPhase::Work && t.remaining <= 1 ==> ticked(t).running && (
        minutes_fit(t.rest_duration_mins) ==> ticked(t).remaining == t.rest_duration_mins * 60),
        t.running && t.phase == TimerPhase::Work && t.remaining >= 2 ==> ticked(t).phase
            == TimerPhase::Work && ticked(t).running && ticked(t).remaining == t.remaining - 1
            && !tick_rings(t),
        t.running && t.phase == TimerPhase::Rest && t.remaining <= 1 ==> ticked(t).phase
            == TimerPhase::Done && !ticked(t).running && ticked(t).remaining == 0,
        t.phase == TimerPhase::Rest && ticked(t).phase == TimerPhase::Done ==> !ticked(t).running,
        tick_rings(t) <==> ((t.phase == TimerPhase::Work && ticked(t).phase == TimerPhase::Rest)
            || (t.phase == TimerPhase::Rest && ticked(t).phase == TimerPhase::Done)),
{
}

/// Changing the rest duration during a work period leaves the phase, the
/// remaining time and the length of the current phase (and so the shown
/// time and progress) as they were, and so does every following tick that
/// stays in the work period.
pub proof fn lemma_rest_change_keeps_work(t: Timer, mins: u32)
    requires
        t.wf(),
        t.phase == TimerPhase::Work,
    ensures
        with_duration(t, mins, true).remaining == t.remaining,
        with_duration(t, mins, true).phase == TimerPhase::Work,
        with_duration(t, mins, true).running == t.running,
        with_duration(t, mins, true).timer_duration_mins == t.timer_duration_mins,
        with_duration(t, mins, true).phase_total() == t.phase_total(),
        ticked(with_duration(t, mins, true)).phase == TimerPhase::Work ==> ticked(t).phase
            == TimerPhase::Work && ticked(with_duration(t, mins, true)).remaining
            == ticked(t).remaining && ticked(with_duration(t, mins, true)).phase_total()
            == ticked(t).phase_total(),
{
}

} // verus!
