//! Timers that fire once each time they are set.

use vstd::prelude::*;

verus! {

/// A timer. Times are nanoseconds on a monotonic clock.
#[derive(Clone, Copy, PartialEq, Eq, Structural, Debug)]
pub struct Timer {
    deadline: u128,
    running: bool,
}

/// The abstract value of a [`Timer`].
pub struct TimerView {
    /// The time for which the timer was last set.
    pub deadline: u128,
    /// Whether it is yet to fire for that time.
    pub running: bool,
}

impl View for Timer {
    type V = TimerView;

    closed spec fn view(&self) -> TimerView {
        TimerView { deadline: self.deadline, running: self.running }
    }
}

impl TimerView {
    /// The timer after it was set to fire `duration` after `now`.
    pub open spec fn reset(self, now: u128, duration: u128) -> TimerView {
        TimerView { deadline: (now + duration) as u128, running: true }
    }

    /// Whether the timer fires, given that its deadline has passed or not.
    pub open spec fn fires(self, elapsed: bool) -> bool {
        self.running && elapsed
    }

    /// The timer after it was polled.
    pub open spec fn polled(self, elapsed: bool) -> TimerView {
        TimerView { running: self.running && !elapsed, ..self }
    }
}

impl Timer {
    /// A timer that is not running, made at `now`.
    pub fn new(now: u128) -> (timer: Timer)
        ensures
            timer@ == (TimerView { deadline: now, running: false }),
    {
        Timer { deadline: now, running: false }
    }

    /// Sets the timer to fire `duration` from `now`, whatever it was set to
    /// before.
    pub fn reset(&mut self, now: u128, duration: u128)
        requires
            now + duration <= u128::MAX,
        ensures
            final(self)@ == old(self)@.reset(now, duration),
    {
        self.deadline = now + duration;
        self.running = true;
    }

    /// Polls the timer, where `elapsed` says whether its deadline has passed.
    /// Returns whether the timer fires; it then stops running.
    pub fn poll(&mut self, elapsed: bool) -> (fired: bool)
        ensures
            fired == old(self)@.fires(elapsed),
            final(self)@ == old(self)@.polled(elapsed),
    {
        if self.running {
            if elapsed {
                self.running = false;
            }
            elapsed
        } else {
            false
        }
    }

    /// The time for which the timer was last set.
    pub fn deadline(&self) -> (deadline: u128)
        ensures
            deadline == self@.deadline,
    {
        self.deadline
    }

    /// Whether the timer is yet to fire.
    pub fn running(&self) -> (running: bool)
        ensures
            running == self@.running,
    {
        self.running
    }
}

/// Names one of the timers of a port.
#[derive(Clone, Copy, PartialEq, Eq, Structural, Debug)]
pub enum TimerName {
    PortSync,
    PortAnnounce,
    PortAnnounceTimeout,
    DelayRequest,
    FilterUpdate,
}

/// The timers of a port.
#[derive(Clone, Copy, PartialEq, Eq, Structural, Debug)]
pub struct Timers {
    pub port_sync_timer: Timer,
    pub port_announce_timer: Timer,
    pub port_announce_timeout_timer: Timer,
    pub delay_request_timer: Timer,
    pub filter_update_timer: Timer,
}

impl Timers {
    /// The timer of the given name.
    pub open spec fn timer(self, name: TimerName) -> Timer {
        match name {
            TimerName::PortSync => self.port_sync_timer,
            TimerName::PortAnnounce => self.port_announce_timer,
            TimerName::PortAnnounceTimeout => self.port_announce_timeout_timer,
            TimerName::DelayRequest => self.delay_request_timer,
            TimerName::FilterUpdate => self.filter_update_timer,
        }
    }

    /// Whether `after` differs from these timers in the named one at most.
    pub open spec fn same_but(self, after: Timers, name: TimerName) -> bool {
        forall|other: TimerName|
            other != name ==> #[trigger] after.timer(other) == self.timer(other)
    }

    /// Five timers, none of them running.
    pub fn new(now: u128) -> (timers: Timers)
        ensures
            forall|name: TimerName| (#[trigger] timers.timer(name))@ == (TimerView {
                deadline: now,
                running: false,
            }),
    {
        Timers {
            port_sync_timer: Timer::new(now),
            port_announce_timer: Timer::new(now),
            port_announce_timeout_timer: Timer::new(now),
            delay_request_timer: Timer::new(now),
            filter_update_timer: Timer::new(now),
        }
    }

    /// Sets the named timer to fire `duration` from `now`.
    pub fn reset(&mut self, name: TimerName, now: u128, duration: u128)
        requires
            now + duration <= u128::MAX,
        ensures
            final(self).timer(name)@ == old(self).timer(name)@.reset(now, duration),
            old(self).same_but(*final(self), name),
    {
        match name {
            TimerName::PortSync => self.port_sync_timer.reset(now, duration),
            TimerName::PortAnnounce => self.port_announce_timer.reset(now, duration),
            TimerName::PortAnnounceTimeout => {
                self.port_announce_timeout_timer.reset(now, duration)
            },
            TimerName::DelayRequest => self.delay_request_timer.reset(now, duration),
            TimerName::FilterUpdate => self.filter_update_timer.reset(now, duration),
        }
    }

    /// Polls the named timer, as [`Timer::poll`] does.
    pub fn poll(&mut self, name: TimerName, elapsed: bool) -> (fired: bool)
        ensures
            fired == old(self).timer(name)@.fires(elapsed),
            final(self).timer(name)@ == old(self).timer(name)@.polled(elapsed),
            old(self).same_but(*final(self), name),
    {
        match name {
            TimerName::PortSync => self.port_sync_timer.poll(elapsed),
            TimerName::PortAnnounce => self.port_announce_timer.poll(elapsed),
            TimerName::PortAnnounceTimeout => self.port_announce_timeout_timer.poll(elapsed),
            TimerName::DelayRequest => self.delay_request_timer.poll(elapsed),
            TimerName::FilterUpdate => self.filter_update_timer.poll(elapsed),
        }
    }
}

/// The timer after a number of polls, each told whether the deadline has passed.
pub open spec fn polled_often(timer: TimerView, polls: Seq<bool>) -> TimerView
    decreases polls.len(),
{
    if polls.len() == 0 {
        timer
    } else {
        polled_often(timer, polls.drop_last()).polled(polls.last())
    }
}

/// However often a timer is polled, it runs on exactly if it ran before and no
/// poll found its deadline passed; and its deadline stays.
pub proof fn law_timer_runs_until_it_fires(timer: TimerView, polls: Seq<bool>)
    ensures
        polled_often(timer, polls).running <==> timer.running && !polls.contains(true),
        polled_often(timer, polls).deadline == timer.deadline,
    decreases polls.len(),
{
    if polls.len() > 0 {
        let earlier = polls.drop_last();
        law_timer_runs_until_it_fires(timer, earlier);
        assert(polls =~= earlier.push(polls.last()));
        if earlier.contains(true) {
            let i = choose|i: int| 0 <= i < earlier.len() && earlier[i] == true;
            assert(polls[i] == true);
        }
        if polls.last() {
            assert(polls[polls.len() - 1] == true);
        } else if polls.contains(true) {
            let i = choose|i: int| 0 <= i < polls.len() && polls[i] == true;
            assert(earlier[i] == true);
        }
    }
}

/// A timer fires once each time it is set, at the first poll that finds its
/// deadline passed, and after that not again until it is set anew.
pub proof fn law_timer_fires_once(
    timer: TimerView,
    now: u128,
    duration: u128,
    before: Seq<bool>,
    after: Seq<bool>,
    elapsed: bool,
)
    requires
        now + duration <= u128::MAX,
        !before.contains(true),
    ensures
        polled_often(timer.reset(now, duration), before).fires(true),
        !polled_often(timer.reset(now, duration), before).fires(false),
        !polled_often(
            polled_often(timer.reset(now, duration), before).polled(true),
            after,
        ).fires(elapsed),
{
    law_timer_runs_until_it_fires(timer.reset(now, duration), before);
    law_timer_runs_until_it_fires(
        polled_often(timer.reset(now, duration), before).polled(true),
        after,
    );
}

/// A timer that was never set never fires.
pub proof fn law_new_timer_never_fires(now: u128, polls: Seq<bool>, elapsed: bool)
    ensures
        !polled_often(TimerView { deadline: now, running: false }, polls).fires(elapsed),
{
    law_timer_runs_until_it_fires(TimerView { deadline: now, running: false }, polls);
}

/// A timer that was set runs, and has `now` and `duration` added up for its deadline,
/// whatever it was set to before.
pub proof fn law_set_timer(timer: TimerView, now: u128, duration: u128)
    requires
        now + duration <= u128::MAX,
    ensures
        timer.reset(now, duration).running,
        timer.reset(now, duration).deadline == now + duration,
{
}

/// A poll keeps the deadline. It fires the timer, and stops it, if the timer runs and
/// its deadline has passed; otherwise the timer stays as it is.
pub proof fn law_polled_timer(timer: TimerView)
    ensures
        timer.running ==> timer.fires(true) && !timer.polled(true).running,
        timer.running ==> !timer.fires(false) && timer.polled(false) == timer,
        !timer.running ==> !timer.fires(true) && timer.polled(true) == timer,
        !timer.running ==> !timer.fires(false) && timer.polled(false) == timer,
        timer.polled(true).deadline == timer.deadline,
{
}

/// Each name stands for the timer of that name, and timers that are the same but for
/// one have the other four in common, and need no more than that.
pub proof fn law_timers_by_name(before: Timers, after: Timers)
    ensures
        before.timer(TimerName::PortSync) == before.port_sync_timer,
        before.timer(TimerName::PortAnnounce) == before.port_announce_timer,
        before.timer(TimerName::PortAnnounceTimeout) == before.port_announce_timeout_timer,
        before.timer(TimerName::DelayRequest) == before.delay_request_timer,
        before.timer(TimerName::FilterUpdate) == before.filter_update_timer,
        before.same_but(after, TimerName::PortSync) <==> after == (Timers {
            port_sync_timer: after.port_sync_timer,
            ..before
        }),
        before.same_but(after, TimerName::PortAnnounce) <==> after == (Timers {
            port_announce_timer: after.port_announce_timer,
            ..before
        }),
        before.same_but(after, TimerName::PortAnnounceTimeout) <==> after == (Timers {
            port_announce_timeout_timer: after.port_announce_timeout_timer,
            ..before
        }),
        before.same_but(after, TimerName::DelayRequest) <==> after == (Timers {
            delay_request_timer: after.delay_request_timer,
            ..before
        }),
        before.same_but(after, TimerName::FilterUpdate) <==> after == (Timers {
            filter_update_timer: after.filter_update_timer,
            ..before
        }),
{
    assert(after.timer(TimerName::PortSync) == after.port_sync_timer);
    assert(after.timer(TimerName::PortAnnounce) == after.port_announce_timer);
    assert(after.timer(TimerName::PortAnnounceTimeout) == after.port_announce_timeout_timer);
    assert(after.timer(TimerName::DelayRequest) == after.delay_request_timer);
    assert(after.timer(TimerName::FilterUpdate) == after.filter_update_timer);
}

/// None of the timers of a port runs before it is set.
pub proof fn law_new_timers(now: u128, timers: Timers)
    requires
        call_ensures(Timers::new, (now,), timers),
    ensures
        !timers.port_sync_timer@.running,
        !timers.port_announce_timer@.running,
        !timers.port_announce_timeout_timer@.running,
        !timers.delay_request_timer@.running,
        !timers.filter_update_timer@.running,
{
    assert(timers.timer(TimerName::PortSync)@.running == false);
    assert(timers.timer(TimerName::PortAnnounce)@.running == false);
    assert(timers.timer(TimerName::PortAnnounceTimeout)@.running == false);
    assert(timers.timer(TimerName::DelayRequest)@.running == false);
    assert(timers.timer(TimerName::FilterUpdate)@.running == false);
}

} // verus!
