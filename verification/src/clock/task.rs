//! The task that keeps a clock and the system clock together.
//!
//! The task measures the offset between the two clocks in regular intervals and
//! feeds it to a filter, which steers the one clock that follows the other.

use crate::clock::system::{ClockSyncMode, LinuxClock, SharedOverlayClock, SystemClock};
use crate::time::{half, Duration, Instant};
use vstd::prelude::*;

verus! {

/// How long after a measurement the next one is due, in nanoseconds.
pub const MEASUREMENT_INTERVAL: u128 = 250_000_000;

/// A measurement of one clock against another.
#[derive(Clone, Copy, Debug)]
pub struct Measurement {
    pub event_time: Instant,
    pub offset: Option<Duration>,
    pub delay: Option<Duration>,
    pub peer_delay: Option<Duration>,
    pub raw_sync_offset: Option<Duration>,
    pub raw_delay_offset: Option<Duration>,
}

/// The abstract value of a [`Measurement`], with times in units.
pub struct MeasurementView {
    pub event_time: int,
    pub offset: Option<int>,
    pub delay: Option<int>,
    pub peer_delay: Option<int>,
    pub raw_sync_offset: Option<int>,
    pub raw_delay_offset: Option<int>,
}

/// A span that may be absent, in units.
pub open spec fn span_units(span: Option<Duration>) -> Option<int> {
    match span {
        Some(d) => Some(d@),
        None => None,
    }
}

impl View for Measurement {
    type V = MeasurementView;

    open spec fn view(&self) -> MeasurementView {
        MeasurementView {
            event_time: self.event_time@,
            offset: span_units(self.offset),
            delay: span_units(self.delay),
            peer_delay: span_units(self.peer_delay),
            raw_sync_offset: span_units(self.raw_sync_offset),
            raw_delay_offset: span_units(self.raw_delay_offset),
        }
    }
}

/// What three readings in a row, of the system clock at `t1`, of the other clock
/// at `t2` and of the system clock again at `t3`, say of the clock that follows.
/// The delay is half of the time that the readings took. The other clock is
/// compared at its own reading, the system clock halfway between its two.
pub open spec fn interclock(mode: ClockSyncMode, t1: int, t2: int, t3: int) -> MeasurementView {
    let delay = half(t3 - t1);
    match mode {
        ClockSyncMode::FromSystem => MeasurementView {
            event_time: t2,
            offset: Some((t2 - t1) - delay),
            delay: Some(delay),
            peer_delay: None,
            raw_sync_offset: Some(t2 - t1),
            raw_delay_offset: Some(-(t3 - t2)),
        },
        ClockSyncMode::ToSystem => MeasurementView {
            event_time: t1 + delay,
            offset: Some((t3 - t2) - delay),
            delay: Some(delay),
            peer_delay: None,
            raw_sync_offset: Some(t3 - t2),
            raw_delay_offset: Some(-(t2 - t1)),
        },
    }
}

/// The measurement that three readings give; see [`interclock`].
pub fn interclock_measurement(mode: ClockSyncMode, t1: Instant, t2: Instant, t3: Instant) -> (m:
    Measurement)
    requires
        t1.is_local(),
        t2.is_local(),
        t3.is_local(),
    ensures
        m@ == interclock(mode, t1@, t2@, t3@),
{
    let delay = t3.since(t1).halved();
    let offset_a = t2.since(t1);
    let offset_b = t3.since(t2);
    match mode {
        ClockSyncMode::FromSystem => Measurement {
            event_time: t2,
            offset: Some(offset_a.minus(delay)),
            delay: Some(delay),
            peer_delay: None,
            raw_sync_offset: Some(offset_a),
            raw_delay_offset: Some(offset_b.negated()),
        },
        ClockSyncMode::ToSystem => Measurement {
            event_time: t1.plus(delay),
            offset: Some(offset_b.minus(delay)),
            delay: Some(delay),
            peer_delay: None,
            raw_sync_offset: Some(offset_b),
            raw_delay_offset: Some(offset_a.negated()),
        },
    }
}

/// How a clock task is to be started.
#[derive(Clone, Copy, Debug)]
pub struct ClockTaskPlan {
    /// The mode until another one is asked for.
    pub initial_mode: ClockSyncMode,
    pub clock: LinuxClock,
    pub system_clock: SystemClock,
    /// The overlay through which readings of the kernel's clock have to be seen.
    pub overlay: Option<SharedOverlayClock>,
}

/// Plans the task that keeps `clock` and `system_clock` together.
pub fn start_clock_task(clock: LinuxClock, system_clock: SystemClock) -> (plan: ClockTaskPlan)
    ensures
        plan.initial_mode == ClockSyncMode::FromSystem,
        plan.clock == clock,
        plan.system_clock == system_clock,
        plan.overlay == match system_clock {
            SystemClock::Linux(_) => None,
            SystemClock::Overlay(overlay) => Some(overlay),
        },
{
    let overlay = match system_clock {
        SystemClock::Linux(_) => None,
        SystemClock::Overlay(overlay_clock) => Some(overlay_clock),
    };
    ClockTaskPlan { initial_mode: ClockSyncMode::FromSystem, clock, system_clock, overlay }
}

/// What a clock task is waiting for.
#[derive(Clone, Copy, PartialEq, Eq, Structural, Debug)]
pub enum ClockPhase {
    /// A timer, or a change of mode.
    Idle,
    /// The readings of the two clocks.
    Reading,
    /// The readings of the kernel's clock as the overlay shows them; the reading
    /// of the other clock is at hand.
    Converting { t2: Instant },
    /// The filter, which was given a measurement.
    Measuring,
    /// The filter, which was told to update.
    Updating,
}

/// A clock task between two events.
#[derive(Debug)]
pub struct ClockTask {
    clock: LinuxClock,
    system_clock: SystemClock,
    overlay: Option<SharedOverlayClock>,
    mode: ClockSyncMode,
    phase: ClockPhase,
}

/// The abstract value of a [`ClockTask`].
pub struct ClockTaskView {
    pub clock: LinuxClock,
    pub system_clock: SystemClock,
    pub overlay: Option<SharedOverlayClock>,
    pub mode: ClockSyncMode,
    pub phase: ClockPhase,
}

/// What happens to a clock task.
#[derive(Clone, Copy, Debug)]
pub enum ClockEvent {
    MeasurementTimer,
    UpdateTimer,
    /// A mode was asked for, not necessarily another one.
    ModeChanged(ClockSyncMode),
    /// The readings of the kernel's clock, the other clock, and the kernel's
    /// clock again.
    OffsetRead { raw_t1: Instant, t2: Instant, raw_t3: Instant },
    /// The overlay's view of the readings of the kernel's clock.
    TimesConverted { t1: Instant, t3: Instant },
    /// The filter has done its work, and may want to update after so many
    /// nanoseconds.
    FilterDone { next_update: Option<u128> },
}

/// What is to be done next.
#[derive(Clone, Copy, Debug)]
pub enum ClockAction {
    /// Set the timers for which a time in nanoseconds is given, then wait.
    Wait { measurement_timer: Option<u128>, update_timer: Option<u128> },
    /// Read the two clocks.
    ReadOffset,
    /// Look at two readings of the kernel's clock through the overlay.
    ConvertTimes { overlay: SharedOverlayClock, raw_t1: Instant, raw_t3: Instant },
    /// Give the filter a measurement, for it to steer a clock by.
    Measure { measurement: Measurement, target: SystemClock },
    /// Let the filter update a clock.
    Update { target: SystemClock },
    /// Put a fresh filter in place of the old one, and let the old one release
    /// its clock; then wait.
    Demobilize { target: SystemClock },
}

/// The abstract value of a [`ClockAction`].
pub enum ClockActionView {
    Wait { measurement_timer: Option<u128>, update_timer: Option<u128> },
    ReadOffset,
    ConvertTimes { overlay: SharedOverlayClock, raw_t1: int, raw_t3: int },
    Measure { measurement: MeasurementView, target: SystemClock },
    Update { target: SystemClock },
    Demobilize { target: SystemClock },
}

impl View for ClockAction {
    type V = ClockActionView;

    open spec fn view(&self) -> ClockActionView {
        match *self {
            ClockAction::Wait { measurement_timer, update_timer } => {
                ClockActionView::Wait { measurement_timer, update_timer }
            },
            ClockAction::ReadOffset => ClockActionView::ReadOffset,
            ClockAction::ConvertTimes { overlay, raw_t1, raw_t3 } => {
                ClockActionView::ConvertTimes { overlay, raw_t1: raw_t1@, raw_t3: raw_t3@ }
            },
            ClockAction::Measure { measurement, target } => {
                ClockActionView::Measure { measurement: measurement@, target }
            },
            ClockAction::Update { target } => ClockActionView::Update { target },
            ClockAction::Demobilize { target } => ClockActionView::Demobilize { target },
        }
    }
}

impl View for ClockTask {
    type V = ClockTaskView;

    closed spec fn view(&self) -> ClockTaskView {
        ClockTaskView {
            clock: self.clock,
            system_clock: self.system_clock,
            overlay: self.overlay,
            mode: self.mode,
            phase: self.phase,
        }
    }
}

impl ClockTaskView {
    /// What holds of every reachable state: a reading that is kept is one of a
    /// local clock.
    pub open spec fn wf(self) -> bool {
        self.phase matches ClockPhase::Converting { t2 } ==> t2.is_local()
    }

    /// The clock that follows, and that the filter therefore steers.
    pub open spec fn target(self) -> SystemClock {
        match self.mode {
            ClockSyncMode::FromSystem => SystemClock::Linux(self.clock),
            ClockSyncMode::ToSystem => self.system_clock,
        }
    }

    /// Whether an event can happen now. All readings have to be local.
    pub open spec fn accepts(self, event: ClockEvent) -> bool {
        match event {
            ClockEvent::MeasurementTimer | ClockEvent::UpdateTimer | ClockEvent::ModeChanged(_) => {
                self.phase is Idle
            },
            ClockEvent::OffsetRead { raw_t1, t2, raw_t3 } => {
                &&& self.phase is Reading
                &&& raw_t1.is_local()
                &&& t2.is_local()
                &&& raw_t3.is_local()
            },
            ClockEvent::TimesConverted { t1, t3 } => {
                &&& self.phase is Converting
                &&& t1.is_local()
                &&& t3.is_local()
            },
            ClockEvent::FilterDone { .. } => self.phase is Measuring || self.phase is Updating,
        }
    }

    /// The state after an event.
    pub open spec fn next(self, event: ClockEvent) -> ClockTaskView {
        match event {
            ClockEvent::MeasurementTimer => ClockTaskView { phase: ClockPhase::Reading, ..self },
            ClockEvent::UpdateTimer => ClockTaskView { phase: ClockPhase::Updating, ..self },
            ClockEvent::ModeChanged(mode) => ClockTaskView { mode, ..self },
            ClockEvent::OffsetRead { t2, .. } => ClockTaskView {
                phase: if self.overlay is Some {
                    ClockPhase::Converting { t2 }
                } else {
                    ClockPhase::Measuring
                },
                ..self
            },
            ClockEvent::TimesConverted { .. } => {
                ClockTaskView { phase: ClockPhase::Measuring, ..self }
            },
            ClockEvent::FilterDone { .. } => ClockTaskView { phase: ClockPhase::Idle, ..self },
        }
    }

    /// What is to be done about an event.
    pub open spec fn action(self, event: ClockEvent) -> ClockActionView {
        match event {
            ClockEvent::MeasurementTimer => ClockActionView::ReadOffset,
            ClockEvent::UpdateTimer => ClockActionView::Update { target: self.target() },
            ClockEvent::ModeChanged(mode) => if mode == self.mode {
                ClockActionView::Wait { measurement_timer: None, update_timer: None }
            } else {
                ClockActionView::Demobilize { target: self.target() }
            },
            ClockEvent::OffsetRead { raw_t1, t2, raw_t3 } => match self.overlay {
                Some(overlay) => ClockActionView::ConvertTimes {
                    overlay,
                    raw_t1: raw_t1@,
                    raw_t3: raw_t3@,
                },
                None => ClockActionView::Measure {
                    measurement: interclock(self.mode, raw_t1@, t2@, raw_t3@),
                    target: self.target(),
                },
            },
            ClockEvent::TimesConverted { t1, t3 } => ClockActionView::Measure {
                measurement: interclock(self.mode, t1@, self.phase->t2@, t3@),
                target: self.target(),
            },
            ClockEvent::FilterDone { next_update } => ClockActionView::Wait {
                measurement_timer: if self.phase is Measuring {
                    Some(MEASUREMENT_INTERVAL)
                } else {
                    None
                },
                update_timer: next_update,
            },
        }
    }
}

impl ClockTask {
    /// Starts a planned task in the mode that is asked for by then.
    pub fn new(plan: ClockTaskPlan, mode: ClockSyncMode) -> (start: (ClockTask, ClockAction))
        ensures
            start.0@ == (ClockTaskView {
                clock: plan.clock,
                system_clock: plan.system_clock,
                overlay: plan.overlay,
                mode,
                phase: ClockPhase::Idle,
            }),
            start.0@.wf(),
            start.1@ == (ClockActionView::Wait {
                measurement_timer: Some(0),
                update_timer: None,
            }),
    {
        (
            ClockTask {
                clock: plan.clock,
                system_clock: plan.system_clock,
                overlay: plan.overlay,
                mode,
                phase: ClockPhase::Idle,
            },
            ClockAction::Wait { measurement_timer: Some(0), update_timer: None },
        )
    }

    /// The clock that follows.
    fn target(&self) -> (target: SystemClock)
        ensures
            target == self@.target(),
    {
        match self.mode {
            ClockSyncMode::FromSystem => SystemClock::Linux(self.clock),
            ClockSyncMode::ToSystem => self.system_clock,
        }
    }

    /// Whether an event can happen now; see [`ClockTaskView::accepts`].
    pub fn accepts(&self, event: &ClockEvent) -> (accepted: bool)
        ensures
            accepted == self@.accepts(*event),
    {
        match *event {
            ClockEvent::MeasurementTimer | ClockEvent::UpdateTimer | ClockEvent::ModeChanged(_) => {
                matches!(self.phase, ClockPhase::Idle)
            },
            ClockEvent::OffsetRead { raw_t1, t2, raw_t3 } => {
                matches!(self.phase, ClockPhase::Reading) && raw_t1.check_local()
                    && t2.check_local() && raw_t3.check_local()
            },
            ClockEvent::TimesConverted { t1, t3 } => {
                matches!(self.phase, ClockPhase::Converting { .. }) && t1.check_local()
                    && t3.check_local()
            },
            ClockEvent::FilterDone { .. } => {
                matches!(self.phase, ClockPhase::Measuring | ClockPhase::Updating)
            },
        }
    }

    /// Moves the task on by one event, and says what is to be done next.
    pub fn step(&mut self, event: ClockEvent) -> (action: ClockAction)
        requires
            old(self)@.wf(),
            old(self)@.accepts(event),
        ensures
            final(self)@ == old(self)@.next(event),
            action@ == old(self)@.action(event),
            final(self)@.wf(),
    {
        match event {
            ClockEvent::MeasurementTimer => {
                self.phase = ClockPhase::Reading;
                ClockAction::ReadOffset
            },
            ClockEvent::OffsetRead { raw_t1, t2, raw_t3 } => match self.overlay {
                Some(overlay) => {
                    self.phase = ClockPhase::Converting { t2 };
                    ClockAction::ConvertTimes { overlay, raw_t1, raw_t3 }
                },
                None => self.measure(raw_t1, t2, raw_t3),
            },
            ClockEvent::TimesConverted { t1, t3 } => {
                let t2 = match self.phase {
                    ClockPhase::Converting { t2 } => t2,
                    // No other phase waits for converted times.
                    _ => t1,
                };
                self.measure(t1, t2, t3)
            },
            ClockEvent::FilterDone { next_update } => {
                let measured = matches!(self.phase, ClockPhase::Measuring);
                self.phase = ClockPhase::Idle;
                ClockAction::Wait {
                    measurement_timer: if measured {
                        Some(MEASUREMENT_INTERVAL)
                    } else {
                        None
                    },
                    update_timer: next_update,
                }
            },
            ClockEvent::UpdateTimer => {
                self.phase = ClockPhase::Updating;
                ClockAction::Update { target: self.target() }
            },
            ClockEvent::ModeChanged(new_mode) => {
                if new_mode != self.mode {
                    let target = self.target();
                    self.mode = new_mode;
                    ClockAction::Demobilize { target }
                } else {
                    ClockAction::Wait { measurement_timer: None, update_timer: None }
                }
            },
        }
    }

    /// Hands the three readings to the filter.
    fn measure(&mut self, t1: Instant, t2: Instant, t3: Instant) -> (action: ClockAction)
        requires
            t1.is_local(),
            t2.is_local(),
            t3.is_local(),
        ensures
            final(self)@ == (ClockTaskView { phase: ClockPhase::Measuring, ..old(self)@ }),
            action@ == (ClockActionView::Measure {
                measurement: interclock(old(self)@.mode, t1@, t2@, t3@),
                target: old(self)@.target(),
            }),
    {
        self.phase = ClockPhase::Measuring;
        ClockAction::Measure {
            measurement: interclock_measurement(self.mode, t1, t2, t3),
            target: self.target(),
        }
    }
}

/// The clock that an action steers or releases, if it does either.
pub open spec fn steered(action: ClockActionView) -> Option<SystemClock> {
    match action {
        ClockActionView::Measure { target, .. } => Some(target),
        ClockActionView::Update { target } => Some(target),
        ClockActionView::Demobilize { target } => Some(target),
        _ => None,
    }
}

/// Whatever happens, the only clock that is touched is the one that follows in
/// the mode before the event; the mode changes with a change of mode alone, and
/// the clocks of a task never change.
pub proof fn law_only_the_following_clock_is_steered(task: ClockTaskView, event: ClockEvent)
    ensures
        steered(task.action(event)) is Some ==> steered(task.action(event)) == Some(task.target()),
        task.next(event).mode == (match event {
            ClockEvent::ModeChanged(mode) => mode,
            _ => task.mode,
        }),
        task.next(event).clock == task.clock,
        task.next(event).system_clock == task.system_clock,
        task.next(event).overlay == task.overlay,
{
}

/// The clock that was steered is released exactly when another mode takes over,
/// and asking for the mode that is in force does nothing.
pub proof fn law_change_of_mode(task: ClockTaskView, mode: ClockSyncMode)
    ensures
        task.action(ClockEvent::ModeChanged(mode)) is Demobilize <==> mode != task.mode,
        mode != task.mode ==> steered(task.action(ClockEvent::ModeChanged(mode))) == Some(
            task.target(),
        ),
        mode == task.mode ==> task.next(ClockEvent::ModeChanged(mode)) == task,
{
}

/// The task after a number of events.
pub open spec fn task_after(task: ClockTaskView, events: Seq<ClockEvent>) -> ClockTaskView
    decreases events.len(),
{
    if events.len() == 0 {
        task
    } else {
        task_after(task, events.drop_last()).next(events.last())
    }
}

/// Until another mode is asked for, one and the same clock is steered, and it is
/// the one that is released then.
pub proof fn law_one_clock_per_mode(
    task: ClockTaskView,
    events: Seq<ClockEvent>,
    next: ClockEvent,
)
    requires
        forall|i: int|
            0 <= i < events.len() && (#[trigger] events[i]) is ModeChanged
                ==> events[i]->ModeChanged_0 == task.mode,
    ensures
        task_after(task, events).mode == task.mode,
        task_after(task, events).target() == task.target(),
        steered(task_after(task, events).action(next)) is Some ==> steered(
            task_after(task, events).action(next),
        ) == Some(task.target()),
    decreases events.len(),
{
    if events.len() > 0 {
        let earlier = events.drop_last();
        assert(forall|i: int| 0 <= i < earlier.len() ==> earlier[i] == events[i]);
        law_one_clock_per_mode(task, earlier, events.last());
        assert(events.last() == events[events.len() - 1]);
        law_only_the_following_clock_is_steered(task_after(task, earlier), events.last());
    }
    law_only_the_following_clock_is_steered(task_after(task, events), next);
}

/// A round of measuring without an overlay ends where it began, and with the
/// measurement timer set for the next one.
pub proof fn law_measurement_round(
    task: ClockTaskView,
    raw_t1: Instant,
    t2: Instant,
    raw_t3: Instant,
    next_update: Option<u128>,
)
    requires
        task.phase is Idle,
        task.overlay is None,
        raw_t1.is_local(),
        t2.is_local(),
        raw_t3.is_local(),
    ensures
        ({
            let read = ClockEvent::OffsetRead { raw_t1, t2, raw_t3 };
            let done = ClockEvent::FilterDone { next_update };
            let reading = task.next(ClockEvent::MeasurementTimer);
            let measuring = reading.next(read);
            &&& reading.accepts(read)
            &&& measuring.accepts(done)
            &&& measuring.action(done) == (ClockActionView::Wait {
                measurement_timer: Some(MEASUREMENT_INTERVAL),
                update_timer: next_update,
            })
            &&& measuring.next(done) == task
        }),
{
}

/// A round of measuring through an overlay measures with the readings as the
/// overlay shows them, ends where it began, and sets the measurement timer.
pub proof fn law_measurement_round_with_overlay(
    task: ClockTaskView,
    raw_t1: Instant,
    t2: Instant,
    raw_t3: Instant,
    t1: Instant,
    t3: Instant,
    next_update: Option<u128>,
)
    requires
        task.phase is Idle,
        task.overlay is Some,
        raw_t1.is_local(),
        t2.is_local(),
        raw_t3.is_local(),
        t1.is_local(),
        t3.is_local(),
    ensures
        ({
            let read = ClockEvent::OffsetRead { raw_t1, t2, raw_t3 };
            let converted = ClockEvent::TimesConverted { t1, t3 };
            let done = ClockEvent::FilterDone { next_update };
            let reading = task.next(ClockEvent::MeasurementTimer);
            let converting = reading.next(read);
            let measuring = converting.next(converted);
            &&& reading.accepts(read)
            &&& converting.accepts(converted)
            &&& converting.action(converted) == (ClockActionView::Measure {
                measurement: interclock(task.mode, t1@, t2@, t3@),
                target: task.target(),
            })
            &&& measuring.accepts(done)
            &&& measuring.action(done) == (ClockActionView::Wait {
                measurement_timer: Some(MEASUREMENT_INTERVAL),
                update_timer: next_update,
            })
            &&& measuring.next(done) == task
        }),
{
}

/// The offsets that the two modes see are opposite, but for the last unit that
/// halving may lose.
pub proof fn law_modes_see_opposite_offsets(t1: int, t2: int, t3: int)
    ensures
        ({
            let from_system = interclock(ClockSyncMode::FromSystem, t1, t2, t3);
            let to_system = interclock(ClockSyncMode::ToSystem, t1, t2, t3);
            &&& -1 <= from_system.offset->0 + to_system.offset->0 <= 1
            &&& (t3 - t1) % 2 == 0 ==> from_system.offset->0 == -to_system.offset->0
            &&& from_system.delay == to_system.delay
            &&& from_system.raw_sync_offset->0 == -to_system.raw_delay_offset->0
            &&& from_system.raw_delay_offset->0 == -to_system.raw_sync_offset->0
        }),
{
}

/// If the reading of the other clock falls in the middle between those of the
/// system clock, each mode finds the true offset of the clock that follows.
pub proof fn law_true_offset_is_found(t1: int, delay: int, offset: int)
    ensures
        ({
            let t2 = t1 + delay + offset;
            let t3 = t1 + 2 * delay;
            &&& interclock(ClockSyncMode::FromSystem, t1, t2, t3).offset == Some(offset)
            &&& interclock(ClockSyncMode::ToSystem, t1, t2, t3).offset == Some(-offset)
            &&& interclock(ClockSyncMode::ToSystem, t1, t2, t3).event_time == t1 + delay
        }),
{
    assert(half(2 * delay) == delay);
}

/// What three readings say, in numbers. The delay is half of what the readings of
/// the system clock are apart, rounded towards zero. Where these are an even number of
/// units apart, the system clock is compared halfway between them.
pub proof fn law_interclock(t1: int, t2: int, t3: int)
    ensures
        ({
            let from = interclock(ClockSyncMode::FromSystem, t1, t2, t3);
            let to = interclock(ClockSyncMode::ToSystem, t1, t2, t3);
            let delay = from.delay->0;
            &&& from.delay is Some
            &&& to.delay == from.delay
            &&& t1 <= t3 ==> 0 <= t3 - t1 - 2 * delay <= 1
            &&& t1 >= t3 ==> -1 <= t3 - t1 - 2 * delay <= 0
            &&& from.event_time == t2
            &&& from.offset == Some(t2 - t1 - delay)
            &&& from.raw_sync_offset == Some(t2 - t1)
            &&& from.raw_delay_offset == Some(t2 - t3)
            &&& from.peer_delay is None
            &&& to.event_time == t1 + delay
            &&& to.offset == Some(t3 - t2 - delay)
            &&& to.raw_sync_offset == Some(t3 - t2)
            &&& to.raw_delay_offset == Some(t1 - t2)
            &&& to.peer_delay is None
            &&& (t3 - t1) % 2 == 0 ==> {
                &&& from.offset == Some(t2 - (t1 + t3) / 2)
                &&& to.offset == Some((t1 + t3) / 2 - t2)
                &&& to.event_time == (t1 + t3) / 2
            }
        }),
{
}

/// Readings lead to a measurement in the mode of the task, for the clock that follows
/// in that mode: straight away without an overlay, and with one, which `converted`
/// says, once it has shown its view of them. The reading of the other clock is the one
/// that was taken between them.
pub proof fn law_readings_are_measured(
    task: ClockTaskView,
    converted: bool,
    t1: Instant,
    t2: Instant,
    t3: Instant,
)
    requires
        converted ==> task.phase == (ClockPhase::Converting { t2 }),
        !converted ==> task.overlay is None,
    ensures
        ({
            let event = if converted {
                ClockEvent::TimesConverted { t1, t3 }
            } else {
                ClockEvent::OffsetRead { raw_t1: t1, t2, raw_t3: t3 }
            };
            let action = task.action(event);
            let m = action->measurement;
            let delay = m.delay->0;
            &&& action is Measure
            &&& task.next(event).phase is Measuring
            &&& m.delay is Some
            &&& t1.units <= t3.units ==> 0 <= t3.units - t1.units - 2 * delay <= 1
            &&& t1.units >= t3.units ==> -1 <= t3.units - t1.units - 2 * delay <= 0
            &&& m.peer_delay is None
            &&& task.mode == ClockSyncMode::FromSystem ==> {
                &&& action->Measure_target == SystemClock::Linux(task.clock)
                &&& m.event_time == t2.units
                &&& m.offset == Some(t2.units - t1.units - delay)
                &&& m.raw_sync_offset == Some(t2.units - t1.units)
                &&& m.raw_delay_offset == Some(t2.units - t3.units)
                &&& (t3.units - t1.units) % 2 == 0 ==> m.offset == Some(
                    t2.units - (t1.units + t3.units) / 2,
                )
            }
            &&& task.mode == ClockSyncMode::ToSystem ==> {
                &&& action->Measure_target == task.system_clock
                &&& m.event_time == t1.units + delay
                &&& m.offset == Some(t3.units - t2.units - delay)
                &&& m.raw_sync_offset == Some(t3.units - t2.units)
                &&& m.raw_delay_offset == Some(t1.units - t2.units)
                &&& (t3.units - t1.units) % 2 == 0 ==> {
                    &&& m.event_time == (t1.units + t3.units) / 2
                    &&& m.offset == Some((t1.units + t3.units) / 2 - t2.units)
                }
            }
        }),
{
}

/// Two tasks that differ in their mode alone take the same readings for opposite
/// offsets of two clocks, where halving loses nothing.
pub proof fn law_modes_measure_opposite_offsets(
    task: ClockTaskView,
    t1: Instant,
    t2: Instant,
    t3: Instant,
)
    requires
        task.overlay is None,
        (t3.units - t1.units) % 2 == 0,
    ensures
        ({
            let event = ClockEvent::OffsetRead { raw_t1: t1, t2, raw_t3: t3 };
            let from = ClockTaskView { mode: ClockSyncMode::FromSystem, ..task };
            let to = ClockTaskView { mode: ClockSyncMode::ToSystem, ..task };
            &&& from.action(event)->measurement.offset->0 + to.action(event)->measurement.offset->0
                == 0
            &&& from.action(event)->Measure_target == SystemClock::Linux(task.clock)
            &&& to.action(event)->Measure_target == task.system_clock
        }),
{
}

/// Which events can happen when: timers and changes of mode while the task is idle,
/// and otherwise the outcome of what it waits for.
pub proof fn law_events_of_a_clock_task(
    task: ClockTaskView,
    mode: ClockSyncMode,
    t1: Instant,
    t2: Instant,
    t3: Instant,
    next_update: Option<u128>,
)
    ensures
        task.accepts(ClockEvent::MeasurementTimer) <==> task.phase is Idle,
        task.accepts(ClockEvent::UpdateTimer) <==> task.phase is Idle,
        task.accepts(ClockEvent::ModeChanged(mode)) <==> task.phase is Idle,
        task.accepts(ClockEvent::OffsetRead { raw_t1: t1, t2, raw_t3: t3 }) <==> task.phase
            is Reading && t1.is_local() && t2.is_local() && t3.is_local(),
        task.accepts(ClockEvent::TimesConverted { t1, t3 }) <==> task.phase is Converting
            && t1.is_local() && t3.is_local(),
        task.accepts(ClockEvent::FilterDone { next_update }) <==> task.phase is Measuring
            || task.phase is Updating,
{
}

/// A timer starts the work that it is for. After a measurement, the next is due in a
/// quarter of a second; after an update, the measurement timer is left alone. The
/// filter is called again when it asks for it.
pub proof fn law_clock_timers(task: ClockTaskView, next_update: Option<u128>)
    ensures
        task.next(ClockEvent::MeasurementTimer).phase is Reading,
        task.action(ClockEvent::MeasurementTimer) is ReadOffset,
        task.next(ClockEvent::UpdateTimer).phase is Updating,
        task.mode == ClockSyncMode::FromSystem ==> task.action(ClockEvent::UpdateTimer) == (
        ClockActionView::Update { target: SystemClock::Linux(task.clock) }),
        task.mode == ClockSyncMode::ToSystem ==> task.action(ClockEvent::UpdateTimer) == (
        ClockActionView::Update { target: task.system_clock }),
        task.next(ClockEvent::FilterDone { next_update }).phase is Idle,
        task.phase is Measuring ==> task.action(ClockEvent::FilterDone { next_update }) == (
        ClockActionView::Wait { measurement_timer: Some(250_000_000), update_timer: next_update }),
        task.phase is Updating ==> task.action(ClockEvent::FilterDone { next_update }) == (
        ClockActionView::Wait { measurement_timer: None, update_timer: next_update }),
{
}

/// Another mode has the clock released that followed in the old one. The task stays
/// where it is, and sets no timer.
pub proof fn law_released_clock(task: ClockTaskView)
    ensures
        ({
            let from = ClockEvent::ModeChanged(ClockSyncMode::FromSystem);
            let to = ClockEvent::ModeChanged(ClockSyncMode::ToSystem);
            let idle = ClockActionView::Wait { measurement_timer: None, update_timer: None };
            &&& task.mode == ClockSyncMode::FromSystem ==> {
                &&& task.action(to) == (ClockActionView::Demobilize {
                    target: SystemClock::Linux(task.clock),
                })
                &&& task.action(from) == idle
            }
            &&& task.mode == ClockSyncMode::ToSystem ==> {
                &&& task.action(from) == (ClockActionView::Demobilize {
                    target: task.system_clock,
                })
                &&& task.action(to) == idle
            }
            &&& task.next(from) == (ClockTaskView { mode: ClockSyncMode::FromSystem, ..task })
            &&& task.next(to) == (ClockTaskView { mode: ClockSyncMode::ToSystem, ..task })
        }),
{
}

/// With an overlay, the readings of the kernel's clock go to it unchanged, and the
/// reading of the other clock is kept for later.
pub proof fn law_readings_are_converted(
    task: ClockTaskView,
    overlay: SharedOverlayClock,
    raw_t1: Instant,
    t2: Instant,
    raw_t3: Instant,
)
    requires
        task.overlay == Some(overlay),
    ensures
        ({
            let read = ClockEvent::OffsetRead { raw_t1, t2, raw_t3 };
            &&& task.action(read) == (ClockActionView::ConvertTimes {
                overlay,
                raw_t1: raw_t1.units as int,
                raw_t3: raw_t3.units as int,
            })
            &&& task.next(read).phase == (ClockPhase::Converting { t2 })
        }),
{
}

/// The abstract values of measurements and actions hold what the concrete ones hold,
/// times unit for unit.
pub proof fn law_clock_views(
    m: Measurement,
    timer: Option<u128>,
    other_timer: Option<u128>,
    overlay: SharedOverlayClock,
    t1: Instant,
    t3: Instant,
    target: SystemClock,
)
    ensures
        m@.event_time == m.event_time.units,
        m.offset matches Some(d) ==> m@.offset == Some(d.units as int),
        m.offset is None ==> m@.offset is None,
        m.delay matches Some(d) ==> m@.delay == Some(d.units as int),
        m.delay is None ==> m@.delay is None,
        m.peer_delay matches Some(d) ==> m@.peer_delay == Some(d.units as int),
        m.peer_delay is None ==> m@.peer_delay is None,
        m.raw_sync_offset matches Some(d) ==> m@.raw_sync_offset == Some(d.units as int),
        m.raw_sync_offset is None ==> m@.raw_sync_offset is None,
        m.raw_delay_offset matches Some(d) ==> m@.raw_delay_offset == Some(d.units as int),
        m.raw_delay_offset is None ==> m@.raw_delay_offset is None,
        (ClockAction::Wait { measurement_timer: timer, update_timer: other_timer })@ == (
        ClockActionView::Wait { measurement_timer: timer, update_timer: other_timer }),
        ClockAction::ReadOffset@ is ReadOffset,
        (ClockAction::ConvertTimes { overlay, raw_t1: t1, raw_t3: t3 })@ == (
        ClockActionView::ConvertTimes {
            overlay,
            raw_t1: t1.units as int,
            raw_t3: t3.units as int,
        }),
        (ClockAction::Measure { measurement: m, target })@ == (ClockActionView::Measure {
            measurement: m@,
            target,
        }),
        (ClockAction::Update { target })@ == (ClockActionView::Update { target }),
        (ClockAction::Demobilize { target })@ == (ClockActionView::Demobilize { target }),
{
}

/// A planned task starts idle, in the mode that is asked for, with the clocks it was
/// planned with, and measures at once. It works through an overlay exactly if that is
/// its system clock.
pub proof fn law_start_of_a_clock_task(
    clock: LinuxClock,
    system_clock: SystemClock,
    mode: ClockSyncMode,
    plan: ClockTaskPlan,
    start: (ClockTask, ClockAction),
)
    requires
        call_ensures(start_clock_task, (clock, system_clock), plan),
        call_ensures(ClockTask::new, (plan, mode), start),
    ensures
        plan.initial_mode == ClockSyncMode::FromSystem,
        start.0@.phase is Idle,
        start.0@.mode == mode,
        start.0@.clock == clock,
        start.0@.system_clock == system_clock,
        start.0@.overlay is Some <==> system_clock is Overlay,
        start.0@.overlay is Some ==> system_clock == SystemClock::Overlay(start.0@.overlay->0),
        start.1@ == (ClockActionView::Wait { measurement_timer: Some(0), update_timer: None }),
{
}

} // verus!
