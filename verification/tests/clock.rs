use statime::clock::system::{
    ClockSyncMode, LinuxClock, PortClock, SharedOverlayClock, SystemClock,
};
use statime::clock::task::{
    interclock_measurement, start_clock_task, ClockAction, ClockEvent, ClockTask,
    MEASUREMENT_INTERVAL,
};
use statime::clock::timer::{Timer, TimerName, Timers};
use statime::time::{Duration, Instant};

const CLOCK: LinuxClock = LinuxClock { clock_id: 3 };
const KERNEL: LinuxClock = LinuxClock { clock_id: 0 };
const OVERLAY: SharedOverlayClock = SharedOverlayClock {
    overlay_id: 7,
    underlying: KERNEL,
};

fn at(units: i128) -> Instant {
    Instant { units }
}

fn span(units: i128) -> Option<Duration> {
    Some(Duration { units })
}

#[test]
fn cloned_clocks_are_the_same_clock() {
    assert_eq!(*SystemClock::Linux(CLOCK).clone_boxed(), SystemClock::Linux(CLOCK));
    assert_eq!(
        *SystemClock::Overlay(OVERLAY).clone_boxed(),
        SystemClock::Overlay(OVERLAY)
    );
    assert_eq!(*CLOCK.clone_box(), SystemClock::Linux(CLOCK));
    assert_eq!(*OVERLAY.clone_box(), SystemClock::Overlay(OVERLAY));
}

#[test]
fn clocks_follow_the_system_by_default() {
    assert_eq!(ClockSyncMode::default(), ClockSyncMode::FromSystem);
}

#[test]
fn plan_knows_the_overlay() {
    let plan = start_clock_task(CLOCK, SystemClock::Linux(KERNEL));
    assert_eq!(plan.initial_mode, ClockSyncMode::FromSystem);
    assert_eq!(plan.clock, CLOCK);
    assert_eq!(plan.system_clock, SystemClock::Linux(KERNEL));
    assert_eq!(plan.overlay, None);
    let plan = start_clock_task(CLOCK, SystemClock::Overlay(OVERLAY));
    assert_eq!(plan.system_clock, SystemClock::Overlay(OVERLAY));
    assert_eq!(plan.overlay, Some(OVERLAY));
}

#[test]
fn measurement_from_system() {
    let m = interclock_measurement(ClockSyncMode::FromSystem, at(100), at(170), at(110));
    assert_eq!(m.event_time, at(170));
    assert_eq!(m.offset, span(65));
    assert_eq!(m.delay, span(5));
    assert_eq!(m.peer_delay, None);
    assert_eq!(m.raw_sync_offset, span(70));
    assert_eq!(m.raw_delay_offset, span(60));
}

#[test]
fn measurement_to_system() {
    let m = interclock_measurement(ClockSyncMode::ToSystem, at(100), at(170), at(110));
    assert_eq!(m.event_time, at(105));
    assert_eq!(m.offset, span(-65));
    assert_eq!(m.delay, span(5));
    assert_eq!(m.peer_delay, None);
    assert_eq!(m.raw_sync_offset, span(-60));
    assert_eq!(m.raw_delay_offset, span(-70));
}

fn task(system_clock: SystemClock, mode: ClockSyncMode) -> ClockTask {
    let (task, action) = ClockTask::new(start_clock_task(CLOCK, system_clock), mode);
    assert!(matches!(
        action,
        ClockAction::Wait {
            measurement_timer: Some(0),
            update_timer: None
        }
    ));
    task
}

#[test]
fn round_without_overlay() {
    let mut task = task(SystemClock::Linux(KERNEL), ClockSyncMode::FromSystem);
    assert!(matches!(
        task.step(ClockEvent::MeasurementTimer),
        ClockAction::ReadOffset
    ));
    let action = task.step(ClockEvent::OffsetRead {
        raw_t1: at(100),
        t2: at(170),
        raw_t3: at(110),
    });
    match action {
        ClockAction::Measure {
            measurement,
            target,
        } => {
            assert_eq!(measurement.offset, span(65));
            assert_eq!(target, SystemClock::Linux(CLOCK));
        }
        _ => panic!("a measurement was due"),
    }
    assert!(matches!(
        task.step(ClockEvent::FilterDone {
            next_update: Some(5)
        }),
        ClockAction::Wait {
            measurement_timer: Some(MEASUREMENT_INTERVAL),
            update_timer: Some(5)
        }
    ));
    assert_eq!(MEASUREMENT_INTERVAL, 250_000_000);
}

#[test]
fn round_with_overlay() {
    let mut task = task(SystemClock::Overlay(OVERLAY), ClockSyncMode::ToSystem);
    task.step(ClockEvent::MeasurementTimer);
    let action = task.step(ClockEvent::OffsetRead {
        raw_t1: at(1),
        t2: at(170),
        raw_t3: at(2),
    });
    match action {
        ClockAction::ConvertTimes {
            overlay,
            raw_t1,
            raw_t3,
        } => {
            assert_eq!(overlay, OVERLAY);
            assert_eq!(raw_t1, at(1));
            assert_eq!(raw_t3, at(2));
        }
        _ => panic!("the times have to be converted"),
    }
    let action = task.step(ClockEvent::TimesConverted {
        t1: at(100),
        t3: at(110),
    });
    match action {
        ClockAction::Measure {
            measurement,
            target,
        } => {
            assert_eq!(measurement.offset, span(-65));
            assert_eq!(measurement.event_time, at(105));
            assert_eq!(target, SystemClock::Overlay(OVERLAY));
        }
        _ => panic!("a measurement was due"),
    }
}

#[test]
fn update_leaves_the_measurement_timer_alone() {
    let mut task = task(SystemClock::Linux(KERNEL), ClockSyncMode::ToSystem);
    match task.step(ClockEvent::UpdateTimer) {
        ClockAction::Update { target } => assert_eq!(target, SystemClock::Linux(KERNEL)),
        _ => panic!("an update was due"),
    }
    assert!(matches!(
        task.step(ClockEvent::FilterDone { next_update: None }),
        ClockAction::Wait {
            measurement_timer: None,
            update_timer: None
        }
    ));
}

#[test]
fn change_of_mode_releases_the_clock_that_was_steered() {
    let mut task = task(SystemClock::Linux(KERNEL), ClockSyncMode::FromSystem);
    assert!(matches!(
        task.step(ClockEvent::ModeChanged(ClockSyncMode::FromSystem)),
        ClockAction::Wait {
            measurement_timer: None,
            update_timer: None
        }
    ));
    match task.step(ClockEvent::ModeChanged(ClockSyncMode::ToSystem)) {
        ClockAction::Demobilize { target } => assert_eq!(target, SystemClock::Linux(CLOCK)),
        _ => panic!("the clock has to be released"),
    }
    match task.step(ClockEvent::UpdateTimer) {
        ClockAction::Update { target } => assert_eq!(target, SystemClock::Linux(KERNEL)),
        _ => panic!("an update was due"),
    }
}

#[test]
fn clock_task_knows_what_can_happen() {
    let mut task = task(SystemClock::Linux(KERNEL), ClockSyncMode::FromSystem);
    let read = ClockEvent::OffsetRead {
        raw_t1: at(0),
        t2: at(0),
        raw_t3: at(0),
    };
    let far = ClockEvent::OffsetRead {
        raw_t1: at(0),
        t2: at(i128::MAX),
        raw_t3: at(0),
    };
    assert!(task.accepts(&ClockEvent::MeasurementTimer));
    assert!(!task.accepts(&read));
    task.step(ClockEvent::MeasurementTimer);
    assert!(!task.accepts(&ClockEvent::UpdateTimer));
    assert!(task.accepts(&read));
    assert!(!task.accepts(&far));
    task.step(read);
    assert!(task.accepts(&ClockEvent::FilterDone { next_update: None }));
    assert!(!task.accepts(&ClockEvent::TimesConverted {
        t1: at(0),
        t3: at(0)
    }));
}

#[test]
fn timer_fires_once_per_reset() {
    let mut timer = Timer::new(5);
    assert_eq!(timer.deadline(), 5);
    assert!(!timer.running());
    assert!(!timer.poll(true));
    timer.reset(10, 20);
    assert_eq!(timer.deadline(), 30);
    assert!(timer.running());
    assert!(!timer.poll(false));
    assert!(timer.running());
    assert!(timer.poll(true));
    assert!(!timer.running());
    assert!(!timer.poll(true));
    timer.reset(40, 0);
    assert!(timer.poll(true));
}

#[test]
fn timers_do_not_disturb_each_other() {
    let names = [
        TimerName::PortSync,
        TimerName::PortAnnounce,
        TimerName::PortAnnounceTimeout,
        TimerName::DelayRequest,
        TimerName::FilterUpdate,
    ];
    for name in names {
        let mut timers = Timers::new(0);
        timers.reset(name, 1, 2);
        for other in names {
            assert_eq!(timers.poll(other, true), other == name);
        }
        assert!(!timers.poll(name, true));
    }
    let mut timers = Timers::new(0);
    timers.reset(TimerName::DelayRequest, 1, 2);
    assert_eq!(timers.delay_request_timer.deadline(), 3);
    timers.reset(TimerName::PortAnnounceTimeout, 1, 3);
    assert_eq!(timers.port_announce_timeout_timer.deadline(), 4);
    timers.reset(TimerName::PortSync, 1, 4);
    assert_eq!(timers.port_sync_timer.deadline(), 5);
    timers.reset(TimerName::PortAnnounce, 1, 5);
    assert_eq!(timers.port_announce_timer.deadline(), 6);
    timers.reset(TimerName::FilterUpdate, 1, 6);
    assert_eq!(timers.filter_update_timer.deadline(), 7);
}
