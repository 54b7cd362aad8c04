use statime::clock::timer::{TimerName, Timers};
use statime::port::actions::{handle_actions, Effect, PortAction, Target};
use statime::port::task::{PortCommand, PortEvent, PortPhase, PortTask};
use statime::time::Time;
use std::collections::VecDeque;

type Action = PortAction<u8, &'static str>;
type Event = PortEvent<u8, u64>;
type Command = PortCommand<u8, u64>;

fn at(units: i128) -> Time {
    Time { units }
}

fn send_event(context: u8, link_local: bool) -> Action {
    PortAction::SendEvent {
        context,
        data: vec![context],
        link_local,
    }
}

#[test]
fn packets_go_to_their_groups() {
    let mut timers = Timers::new(0);
    let mut run = handle_actions(VecDeque::from([
        send_event(1, false),
        send_event(2, true),
        PortAction::SendGeneral {
            data: vec![3],
            link_local: false,
        },
        PortAction::SendGeneral {
            data: vec![4],
            link_local: true,
        },
    ]));
    let mut seen = Vec::new();
    while let Some(effect) = run.next(&mut timers, 0) {
        match effect {
            Effect::SendEvent { data, target } => {
                seen.push((data[0], target));
                assert!(run.awaits_send_time());
                assert!(!run.can_go_on(0));
                assert!(!run.event_sent(None));
            }
            Effect::SendGeneral { data, target } => seen.push((data[0], target)),
            _ => panic!("only packets are sent"),
        }
    }
    assert_eq!(
        seen,
        vec![
            (1, Target::PrimaryEvent),
            (2, Target::PdelayEvent),
            (3, Target::PrimaryGeneral),
            (4, Target::PdelayGeneral),
        ]
    );
    assert_eq!(run.finish(), None);
    assert_eq!(timers, Timers::new(0));
}

#[test]
fn actions_set_their_timers() {
    let mut timers = Timers::new(0);
    let actions: [Action; 5] = [
        PortAction::ResetAnnounceTimer { duration: 1 },
        PortAction::ResetSyncTimer { duration: 2 },
        PortAction::ResetDelayRequestTimer { duration: 3 },
        PortAction::ResetAnnounceReceiptTimer { duration: 4 },
        PortAction::ResetFilterUpdateTimer { duration: 5 },
    ];
    let mut run = handle_actions(VecDeque::from(actions));
    let mut names = Vec::new();
    while let Some(effect) = run.next(&mut timers, 10) {
        match effect {
            Effect::TimerSet { timer } => names.push(timer),
            _ => panic!("only timers are set"),
        }
    }
    assert_eq!(
        names,
        vec![
            TimerName::PortAnnounce,
            TimerName::PortSync,
            TimerName::DelayRequest,
            TimerName::PortAnnounceTimeout,
            TimerName::FilterUpdate,
        ]
    );
    assert_eq!(timers.port_announce_timer.deadline(), 11);
    assert_eq!(timers.port_sync_timer.deadline(), 12);
    assert_eq!(timers.delay_request_timer.deadline(), 13);
    assert_eq!(timers.port_announce_timeout_timer.deadline(), 14);
    assert_eq!(timers.filter_update_timer.deadline(), 15);
}

#[test]
fn tlvs_are_forwarded() {
    let mut timers = Timers::new(0);
    let mut run = handle_actions::<u8, &'static str>(VecDeque::from([PortAction::ForwardTLV {
        tlv: "tlv",
    }]));
    assert!(matches!(
        run.next(&mut timers, 0),
        Some(Effect::Forward { tlv: "tlv" })
    ));
    assert!(run.next(&mut timers, 0).is_none());
}

#[test]
fn last_known_send_time_is_pending() {
    let mut timers = Timers::new(0);
    let mut run = handle_actions(VecDeque::from([
        send_event(1, false),
        send_event(2, false),
        send_event(3, false),
    ]));
    let times = [Some(at(10)), Some(at(20)), None];
    let mut next = 0;
    while let Some(effect) = run.next(&mut timers, 0) {
        match effect {
            Effect::SendEvent { .. } => {
                assert!(!run.finished());
                assert_eq!(run.event_sent(times[next]), times[next].is_some());
                next += 1;
            }
            _ => panic!("only packets are sent"),
        }
    }
    assert!(run.finished());
    assert_eq!(run.finish(), Some((2, at(20))));
}

fn running_task() -> PortTask {
    let mut task = PortTask::new();
    assert_eq!(task.phase(), PortPhase::AwaitPort);
    let command: Command = task.step(Event::PortArrived);
    assert!(matches!(command, PortCommand::EndBmca));
    assert_eq!(task.phase(), PortPhase::RunActions);
    let command: Command = task.step(Event::ActionsDone {
        pending_timestamp: None,
    });
    assert!(matches!(command, PortCommand::Wait));
    task
}

#[test]
fn port_comes_and_goes() {
    let mut task = running_task();
    let command: Command = task.step(Event::BmcaNotified);
    assert!(matches!(command, PortCommand::StartBmca));
    assert_eq!(task.phase(), PortPhase::ReturnPort);
    let command: Command = task.step(Event::PortReturned);
    assert!(matches!(command, PortCommand::ReceivePort));
    assert_eq!(task.phase(), PortPhase::AwaitPort);
}

#[test]
fn send_times_are_told_until_none_is_left() {
    let mut task = running_task();
    let command: Command = task.step(Event::GeneralPacket { bytes_read: 44 });
    assert!(matches!(
        command,
        PortCommand::HandleGeneralReceive { bytes_read: 44 }
    ));
    let command: Command = task.step(Event::ActionsDone {
        pending_timestamp: Some((9, at(77))),
    });
    match command {
        PortCommand::HandleSendTimestamp { context, timestamp } => {
            assert_eq!(context, 9);
            assert_eq!(timestamp, at(77));
        }
        _ => panic!("the send time has to be told"),
    }
    assert_eq!(task.phase(), PortPhase::RunActions);
    let command: Command = task.step(Event::ActionsDone {
        pending_timestamp: None,
    });
    assert!(matches!(command, PortCommand::Wait));
    assert_eq!(task.phase(), PortPhase::AwaitEvent);
}

#[test]
fn event_packets_need_version_and_receive_time() {
    let mut task = running_task();
    let command: Command = task.step(Event::EventPacket {
        bytes_read: 44,
        compatible: false,
        timestamp: None,
    });
    assert!(matches!(
        command,
        PortCommand::IgnorePacket {
            missing_timestamp: false
        }
    ));
    let command: Command = task.step(Event::EventPacket {
        bytes_read: 44,
        compatible: false,
        timestamp: Some(5),
    });
    assert!(matches!(
        command,
        PortCommand::IgnorePacket {
            missing_timestamp: false
        }
    ));
    let command: Command = task.step(Event::EventPacket {
        bytes_read: 44,
        compatible: true,
        timestamp: None,
    });
    assert!(matches!(
        command,
        PortCommand::IgnorePacket {
            missing_timestamp: true
        }
    ));
    assert_eq!(task.phase(), PortPhase::AwaitEvent);
    let command: Command = task.step(Event::EventPacket {
        bytes_read: 44,
        compatible: true,
        timestamp: Some(5),
    });
    assert!(matches!(
        command,
        PortCommand::HandleEventReceive {
            bytes_read: 44,
            received: 5
        }
    ));
    assert_eq!(task.phase(), PortPhase::RunActions);
}

fn fire(name: TimerName) -> Command {
    running_task().step(Event::TimerFired(name))
}

#[test]
fn fired_timers_are_told() {
    assert!(matches!(
        fire(TimerName::PortAnnounce),
        PortCommand::HandleAnnounceTimer
    ));
    assert!(matches!(
        fire(TimerName::PortSync),
        PortCommand::HandleSyncTimer
    ));
    assert!(matches!(
        fire(TimerName::PortAnnounceTimeout),
        PortCommand::HandleAnnounceReceiptTimer
    ));
    assert!(matches!(
        fire(TimerName::DelayRequest),
        PortCommand::HandleDelayRequestTimer
    ));
    assert!(matches!(
        fire(TimerName::FilterUpdate),
        PortCommand::HandleFilterUpdateTimer
    ));
}

#[test]
fn port_task_knows_what_can_happen() {
    let mut task = PortTask::new();
    assert!(task.accepts(&Event::PortArrived));
    assert!(!task.accepts(&Event::BmcaNotified));
    let _: Command = task.step(Event::PortArrived);
    assert!(!task.accepts(&Event::PortArrived));
    assert!(!task.accepts(&Event::BmcaNotified));
    let done = Event::ActionsDone {
        pending_timestamp: None,
    };
    assert!(task.accepts(&done));
    let _: Command = task.step(done);
    assert!(task.accepts(&Event::GeneralPacket { bytes_read: 1 }));
    assert!(task.accepts(&Event::TimerFired(TimerName::PortSync)));
    assert!(task.accepts(&Event::BmcaNotified));
    let _: Command = task.step(Event::BmcaNotified);
    assert!(task.accepts(&Event::PortReturned));
    assert!(!task.accepts(&Event::PortArrived));
}

#[test]
fn timers_have_to_be_set_in_time() {
    let far: Action = PortAction::ResetSyncTimer {
        duration: u128::MAX,
    };
    assert!(far.check_in_time(0));
    assert!(!far.check_in_time(1));
    assert!(send_event(1, false).check_in_time(u128::MAX));
    let mut timers = Timers::new(0);
    let mut run = handle_actions(VecDeque::from([send_event(1, false), far]));
    assert!(run.can_go_on(1));
    run.next(&mut timers, 1);
    assert!(run.event_sent(Some(at(5))));
    assert!(!run.can_go_on(1));
    assert!(run.can_go_on(0));
    run.next(&mut timers, 0);
    assert!(run.can_go_on(1));
    assert_eq!(run.finish(), Some((1, at(5))));
    assert_eq!(timers.port_sync_timer.deadline(), u128::MAX);
}
