use statime::messages::{
    DelayRespMessage, FollowUpMessage, Header, Message, PortIdentity, SyncMessage, TimeInterval,
    Timestamp,
};
use statime::port::sequence_id::SequenceIdGenerator;
use statime::port::slave::{
    DelayHandshake, DelayRequest, Measurement, SlaveAction, SlaveError, SlaveState,
    DELAY_REQ_LOG_INTERVAL,
};
use statime::time::{Duration, Instant, UNITS_PER_NANO, UNITS_PER_SECOND};

const MASTER: PortIdentity = PortIdentity {
    clock_identity: 0x0011_2233_4455_6677,
    port_number: 1,
};
const OTHER: PortIdentity = PortIdentity {
    clock_identity: 0x8899_aabb_ccdd_eeff,
    port_number: 2,
};
const SLAVE: PortIdentity = PortIdentity {
    clock_identity: 0x0101_0101_0101_0101,
    port_number: 3,
};

fn micros(n: i128) -> Instant {
    Instant {
        units: n * 1000 * UNITS_PER_NANO,
    }
}

fn micros_span(n: i128) -> Duration {
    Duration {
        units: n * 1000 * UNITS_PER_NANO,
    }
}

fn stamp(n: u64) -> Timestamp {
    Timestamp {
        seconds: n / 1_000_000,
        nanos: (n % 1_000_000) as u32 * 1000,
    }
}

fn header(sequence_id: u16) -> Header {
    Header {
        source_port_identity: MASTER,
        two_step_flag: false,
        sequence_id,
        correction_field: TimeInterval { scaled_nanos: 0 },
        log_message_interval: 0,
    }
}

fn correction(n: i64) -> TimeInterval {
    TimeInterval {
        scaled_nanos: n * 1000 * 0x1_0000,
    }
}

fn sync(sequence_id: u16, origin: u64) -> SyncMessage {
    SyncMessage {
        header: header(sequence_id),
        origin_timestamp: stamp(origin),
    }
}

fn two_step(sequence_id: u16) -> SyncMessage {
    SyncMessage {
        header: Header {
            two_step_flag: true,
            ..header(sequence_id)
        },
        origin_timestamp: stamp(0),
    }
}

fn follow_up(sequence_id: u16, origin: u64) -> FollowUpMessage {
    FollowUpMessage {
        header: header(sequence_id),
        precise_origin_timestamp: stamp(origin),
    }
}

fn delay_resp(sequence_id: u16, received: u64) -> DelayRespMessage {
    DelayRespMessage {
        header: header(sequence_id),
        receive_timestamp: stamp(received),
    }
}

fn request(action: SlaveAction) -> DelayRequest {
    match action {
        SlaveAction::SendDelayReq(request) => request,
        SlaveAction::Done(_) => panic!("no request is sent"),
    }
}

/// Hands over a sync for which a request is due, which leaves at `sent`.
fn run_sync(state: &mut SlaveState, message: SyncMessage, now: Instant, sent: Instant) -> u16 {
    let request = request(state.handle_message(Message::Sync(message), now, SLAVE));
    assert_eq!(state.delay_req_sent(request, sent), Ok(()));
    request.message.sequence_id
}

#[test]
fn new_slave_has_nothing_to_show() {
    let mut state = SlaveState::new(MASTER);
    assert_eq!(state.remote_master(), MASTER);
    assert_eq!(state.extract_measurement(), None);
}

#[test]
fn one_step_exchange_finds_offset_and_delay() {
    // The local clock is 49 us ahead, the path takes 3 us each way.
    let mut state = SlaveState::new(MASTER);
    let id = run_sync(&mut state, sync(0, 0), micros(52), micros(100));
    assert_eq!(id, 0);
    assert_eq!(state.extract_measurement(), None);
    assert_eq!(state.handle_delay_resp(delay_resp(0, 54)), Ok(()));
    assert_eq!(
        state.extract_measurement(),
        Some(Measurement {
            master_offset: micros_span(49),
            event_time: micros(52),
        })
    );
    assert_eq!(state.extract_measurement(), None);
}

#[test]
fn two_step_exchange_applies_all_corrections() {
    let mut state = SlaveState::new(MASTER);
    let mut first = two_step(7);
    first.header.correction_field = correction(1);
    run_sync(&mut state, first, micros(1055), micros(1100));
    let mut second = follow_up(7, 1000);
    second.header.correction_field = correction(2);
    assert_eq!(state.handle_follow_up(second), Ok(()));
    let mut third = delay_resp(0, 1058);
    third.header.correction_field = correction(5);
    assert_eq!(state.handle_delay_resp(third), Ok(()));
    // t1 = 1003, t2 = 1055, t3 = 1100, t4 = 1053: delay 2.5, offset 49.5
    let measurement = state.extract_measurement().unwrap();
    assert_eq!(measurement.master_offset.units, 49_500 * UNITS_PER_NANO);
    assert_eq!(measurement.event_time, micros(1055));
}

#[test]
fn negative_offset_and_delay_round_towards_zero() {
    let mut state = SlaveState::new(MASTER);
    run_sync(
        &mut state,
        sync(0, 0),
        Instant { units: -3 },
        Instant { units: 0 },
    );
    assert_eq!(state.handle_delay_resp(delay_resp(0, 0)), Ok(()));
    // The round trip takes -3 units, half of which is -1.
    assert_eq!(
        state.extract_measurement(),
        Some(Measurement {
            master_offset: Duration { units: -2 },
            event_time: Instant { units: -3 },
        })
    );
}

#[test]
fn follow_up_may_come_before_its_sync() {
    let mut early = SlaveState::new(MASTER);
    assert_eq!(early.handle_follow_up(follow_up(4, 1000)), Ok(()));
    run_sync(&mut early, two_step(4), micros(1052), micros(1100));

    let mut late = SlaveState::new(MASTER);
    run_sync(&mut late, two_step(4), micros(1052), micros(1100));
    assert_eq!(late.handle_follow_up(follow_up(4, 1000)), Ok(()));

    for state in [&mut early, &mut late] {
        assert_eq!(state.handle_delay_resp(delay_resp(0, 1054)), Ok(()));
        assert_eq!(
            state.extract_measurement().unwrap().master_offset,
            micros_span(49)
        );
    }
}

#[test]
fn follow_up_of_another_sync_is_kept() {
    let mut state = SlaveState::new(MASTER);
    run_sync(&mut state, two_step(4), micros(1052), micros(1100));
    assert_eq!(state.handle_follow_up(follow_up(5, 2000)), Ok(()));
    assert_eq!(
        state.handle_delay_resp(delay_resp(0, 1054)),
        Err(SlaveError::OutOfSequence)
    );
    assert_eq!(state.handle_follow_up(follow_up(4, 1000)), Ok(()));
    assert_eq!(state.handle_delay_resp(delay_resp(0, 1054)), Ok(()));
    assert_eq!(
        state.extract_measurement().unwrap().master_offset,
        micros_span(49)
    );
}

#[test]
fn messages_of_strangers_are_ignored() {
    let mut state = SlaveState::new(MASTER);
    let stranger = Header {
        source_port_identity: OTHER,
        ..header(0)
    };
    let messages = [
        Message::Sync(SyncMessage {
            header: stranger,
            origin_timestamp: stamp(0),
        }),
        Message::FollowUp(FollowUpMessage {
            header: stranger,
            precise_origin_timestamp: stamp(0),
        }),
        Message::DelayResp(DelayRespMessage {
            header: stranger,
            receive_timestamp: stamp(0),
        }),
        Message::Other(stranger),
    ];
    for message in messages {
        assert!(state.can_handle(&message));
        assert_eq!(
            state.handle_message(message, micros(1), SLAVE),
            SlaveAction::Done(Ok(()))
        );
    }
    // The first request of the slave is still to come.
    assert_eq!(run_sync(&mut state, sync(0, 0), micros(1), micros(2)), 0);
}

#[test]
fn unexpected_messages_are_refused() {
    let mut state = SlaveState::new(MASTER);
    assert_eq!(
        state.handle_message(Message::Other(header(0)), micros(1), SLAVE),
        SlaveAction::Done(Err(SlaveError::UnexpectedMessage))
    );
}

#[test]
fn second_sync_is_out_of_sequence_but_restarts_the_delay_measurement() {
    let mut state = SlaveState::new(MASTER);
    run_sync(&mut state, sync(0, 0), micros(52), micros(100));
    let request = request(state.handle_sync(sync(1, 200), micros(252), SLAVE));
    assert_eq!(request.sync_result, Err(SlaveError::OutOfSequence));
    assert_eq!(request.message.sequence_id, 1);
    assert_eq!(
        state.delay_req_sent(request, micros(300)),
        Err(SlaveError::OutOfSequence)
    );
    // The response to the first request is of no use any more.
    assert_eq!(state.handle_delay_resp(delay_resp(0, 54)), Ok(()));
    assert_eq!(state.extract_measurement(), None);
    assert_eq!(state.handle_delay_resp(delay_resp(1, 254)), Ok(()));
    // The times of the first sync stand.
    assert_eq!(
        state.extract_measurement(),
        Some(Measurement {
            master_offset: micros_span(49),
            event_time: micros(52),
        })
    );
}

#[test]
fn delay_response_needs_both_handshakes() {
    let mut state = SlaveState::new(MASTER);
    assert_eq!(
        state.handle_delay_resp(delay_resp(0, 0)),
        Err(SlaveError::OutOfSequence)
    );
    run_sync(&mut state, two_step(0), micros(52), micros(100));
    assert_eq!(
        state.handle_delay_resp(delay_resp(0, 54)),
        Err(SlaveError::OutOfSequence)
    );
    assert_eq!(state.handle_follow_up(follow_up(0, 0)), Ok(()));
    assert_eq!(state.handle_delay_resp(delay_resp(0, 54)), Ok(()));
    assert_eq!(
        state.handle_delay_resp(delay_resp(0, 54)),
        Err(SlaveError::OutOfSequence)
    );
}

#[test]
fn delay_request_names_its_sender() {
    let mut state = SlaveState::new(MASTER);
    let request = request(state.handle_sync(sync(9, 0), micros(1), SLAVE));
    assert_eq!(request.message.source_port_identity, SLAVE);
    assert_eq!(request.message.sequence_id, 0);
    assert_eq!(request.message.log_message_interval, DELAY_REQ_LOG_INTERVAL);
    assert_eq!(request.message.log_message_interval, 0x7F);
    assert_eq!(
        request.message.origin_timestamp,
        Timestamp {
            seconds: 0,
            nanos: 0
        }
    );
    assert_eq!(request.sync_result, Ok(()));
}

/// A slave that measured the delay at a sync received at zero.
fn measured(log_message_interval: i8) -> SlaveState {
    let mut state = SlaveState::new(MASTER);
    run_sync(&mut state, sync(0, 0), micros(0), micros(0));
    let mut resp = delay_resp(0, 0);
    resp.header.log_message_interval = log_message_interval;
    assert_eq!(state.handle_delay_resp(resp), Ok(()));
    assert!(state.extract_measurement().is_some());
    state
}

#[test]
fn delay_is_not_measured_before_the_interval_has_passed() {
    let mut state = measured(1);
    // One tenth of a nanosecond before two seconds are over.
    let now = Instant {
        units: 2 * UNITS_PER_SECOND - 429_496_730,
    };
    assert_eq!(
        state.handle_sync(sync(1, 0), now, SLAVE),
        SlaveAction::Done(Ok(()))
    );
    // The delay of before is dropped, so that there is nothing to extract.
    assert_eq!(state.extract_measurement(), None);
}

#[test]
fn delay_is_measured_again_after_the_interval() {
    let mut state = measured(1);
    let now = Instant {
        units: 2 * UNITS_PER_SECOND - 429_496_729,
    };
    let request = request(state.handle_sync(sync(1, 0), now, SLAVE));
    assert_eq!(request.message.sequence_id, 1);
}

#[test]
fn kept_follow_up_completes_a_sync_without_request() {
    let mut state = measured(1);
    assert_eq!(state.handle_follow_up(follow_up(1, 10)), Ok(()));
    assert_eq!(
        state.handle_sync(two_step(1), micros(20), SLAVE),
        SlaveAction::Done(Ok(()))
    );
    // Another two-step sync is out of sequence now.
    let request = request(state.handle_sync(two_step(2), micros(30), SLAVE));
    assert_eq!(request.sync_result, Err(SlaveError::OutOfSequence));
}

#[test]
fn interval_of_an_awaited_response_has_to_be_representable() {
    let mut state = SlaveState::new(MASTER);
    let mut resp = delay_resp(0, 0);
    resp.header.log_message_interval = 0x7F;
    assert!(state.can_handle(&Message::DelayResp(resp)));
    run_sync(&mut state, sync(0, 0), micros(0), micros(0));
    assert!(!state.can_handle(&Message::DelayResp(resp)));
    resp.header.log_message_interval = 65;
    assert!(state.can_handle(&Message::DelayResp(resp)));
    assert_eq!(
        state.handle_message(Message::DelayResp(resp), micros(1), SLAVE),
        SlaveAction::Done(Ok(()))
    );
}

#[test]
fn extreme_message_fields_are_handled() {
    let mut state = SlaveState::new(MASTER);
    let limit = 1i128 << 122;
    let extreme = Timestamp {
        seconds: u64::MAX,
        nanos: u32::MAX,
    };
    let mut message = two_step(0);
    message.header.correction_field.scaled_nanos = i64::MAX;
    run_sync(
        &mut state,
        message,
        Instant { units: -limit },
        Instant { units: limit },
    );
    let mut second = follow_up(0, 0);
    second.precise_origin_timestamp = extreme;
    second.header.correction_field.scaled_nanos = i64::MAX;
    assert_eq!(state.handle_follow_up(second), Ok(()));
    let mut third = delay_resp(0, 0);
    third.header.correction_field.scaled_nanos = i64::MAX;
    assert_eq!(state.handle_delay_resp(third), Ok(()));
    let t1 = ((u64::MAX as i128) * 1_000_000_000 + u32::MAX as i128) * UNITS_PER_NANO
        + 2 * (i64::MAX as i128) * 0x1_0000;
    let t4 = -(i64::MAX as i128) * 0x1_0000;
    let mean = (-limit - t1 + (t4 - limit)) / 2;
    assert_eq!(
        state.extract_measurement().unwrap().master_offset.units,
        -limit - t1 - mean
    );
}

#[test]
fn only_the_last_delay_handshake_is_finished() {
    assert!(!DelayHandshake::Initial.finished());
    assert!(!DelayHandshake::AfterSync {
        delay_id: 0,
        delay_send_time: micros(0)
    }
    .finished());
    assert!(DelayHandshake::AfterDelayResp {
        mean_delay: micros_span(0)
    }
    .finished());
}

#[test]
fn errors_in_words() {
    assert_eq!(
        SlaveError::UnexpectedMessage.message(),
        "received a message that a port in the slave state can never process"
    );
    assert_eq!(
        SlaveError::OutOfSequence.message(),
        "received a message that can usually be processed, but not right now"
    );
}

#[test]
fn sequence_ids_wrap_around() {
    let mut ids = SequenceIdGenerator::new();
    for id in 0..=u16::MAX {
        assert_eq!(ids.generate(), id);
    }
    assert_eq!(ids.generate(), 0);
}

#[test]
fn nothing_is_processed_while_a_request_is_outstanding() {
    let mut state = SlaveState::new(MASTER);
    assert_eq!(state.outstanding(), None);
    // The follow-up that comes first waits for its sync.
    assert_eq!(state.handle_follow_up(follow_up(4, 1000)), Ok(()));
    let request = request(state.handle_sync(two_step(4), micros(1052), SLAVE));
    assert_eq!(state.outstanding(), Some(request));
    assert!(!state.can_handle(&Message::FollowUp(follow_up(5, 2000))));
    assert!(!state.can_handle(&Message::Sync(sync(5, 2000))));
    assert!(!state.can_handle(&Message::Other(header(0))));
    assert_eq!(state.delay_req_sent(request, micros(1100)), Ok(()));
    assert_eq!(state.outstanding(), None);
    assert!(state.can_handle(&Message::FollowUp(follow_up(5, 2000))));
    assert_eq!(state.handle_follow_up(follow_up(5, 2000)), Ok(()));
    assert_eq!(state.handle_delay_resp(delay_resp(0, 1054)), Ok(()));
    assert_eq!(
        state.extract_measurement().unwrap().master_offset,
        micros_span(49)
    );
}

#[test]
fn request_can_be_given_up() {
    let mut state = SlaveState::new(MASTER);
    assert_eq!(state.handle_follow_up(follow_up(4, 1000)), Ok(()));
    request(state.handle_sync(two_step(4), micros(1052), SLAVE));
    state.delay_req_abandoned();
    assert_eq!(state.outstanding(), None);
    // The kept follow-up was not processed, and the handshake goes on.
    assert_eq!(
        state.handle_delay_resp(delay_resp(0, 1054)),
        Err(SlaveError::OutOfSequence)
    );
    let next = request(state.handle_sync(two_step(5), micros(2052), SLAVE));
    assert_eq!(next.message.sequence_id, 1);
    assert_eq!(
        state.delay_req_sent(next, micros(1100)),
        Err(SlaveError::OutOfSequence)
    );
    assert_eq!(state.handle_delay_resp(delay_resp(1, 1054)), Ok(()));
    assert_eq!(
        state.extract_measurement(),
        Some(Measurement {
            master_offset: micros_span(49),
            event_time: micros(1052),
        })
    );
}

#[test]
fn each_measurement_needs_its_own_sync_and_delay() {
    let mut state = measured(1);
    // The response that was used before is of no use again.
    assert_eq!(
        state.handle_delay_resp(delay_resp(0, 0)),
        Err(SlaveError::OutOfSequence)
    );
    assert_eq!(state.handle_follow_up(follow_up(9, 0)), Ok(()));
    assert_eq!(state.extract_measurement(), None);
    assert_eq!(
        state.handle_sync(sync(1, 0), micros(1), SLAVE),
        SlaveAction::Done(Ok(()))
    );
    assert_eq!(state.extract_measurement(), None);
}
