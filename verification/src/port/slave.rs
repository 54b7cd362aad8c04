//! The slave state of a port.
//!
//! A slave measures its offset from the master in two handshakes. A sync
//! message, followed up by a second message when the master works in two steps,
//! tells when the master sent and when the slave received. A delay request and
//! its response tell the same of the way back.

use crate::messages::{
    interval_units, timestamp_units, DelayReqMessage, DelayRespMessage, FollowUpMessage, Message,
    PortIdentity, SyncMessage, Timestamp,
};
use crate::port::sequence_id::{next_id, SequenceIdGenerator};
use crate::time::{
    half, log_interval_units, Duration, Instant, LOCAL_LIMIT, MAX_LOG_INTERVAL, TENTH_NANO,
    UNITS_PER_SECOND,
};
use vstd::arithmetic::power2::pow2;
use vstd::prelude::*;

verus! {

/// The log message interval that every delay request carries.
pub const DELAY_REQ_LOG_INTERVAL: i8 = 0x7F;

/// The furthest from the epoch that message fields can place an instant: 2^64
/// seconds, and 2^82 units for what nanoseconds and corrections add.
pub const WIRE_LIMIT: i128 = 79_228_162_514_264_337_593_543_950_336_000_000_000
    + 0x4_0000_0000_0000_0000_0000;

/// What a slave learnt about its clock.
#[derive(Clone, Copy, PartialEq, Eq, Structural, Debug)]
pub struct Measurement {
    /// How far the local clock is ahead of the master.
    pub master_offset: Duration,
    /// The local time at which that was so.
    pub event_time: Instant,
}

/// Why a message was not processed.
#[derive(Clone, Copy, PartialEq, Eq, Structural, Debug)]
pub enum SlaveError {
    UnexpectedMessage,
    OutOfSequence,
}

/// How far the handshake from the master to the slave has come.
#[derive(Clone, Copy, PartialEq, Eq, Structural, Debug)]
pub enum Handshake {
    Initial,
    AfterSync { sync_id: u16, sync_recv_time: Instant, sync_correction: Duration },
    AfterFollowUp { sync_recv_time: Instant, sync_send_time: Instant },
}

/// How far the handshake from the slave to the master has come.
#[derive(Clone, Copy, PartialEq, Eq, Structural, Debug)]
pub enum DelayHandshake {
    Initial,
    AfterSync { delay_id: u16, delay_send_time: Instant },
    AfterDelayResp { mean_delay: Duration },
}

/// A port in the slave state.
#[derive(Debug)]
pub struct SlaveState {
    remote_master: PortIdentity,
    handshake: Handshake,
    delay_handshake: DelayHandshake,
    delay_req_ids: SequenceIdGenerator,
    next_delay_measurement: Option<Instant>,
    pending_followup: Option<FollowUpMessage>,
    outstanding: Option<DelayRequest>,
}

/// What is to be done after a message was handed to the slave state.
#[derive(Clone, Copy, PartialEq, Eq, Debug)]
pub enum SlaveAction {
    /// Nothing: the message has been dealt with.
    Done(Result<(), SlaveError>),
    /// Send a delay request, and report its send time.
    SendDelayReq(DelayRequest),
}

/// A delay request that is to be sent in the course of processing a sync.
#[derive(Clone, Copy, PartialEq, Eq, Debug)]
pub struct DelayRequest {
    pub message: DelayReqMessage,
    /// What processing the sync amounts to once the request is on its way.
    pub sync_result: Result<(), SlaveError>,
}

/// The abstract value of a [`Handshake`], with times in units.
pub enum HandshakeView {
    Initial,
    AfterSync { sync_id: u16, received: int, correction: int },
    AfterFollowUp { received: int, sent: int },
}

/// The abstract value of a [`DelayHandshake`], with times in units.
pub enum DelayHandshakeView {
    Initial,
    AfterSync { delay_id: u16, sent: int },
    AfterDelayResp { mean_delay: int },
}

/// The abstract value of a [`Measurement`], with times in units.
pub struct MeasurementView {
    pub master_offset: int,
    pub event_time: int,
}

/// The abstract value of a [`SlaveState`], with times in units.
pub struct SlaveView {
    pub remote_master: PortIdentity,
    pub handshake: HandshakeView,
    pub delay: DelayHandshakeView,
    /// The id of the next delay request.
    pub next_delay_id: u16,
    /// When the delay is to be measured again.
    pub next_delay_measurement: Option<int>,
    /// A follow-up whose sync has not been seen.
    pub pending_followup: Option<FollowUpMessage>,
    /// The delay request that is being sent. Until its send time is known, no
    /// other message is processed.
    pub outstanding: Option<DelayRequest>,
}

impl View for Handshake {
    type V = HandshakeView;

    open spec fn view(&self) -> HandshakeView {
        match *self {
            Handshake::Initial => HandshakeView::Initial,
            Handshake::AfterSync { sync_id, sync_recv_time, sync_correction } => {
                HandshakeView::AfterSync {
                    sync_id,
                    received: sync_recv_time@,
                    correction: sync_correction@,
                }
            },
            Handshake::AfterFollowUp { sync_recv_time, sync_send_time } => {
                HandshakeView::AfterFollowUp { received: sync_recv_time@, sent: sync_send_time@ }
            },
        }
    }
}

impl View for DelayHandshake {
    type V = DelayHandshakeView;

    open spec fn view(&self) -> DelayHandshakeView {
        match *self {
            DelayHandshake::Initial => DelayHandshakeView::Initial,
            DelayHandshake::AfterSync { delay_id, delay_send_time } => {
                DelayHandshakeView::AfterSync { delay_id, sent: delay_send_time@ }
            },
            DelayHandshake::AfterDelayResp { mean_delay } => {
                DelayHandshakeView::AfterDelayResp { mean_delay: mean_delay@ }
            },
        }
    }
}

impl View for Measurement {
    type V = MeasurementView;

    open spec fn view(&self) -> MeasurementView {
        MeasurementView { master_offset: self.master_offset@, event_time: self.event_time@ }
    }
}

impl View for SlaveState {
    type V = SlaveView;

    closed spec fn view(&self) -> SlaveView {
        SlaveView {
            remote_master: self.remote_master,
            handshake: self.handshake@,
            delay: self.delay_handshake@,
            next_delay_id: self.delay_req_ids@,
            next_delay_measurement: match self.next_delay_measurement {
                Some(t) => Some(t@),
                None => None,
            },
            pending_followup: self.pending_followup,
            outstanding: self.outstanding,
        }
    }
}

/// Whether `x` is at most `limit` away from zero.
pub open spec fn within(x: int, limit: int) -> bool {
    -limit <= x <= limit
}

/// When the master received a delay request, by the response to it.
pub open spec fn delay_received(message: DelayRespMessage) -> int {
    timestamp_units(message.receive_timestamp) - interval_units(message.header.correction_field)
}

/// When the master sent a two-step sync, by its follow-up.
pub open spec fn sync_sent(message: FollowUpMessage, sync_correction: int) -> int {
    timestamp_units(message.precise_origin_timestamp) + interval_units(
        message.header.correction_field,
    ) + sync_correction
}

impl SlaveView {
    /// Whether no follow-up is kept that the current handshake waits for, unless a
    /// delay request is outstanding.
    pub open spec fn settled(self) -> bool {
        self.outstanding is None && self.handshake is AfterSync && self.pending_followup is Some
            ==> self.pending_followup->0.header.sequence_id != self.handshake->sync_id
    }

    /// What holds of every reachable state: the times it holds are close enough
    /// to the epoch to be computed with.
    pub open spec fn wf(self) -> bool {
        &&& match self.handshake {
            HandshakeView::Initial => true,
            HandshakeView::AfterSync { received, correction, .. } => {
                &&& within(received, LOCAL_LIMIT as int)
                &&& within(correction, 0x8000_0000_0000_0000_0000)
            },
            HandshakeView::AfterFollowUp { received, sent } => {
                &&& within(received, LOCAL_LIMIT as int)
                &&& within(sent, WIRE_LIMIT as int)
            },
        }
        &&& match self.delay {
            DelayHandshakeView::Initial => true,
            DelayHandshakeView::AfterSync { sent, .. } => within(sent, LOCAL_LIMIT as int),
            DelayHandshakeView::AfterDelayResp { mean_delay } => within(
                mean_delay,
                WIRE_LIMIT + LOCAL_LIMIT,
            ),
        }
    }

    /// A slave that has heard nothing yet.
    pub open spec fn fresh(remote_master: PortIdentity) -> SlaveView {
        SlaveView {
            remote_master,
            handshake: HandshakeView::Initial,
            delay: DelayHandshakeView::Initial,
            next_delay_id: 0,
            next_delay_measurement: None,
            pending_followup: None,
            outstanding: None,
        }
    }

    /// Whether a sync received at `now` starts a new delay measurement: the last
    /// one was not completed, or its time has passed.
    pub open spec fn delay_due(self, now: int) -> bool {
        ||| !(self.delay is AfterDelayResp)
        ||| self.next_delay_measurement.unwrap_or(0) < now
    }

    /// What processing a sync amounts to.
    pub open spec fn sync_result(self) -> Result<(), SlaveError> {
        if self.handshake is Initial {
            Ok(())
        } else {
            Err(SlaveError::OutOfSequence)
        }
    }

    /// The handshake after a sync received at `now`. One that is under way goes
    /// on undisturbed.
    pub open spec fn handshake_after_sync(self, message: SyncMessage, now: int) -> HandshakeView {
        let correction = interval_units(message.header.correction_field);
        if self.handshake !is Initial {
            self.handshake
        } else if message.header.two_step_flag {
            HandshakeView::AfterSync {
                sync_id: message.header.sequence_id,
                received: now,
                correction,
            }
        } else {
            HandshakeView::AfterFollowUp {
                received: now,
                sent: timestamp_units(message.origin_timestamp) + correction,
            }
        }
    }

    /// The state once a sync that the port `port_identity` received at `now` has
    /// been taken in, up to the sending of a delay request where one is due.
    pub open spec fn sync_received(
        self,
        message: SyncMessage,
        now: int,
        port_identity: PortIdentity,
    ) -> SlaveView {
        let taken = SlaveView { handshake: self.handshake_after_sync(message, now), ..self };
        if self.delay_due(now) {
            SlaveView {
                next_delay_id: next_id(self.next_delay_id),
                outstanding: Some(self.delay_request(port_identity)),
                ..taken
            }
        } else {
            (SlaveView { delay: DelayHandshakeView::Initial, ..taken }).with_pending_followup()
        }
    }

    /// The state once the outstanding delay request left at `sent`.
    pub open spec fn delay_requested(self, sent: int) -> SlaveView {
        (SlaveView {
            delay: DelayHandshakeView::AfterSync {
                delay_id: self.outstanding->0.message.sequence_id,
                sent,
            },
            outstanding: None,
            ..self
        }).with_pending_followup()
    }

    /// The state once the sending of the outstanding delay request was given up.
    /// What the sync has brought so far stands, and the rest is left undone.
    pub open spec fn delay_request_abandoned(self) -> SlaveView {
        SlaveView { outstanding: None, ..self }
    }

    /// The request that a sync leads the port `port_identity` to send.
    pub open spec fn delay_request(self, port_identity: PortIdentity) -> DelayRequest {
        DelayRequest {
            message: DelayReqMessage {
                source_port_identity: port_identity,
                sequence_id: self.next_delay_id,
                log_message_interval: DELAY_REQ_LOG_INTERVAL,
                origin_timestamp: Timestamp { seconds: 0, nanos: 0 },
            },
            sync_result: self.sync_result(),
        }
    }

    /// The state after a follow-up that was kept for later is processed again.
    pub open spec fn with_pending_followup(self) -> SlaveView {
        match self.pending_followup {
            Some(message) => self.follow_up(message),
            None => self,
        }
    }

    /// The state after a follow-up: the one awaited completes the handshake and
    /// makes kept ones obsolete, any other is kept for a sync yet to come.
    pub open spec fn follow_up(self, message: FollowUpMessage) -> SlaveView {
        match self.handshake {
            HandshakeView::AfterSync { sync_id, received, correction } if sync_id
                == message.header.sequence_id => {
                SlaveView {
                    handshake: HandshakeView::AfterFollowUp {
                        received,
                        sent: sync_sent(message, correction),
                    },
                    pending_followup: None,
                    ..self
                }
            },
            _ => SlaveView { pending_followup: Some(message), ..self },
        }
    }

    /// Whether delay responses can be processed at all.
    pub open spec fn delay_resp_in_sequence(self) -> bool {
        self.handshake is AfterFollowUp && self.delay is AfterSync
    }

    /// Whether this delay response is the one that is awaited.
    pub open spec fn awaits_delay_resp(self, message: DelayRespMessage) -> bool {
        self.delay_resp_in_sequence() && self.delay->delay_id == message.header.sequence_id
    }

    /// The mean of the delays of both ways, by the response that is awaited.
    pub open spec fn mean_delay(self, message: DelayRespMessage) -> int {
        half(
            (self.handshake->AfterFollowUp_received - self.handshake->sent) + (delay_received(
                message,
            ) - self.delay->sent),
        )
    }

    /// The state after a delay response. Only the one awaited changes anything.
    pub open spec fn delay_resp(self, message: DelayRespMessage) -> SlaveView {
        if self.awaits_delay_resp(message) {
            SlaveView {
                delay: DelayHandshakeView::AfterDelayResp { mean_delay: self.mean_delay(message) },
                next_delay_measurement: Some(
                    self.handshake->AfterFollowUp_received + log_interval_units(
                        message.header.log_message_interval as int,
                    ) - TENTH_NANO,
                ),
                ..self
            }
        } else {
            self
        }
    }

    /// What processing a delay response amounts to.
    pub open spec fn delay_resp_result(self) -> Result<(), SlaveError> {
        if self.delay_resp_in_sequence() {
            Ok(())
        } else {
            Err(SlaveError::OutOfSequence)
        }
    }

    /// The measurement that both completed handshakes give.
    pub open spec fn measurement(self) -> Option<MeasurementView> {
        match (self.handshake, self.delay) {
            (
                HandshakeView::AfterFollowUp { received, sent },
                DelayHandshakeView::AfterDelayResp { mean_delay },
            ) => Some(
                MeasurementView {
                    master_offset: received - sent - mean_delay,
                    event_time: received,
                },
            ),
            _ => None,
        }
    }

    /// The state after the measurement, if there is one, was taken out.
    pub open spec fn measurement_taken(self) -> SlaveView {
        if self.measurement() is Some {
            SlaveView { handshake: HandshakeView::Initial, ..self }
        } else {
            self
        }
    }

    /// Whether a message can be processed: no delay request is outstanding, and,
    /// within the machine's limits, the interval of an awaited delay response is
    /// representable.
    pub open spec fn can_handle(self, message: Message) -> bool {
        &&& self.outstanding is None
        &&& message matches Message::DelayResp(resp) ==> (resp.header.source_port_identity
            == self.remote_master && self.awaits_delay_resp(resp)
            ==> resp.header.log_message_interval <= MAX_LOG_INTERVAL)
    }

    /// The state after a message that the port `port_identity` received at `now`,
    /// up to the sending of a delay request where one is due.
    pub open spec fn message_received(
        self,
        message: Message,
        now: int,
        port_identity: PortIdentity,
    ) -> SlaveView {
        if message.spec_header().source_port_identity != self.remote_master {
            self
        } else {
            match message {
                Message::Sync(sync) => self.sync_received(sync, now, port_identity),
                Message::FollowUp(follow_up) => self.follow_up(follow_up),
                Message::DelayResp(resp) => self.delay_resp(resp),
                Message::Other(_) => self,
            }
        }
    }

    /// What is to be done about a sync received at `now`.
    pub open spec fn sync_action(self, now: int, port_identity: PortIdentity) -> SlaveAction {
        if self.delay_due(now) {
            SlaveAction::SendDelayReq(self.delay_request(port_identity))
        } else {
            SlaveAction::Done(self.sync_result())
        }
    }

    /// What is to be done about a message received at `now`.
    pub open spec fn message_action(
        self,
        message: Message,
        now: int,
        port_identity: PortIdentity,
    ) -> SlaveAction {
        if message.spec_header().source_port_identity != self.remote_master {
            SlaveAction::Done(Ok(()))
        } else {
            match message {
                Message::Sync(_) => self.sync_action(now, port_identity),
                Message::FollowUp(_) => SlaveAction::Done(Ok(())),
                Message::DelayResp(_) => SlaveAction::Done(self.delay_resp_result()),
                Message::Other(_) => SlaveAction::Done(Err(SlaveError::UnexpectedMessage)),
            }
        }
    }
}

impl SlaveError {
    /// The error in words.
    pub fn message(&self) -> (text: &'static str)
        ensures
            text@ == match *self {
                SlaveError::UnexpectedMessage =>
                    "received a message that a port in the slave state can never process"@,
                SlaveError::OutOfSequence =>
                    "received a message that can usually be processed, but not right now"@,
            },
    {
        match self {
            SlaveError::UnexpectedMessage =>
                "received a message that a port in the slave state can never process",
            SlaveError::OutOfSequence =>
                "received a message that can usually be processed, but not right now",
        }
    }
}

impl DelayHandshake {
    /// Whether the delay has been measured.
    pub fn finished(&self) -> (finished: bool)
        ensures
            finished == (self@ is AfterDelayResp),
    {
        match self {
            DelayHandshake::Initial | DelayHandshake::AfterSync { .. } => false,
            DelayHandshake::AfterDelayResp { .. } => true,
        }
    }
}

proof fn lemma_log_interval_bound(log: int)
    requires
        -128 <= log <= MAX_LOG_INTERVAL,
    ensures
        0 <= log_interval_units(log) <= UNITS_PER_SECOND * 0x2_0000_0000_0000_0000,
{
    broadcast use vstd::arithmetic::power2::lemma_pow2_pos;

    if log >= 0 {
        vstd::arithmetic::power2::lemma2_to64_rest();
        vstd::arithmetic::power2::lemma_pow2_unfold(65);
        if log < 65 {
            vstd::arithmetic::power2::lemma_pow2_strictly_increases(log as nat, 65);
        }
        vstd::arithmetic::mul::lemma_mul_inequality(
            pow2(log as nat) as int,
            0x2_0000_0000_0000_0000,
            UNITS_PER_SECOND as int,
        );
    } else {
        let d = pow2((-log) as nat) as int;
        vstd::arithmetic::div_mod::lemma_div_pos_is_pos(UNITS_PER_SECOND as int, d);
        vstd::arithmetic::div_mod::lemma_div_is_ordered_by_denominator(
            UNITS_PER_SECOND as int,
            1,
            d,
        );
    }
}

impl SlaveState {
    pub fn new(remote_master: PortIdentity) -> (state: SlaveState)
        ensures
            state@ == SlaveView::fresh(remote_master),
            state@.wf(),
    {
        SlaveState {
            remote_master,
            handshake: Handshake::Initial,
            delay_handshake: DelayHandshake::Initial,
            delay_req_ids: SequenceIdGenerator::new(),
            next_delay_measurement: None,
            pending_followup: None,
            outstanding: None,
        }
    }

    /// The delay request that is being sent, if any.
    pub fn outstanding(&self) -> (request: Option<DelayRequest>)
        ensures
            request == self@.outstanding,
    {
        self.outstanding
    }

    /// The port whose messages this slave listens to.
    pub fn remote_master(&self) -> (identity: PortIdentity)
        ensures
            identity == self@.remote_master,
    {
        self.remote_master
    }

    /// The executable form of [`SlaveView::can_handle`].
    pub fn can_handle(&self, message: &Message) -> (able: bool)
        ensures
            able == self@.can_handle(*message),
    {
        if self.outstanding.is_some() {
            return false;
        }
        match (message, self.handshake, self.delay_handshake) {
            (
                Message::DelayResp(resp),
                Handshake::AfterFollowUp { .. },
                DelayHandshake::AfterSync { delay_id, .. },
            ) => resp.header.source_port_identity != self.remote_master || delay_id
                != resp.header.sequence_id || resp.header.log_message_interval <= MAX_LOG_INTERVAL,
            _ => true,
        }
    }

    /// Processes a message that the port `port_identity` received at
    /// `current_time`. Only messages of the master count.
    pub fn handle_message(
        &mut self,
        message: Message,
        current_time: Instant,
        port_identity: PortIdentity,
    ) -> (action: SlaveAction)
        requires
            old(self)@.wf(),
            current_time.is_local(),
            old(self)@.can_handle(message),
        ensures
            final(self)@ == old(self)@.message_received(
                message,
                current_time@,
                port_identity,
            ),
            action == old(self)@.message_action(message, current_time@, port_identity),
            final(self)@.wf(),
    {
        if message.header().source_port_identity == self.remote_master {
            match message {
                Message::Sync(message) => self.handle_sync(message, current_time, port_identity),
                Message::FollowUp(message) => SlaveAction::Done(self.handle_follow_up(message)),
                Message::DelayResp(message) => SlaveAction::Done(self.handle_delay_resp(message)),
                Message::Other(_) => SlaveAction::Done(Err(SlaveError::UnexpectedMessage)),
            }
        } else {
            SlaveAction::Done(Ok(()))
        }
    }

    /// Processes a sync of the master. Where a delay request is due it is
    /// returned, and [`SlaveState::delay_req_sent`] does the rest.
    pub fn handle_sync(
        &mut self,
        message: SyncMessage,
        current_time: Instant,
        port_identity: PortIdentity,
    ) -> (action: SlaveAction)
        requires
            old(self)@.wf(),
            old(self)@.outstanding is None,
            current_time.is_local(),
        ensures
            final(self)@ == old(self)@.sync_received(message, current_time@, port_identity),
            action == old(self)@.sync_action(current_time@, port_identity),
            final(self)@.wf(),
    {
        let correction = message.header.correction_field.to_duration();
        let result = match self.handshake {
            Handshake::Initial => {
                self.handshake = if message.header.two_step_flag {
                    Handshake::AfterSync {
                        sync_id: message.header.sequence_id,
                        sync_recv_time: current_time,
                        sync_correction: correction,
                    }
                } else {
                    Handshake::AfterFollowUp {
                        sync_recv_time: current_time,
                        sync_send_time: message.origin_timestamp.to_instant().plus(correction),
                    }
                };
                Ok(())
            },
            Handshake::AfterSync { .. } | Handshake::AfterFollowUp { .. } => {
                Err(SlaveError::OutOfSequence)
            },
        };

        let next_delay_measurement = match self.next_delay_measurement {
            Some(time) => time,
            None => Instant::default(),
        };
        if !self.delay_handshake.finished() || next_delay_measurement.units < current_time.units {
            let delay_id: u16 = self.delay_req_ids.generate();
            let request = DelayRequest {
                message: DelayReqMessage {
                    source_port_identity: port_identity,
                    sequence_id: delay_id,
                    log_message_interval: DELAY_REQ_LOG_INTERVAL,
                    origin_timestamp: Timestamp::default(),
                },
                sync_result: result,
            };
            self.outstanding = Some(request);
            SlaveAction::SendDelayReq(request)
        } else {
            self.delay_handshake = DelayHandshake::Initial;
            match self.resume_follow_up() {
                Err(error) => SlaveAction::Done(Err(error)),
                Ok(()) => SlaveAction::Done(result),
            }
        }
    }

    /// Finishes processing a sync, now that the delay request it called for, and
    /// no other, has left at `delay_send_time`.
    pub fn delay_req_sent(&mut self, request: DelayRequest, delay_send_time: Instant) -> (result:
        Result<(), SlaveError>)
        requires
            old(self)@.wf(),
            old(self)@.outstanding == Some(request),
            delay_send_time.is_local(),
        ensures
            final(self)@ == old(self)@.delay_requested(delay_send_time@),
            result == request.sync_result,
            final(self)@.wf(),
    {
        self.outstanding = None;
        self.delay_handshake = DelayHandshake::AfterSync {
            delay_id: request.message.sequence_id,
            delay_send_time,
        };
        match self.resume_follow_up() {
            Err(error) => Err(error),
            Ok(()) => request.sync_result,
        }
    }

    /// Gives up sending the outstanding delay request, and with it the rest of
    /// processing its sync.
    pub fn delay_req_abandoned(&mut self)
        requires
            old(self)@.wf(),
            old(self)@.outstanding is Some,
        ensures
            final(self)@ == old(self)@.delay_request_abandoned(),
            final(self)@.wf(),
    {
        self.outstanding = None;
    }

    /// Processes a follow-up that was kept for later once more.
    fn resume_follow_up(&mut self) -> (result: Result<(), SlaveError>)
        requires
            old(self)@.wf(),
            old(self)@.outstanding is None,
        ensures
            final(self)@ == old(self)@.with_pending_followup(),
            result == Ok::<(), SlaveError>(()),
            final(self)@.wf(),
    {
        match self.pending_followup {
            Some(follow_up) => self.handle_follow_up(follow_up),
            None => Ok(()),
        }
    }

    /// Processes a follow-up of the master.
    pub fn handle_follow_up(&mut self, message: FollowUpMessage) -> (result: Result<
        (),
        SlaveError,
    >)
        requires
            old(self)@.wf(),
            old(self)@.outstanding is None,
        ensures
            final(self)@ == old(self)@.follow_up(message),
            result == Ok::<(), SlaveError>(()),
            final(self)@.wf(),
    {
        match self.handshake {
            Handshake::AfterSync { sync_id, sync_recv_time, sync_correction } => {
                // A follow-up to another sync may still find its own.
                if sync_id == message.header.sequence_id {
                    self.pending_followup = None;
                    let sync_send_time = message.precise_origin_timestamp.to_instant().plus(
                        message.header.correction_field.to_duration(),
                    ).plus(sync_correction);
                    self.handshake = Handshake::AfterFollowUp { sync_recv_time, sync_send_time };
                    Ok(())
                } else {
                    self.pending_followup = Some(message);
                    Ok(())
                }
            },
            Handshake::Initial | Handshake::AfterFollowUp { .. } => {
                self.pending_followup = Some(message);
                Ok(())
            },
        }
    }

    /// Processes a delay response of the master.
    pub fn handle_delay_resp(&mut self, message: DelayRespMessage) -> (result: Result<
        (),
        SlaveError,
    >)
        requires
            old(self)@.wf(),
            old(self)@.outstanding is None,
            old(self)@.awaits_delay_resp(message) ==> message.header.log_message_interval
                <= MAX_LOG_INTERVAL,
        ensures
            final(self)@ == old(self)@.delay_resp(message),
            result == old(self)@.delay_resp_result(),
            final(self)@.wf(),
    {
        match self.handshake {
            Handshake::AfterFollowUp { sync_recv_time, sync_send_time } => {
                match self.delay_handshake {
                    DelayHandshake::AfterSync { delay_id, delay_send_time } => {
                        // Ignore messages not belonging to currently processing sync
                        if delay_id != message.header.sequence_id {
                            return Ok(());
                        }
                        let delay_recv_time = message.receive_timestamp.to_instant().minus(
                            message.header.correction_field.to_duration(),
                        );

                        proof {
                            lemma_log_interval_bound(message.header.log_message_interval as int);
                        }
                        self.next_delay_measurement = Some(
                            sync_recv_time.plus(
                                Duration::from_log_interval(message.header.log_message_interval),
                            ).minus(Duration { units: TENTH_NANO }),
                        );

                        let mean_delay = sync_recv_time.since(sync_send_time).plus(
                            delay_recv_time.since(delay_send_time),
                        ).halved();
                        self.delay_handshake = DelayHandshake::AfterDelayResp { mean_delay };
                        Ok(())
                    },
                    DelayHandshake::Initial | DelayHandshake::AfterDelayResp { .. } => {
                        Err(SlaveError::OutOfSequence)
                    },
                }
            },
            Handshake::Initial | Handshake::AfterSync { .. } => Err(SlaveError::OutOfSequence),
        }
    }

    /// Takes out the measurement, once both handshakes are complete.
    pub fn extract_measurement(&mut self) -> (measurement: Option<Measurement>)
        requires
            old(self)@.wf(),
            old(self)@.outstanding is None,
        ensures
            final(self)@ == old(self)@.measurement_taken(),
            measurement is Some <==> old(self)@.measurement() is Some,
            measurement matches Some(m) ==> Some(m@) == old(self)@.measurement(),
            final(self)@.wf(),
    {
        match self.handshake {
            Handshake::AfterFollowUp { sync_recv_time, sync_send_time } => {
                match self.delay_handshake {
                    DelayHandshake::AfterDelayResp { mean_delay } => {
                        let result = Measurement {
                            master_offset: sync_recv_time.since(sync_send_time).minus(mean_delay),
                            event_time: sync_recv_time,
                        };
                        self.handshake = Handshake::Initial;
                        Some(result)
                    },
                    DelayHandshake::Initial | DelayHandshake::AfterSync { .. } => None,
                }
            },
            Handshake::Initial | Handshake::AfterSync { .. } => None,
        }
    }
}

} // verus!
