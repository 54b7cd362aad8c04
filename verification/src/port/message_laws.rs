//! Laws of the slave state over the messages it is handed, with times worked out
//! from the fields of the messages.
//!
//! A second is 10^9 ns, a nanosecond 2^32 units, and a count of a correction field
//! 2^16 units.

use crate::messages::{
    DelayReqMessage, DelayRespMessage, FollowUpMessage, Header, Message, PortIdentity, SyncMessage,
    Timestamp,
};
use crate::port::slave::{
    DelayHandshake, DelayHandshakeView, DelayRequest, Handshake, HandshakeView, Measurement,
    SlaveAction, SlaveError, SlaveView,
};
use crate::time::{log_interval_units, Duration, Instant};
use vstd::prelude::*;

verus! {

/// A new slave has heard nothing, waits for nothing, and starts its delay requests
/// at id zero.
pub proof fn law_new_slave(remote_master: PortIdentity)
    ensures
        ({
            let s = SlaveView::fresh(remote_master);
            &&& s.remote_master == remote_master
            &&& s.handshake is Initial
            &&& s.delay is Initial
            &&& s.next_delay_id == 0
            &&& s.next_delay_measurement is None
            &&& s.pending_followup is None
            &&& s.outstanding is None
        }),
{
}

/// Handing a message of the master over is processing a message of its kind; each
/// kind has its own effect, and no other.
pub proof fn law_messages_by_kind(
    s: SlaveView,
    sync: SyncMessage,
    follow_up: FollowUpMessage,
    resp: DelayRespMessage,
    now: int,
    port_identity: PortIdentity,
)
    ensures
        sync.header.source_port_identity == s.remote_master ==> {
            &&& s.message_received(Message::Sync(sync), now, port_identity) == s.sync_received(
                sync,
                now,
                port_identity,
            )
            &&& s.message_action(Message::Sync(sync), now, port_identity) == s.sync_action(
                now,
                port_identity,
            )
        },
        follow_up.header.source_port_identity == s.remote_master ==> {
            &&& s.message_received(Message::FollowUp(follow_up), now, port_identity)
                == s.follow_up(follow_up)
            &&& s.message_action(Message::FollowUp(follow_up), now, port_identity)
                == SlaveAction::Done(Ok(()))
        },
        resp.header.source_port_identity == s.remote_master ==> {
            &&& s.message_received(Message::DelayResp(resp), now, port_identity) == s.delay_resp(
                resp,
            )
            &&& s.message_action(Message::DelayResp(resp), now, port_identity)
                == SlaveAction::Done(s.delay_resp_result())
        },
{
}

/// Whoever else sends a message, of whatever kind, the slave stays as it is and
/// reports no error.
pub proof fn law_messages_of_others(
    s: SlaveView,
    sync: SyncMessage,
    follow_up: FollowUpMessage,
    resp: DelayRespMessage,
    header: Header,
    now: int,
    port_identity: PortIdentity,
)
    ensures
        sync.header.source_port_identity != s.remote_master ==> {
            &&& s.message_received(Message::Sync(sync), now, port_identity) == s
            &&& s.message_action(Message::Sync(sync), now, port_identity) == SlaveAction::Done(
                Ok(()),
            )
        },
        follow_up.header.source_port_identity != s.remote_master ==> {
            &&& s.message_received(Message::FollowUp(follow_up), now, port_identity) == s
            &&& s.message_action(Message::FollowUp(follow_up), now, port_identity)
                == SlaveAction::Done(Ok(()))
        },
        resp.header.source_port_identity != s.remote_master ==> {
            &&& s.message_received(Message::DelayResp(resp), now, port_identity) == s
            &&& s.message_action(Message::DelayResp(resp), now, port_identity)
                == SlaveAction::Done(Ok(()))
        },
        header.source_port_identity != s.remote_master ==> {
            &&& s.message_received(Message::Other(header), now, port_identity) == s
            &&& s.message_action(Message::Other(header), now, port_identity) == SlaveAction::Done(
                Ok(()),
            )
        },
        header.source_port_identity == s.remote_master ==> {
            &&& s.message_received(Message::Other(header), now, port_identity) == s
            &&& s.message_action(Message::Other(header), now, port_identity) == SlaveAction::Done(
                Err(SlaveError::UnexpectedMessage),
            )
        },
{
}

/// A message can be handed over whenever no delay request is outstanding, but for
/// the response that is awaited from the master: its interval has to be 2^65 seconds
/// at most.
pub proof fn law_messages_that_can_be_handled(s: SlaveView, message: Message)
    ensures
        s.outstanding is Some ==> !s.can_handle(message),
        s.outstanding is None && message !is DelayResp ==> s.can_handle(message),
        s.outstanding is None ==> (message matches Message::DelayResp(resp) ==> (s.can_handle(
            message,
        ) <==> {
            ||| resp.header.log_message_interval <= 65
            ||| resp.header.source_port_identity != s.remote_master
            ||| s.handshake !is AfterFollowUp
            ||| s.delay !is AfterSync
            ||| s.delay->delay_id != resp.header.sequence_id
        })),
        message matches Message::DelayResp(resp) ==> (s.awaits_delay_resp(resp) <==> {
            &&& s.handshake is AfterFollowUp
            &&& s.delay is AfterSync
            &&& s.delay->delay_id == resp.header.sequence_id
        }),
{
}

/// A sync sends a delay request if and only if the delay is not known, or is to be
/// measured again by now. The request names the port as its sender and carries the
/// next id, the interval for requests, and no timestamp.
pub proof fn law_sync_sends_request(
    s: SlaveView,
    sync: SyncMessage,
    now: int,
    port_identity: PortIdentity,
)
    ensures
        ({
            let next = s.sync_received(sync, now, port_identity);
            let action = s.sync_action(now, port_identity);
            let result = if s.handshake is Initial {
                Ok::<(), SlaveError>(())
            } else {
                Err::<(), SlaveError>(SlaveError::OutOfSequence)
            };
            let request = DelayRequest {
                message: DelayReqMessage {
                    source_port_identity: port_identity,
                    sequence_id: s.next_delay_id,
                    log_message_interval: 0x7F,
                    origin_timestamp: Timestamp { seconds: 0, nanos: 0 },
                },
                sync_result: result,
            };
            let due = s.delay !is AfterDelayResp || (match s.next_delay_measurement {
                Some(time) => now > time,
                None => now > 0,
            });
            &&& due ==> {
                &&& action == SlaveAction::SendDelayReq(request)
                &&& next.outstanding == Some(request)
                &&& next.next_delay_id as int == (s.next_delay_id + 1) % 65536
                &&& next.delay == s.delay
                &&& next.pending_followup == s.pending_followup
            }
            &&& !due ==> {
                &&& action == SlaveAction::Done(result)
                &&& next.outstanding == s.outstanding
                &&& next.next_delay_id == s.next_delay_id
                &&& next.delay is Initial
            }
            &&& next.remote_master == s.remote_master
            &&& next.next_delay_measurement == s.next_delay_measurement
            &&& s.delay_due(now) == due
        }),
{
}

/// A one-step sync that starts a handshake completes it at once: the master sent it
/// at its origin timestamp plus its correction. A kept follow-up stays kept.
pub proof fn law_one_step_sync(
    s: SlaveView,
    sync: SyncMessage,
    now: int,
    port_identity: PortIdentity,
)
    requires
        s.handshake is Initial,
        !sync.header.two_step_flag,
    ensures
        ({
            let next = s.sync_received(sync, now, port_identity);
            &&& next.handshake == (HandshakeView::AfterFollowUp {
                received: now,
                sent: (sync.origin_timestamp.seconds * 1_000_000_000 + sync.origin_timestamp.nanos)
                    * 4_294_967_296 + sync.header.correction_field.scaled_nanos * 65_536,
            })
            &&& next.pending_followup == s.pending_followup
            &&& sync.header.source_port_identity == s.remote_master ==> s.message_received(
                Message::Sync(sync),
                now,
                port_identity,
            ) == next
        }),
{
}

/// A two-step sync that starts a handshake waits for its follow-up, unless that is
/// kept already and no request has to be sent first.
pub proof fn law_two_step_sync(
    s: SlaveView,
    sync: SyncMessage,
    now: int,
    port_identity: PortIdentity,
)
    requires
        s.handshake is Initial,
        sync.header.two_step_flag,
    ensures
        ({
            let next = s.sync_received(sync, now, port_identity);
            let correction = sync.header.correction_field.scaled_nanos * 65_536;
            let f = s.pending_followup->0;
            let kept = s.pending_followup is Some && f.header.sequence_id
                == sync.header.sequence_id;
            let due = s.delay !is AfterDelayResp || (match s.next_delay_measurement {
                Some(time) => now > time,
                None => now > 0,
            });
            &&& !kept || due ==> {
                &&& next.handshake == (HandshakeView::AfterSync {
                    sync_id: sync.header.sequence_id,
                    received: now,
                    correction,
                })
                &&& next.pending_followup == s.pending_followup
            }
            &&& kept && !due ==> {
                &&& next.handshake == (HandshakeView::AfterFollowUp {
                    received: now,
                    sent: (f.precise_origin_timestamp.seconds * 1_000_000_000
                        + f.precise_origin_timestamp.nanos) * 4_294_967_296
                        + f.header.correction_field.scaled_nanos * 65_536 + correction,
                })
                &&& next.pending_followup is None
            }
            &&& sync.header.source_port_identity == s.remote_master ==> s.message_received(
                Message::Sync(sync),
                now,
                port_identity,
            ) == next
        }),
{
}

/// A sync in the middle of a handshake does not touch it, nor a kept follow-up, as
/// long as the two do not belong together.
pub proof fn law_late_sync(
    s: SlaveView,
    sync: SyncMessage,
    now: int,
    port_identity: PortIdentity,
)
    requires
        s.handshake !is Initial,
        s.handshake is AfterSync && s.pending_followup is Some
            ==> s.pending_followup->0.header.sequence_id != s.handshake->sync_id,
    ensures
        s.sync_received(sync, now, port_identity).handshake == s.handshake,
        s.sync_received(sync, now, port_identity).pending_followup == s.pending_followup,
{
}

/// A sync that sends no request, in the middle of a handshake whose follow-up is
/// kept, has that handshake completed by it.
pub proof fn law_late_sync_finds_kept_follow_up(
    s: SlaveView,
    sync: SyncMessage,
    now: int,
    port_identity: PortIdentity,
)
    requires
        s.handshake is AfterSync,
        s.pending_followup is Some,
        s.pending_followup->0.header.sequence_id == s.handshake->sync_id,
    ensures
        ({
            let next = s.sync_received(sync, now, port_identity);
            let f = s.pending_followup->0;
            if s.sync_action(now, port_identity) is SendDelayReq {
                &&& next.handshake == s.handshake
                &&& next.pending_followup == s.pending_followup
            } else {
                &&& next.handshake == (HandshakeView::AfterFollowUp {
                    received: s.handshake->AfterSync_received,
                    sent: (f.precise_origin_timestamp.seconds * 1_000_000_000
                        + f.precise_origin_timestamp.nanos) * 4_294_967_296
                        + f.header.correction_field.scaled_nanos * 65_536
                        + s.handshake->correction,
                })
                &&& next.pending_followup is None
            }
        }),
{
}

/// Once the outstanding request was sent, its response is awaited, and a kept
/// follow-up completes the handshake that waits for it. All else stays.
pub proof fn law_request_sent(s: SlaveView, sent: int)
    requires
        s.outstanding is Some,
    ensures
        ({
            let next = s.delay_requested(sent);
            let f = s.pending_followup->0;
            let awaited = s.handshake is AfterSync && s.pending_followup is Some
                && f.header.sequence_id == s.handshake->sync_id;
            &&& next.delay == (DelayHandshakeView::AfterSync {
                delay_id: s.outstanding->0.message.sequence_id,
                sent,
            })
            &&& next.outstanding is None
            &&& next.remote_master == s.remote_master
            &&& next.next_delay_id == s.next_delay_id
            &&& next.next_delay_measurement == s.next_delay_measurement
            &&& !awaited ==> next.handshake == s.handshake && next.pending_followup
                == s.pending_followup
            &&& awaited ==> {
                &&& next.handshake == (HandshakeView::AfterFollowUp {
                    received: s.handshake->AfterSync_received,
                    sent: (f.precise_origin_timestamp.seconds * 1_000_000_000
                        + f.precise_origin_timestamp.nanos) * 4_294_967_296
                        + f.header.correction_field.scaled_nanos * 65_536
                        + s.handshake->correction,
                })
                &&& next.pending_followup is None
            }
        }),
{
}

/// A request that was given up leaves no trace but its id, which is used up.
pub proof fn law_request_given_up(s: SlaveView)
    ensures
        ({
            let next = s.delay_request_abandoned();
            &&& next.outstanding is None
            &&& next.remote_master == s.remote_master
            &&& next.handshake == s.handshake
            &&& next.delay == s.delay
            &&& next.next_delay_id == s.next_delay_id
            &&& next.next_delay_measurement == s.next_delay_measurement
            &&& next.pending_followup == s.pending_followup
        }),
{
}

/// The follow-up that a handshake waits for completes it: the master sent the sync
/// at the precise origin timestamp plus both corrections. Kept follow-ups are
/// forgotten, and all else stays.
pub proof fn law_awaited_follow_up(
    s: SlaveView,
    follow_up: FollowUpMessage,
    now: int,
    port_identity: PortIdentity,
)
    requires
        s.handshake is AfterSync,
        follow_up.header.sequence_id == s.handshake->sync_id,
    ensures
        ({
            let next = s.follow_up(follow_up);
            &&& next.handshake == (HandshakeView::AfterFollowUp {
                received: s.handshake->AfterSync_received,
                sent: (follow_up.precise_origin_timestamp.seconds * 1_000_000_000
                    + follow_up.precise_origin_timestamp.nanos) * 4_294_967_296
                    + follow_up.header.correction_field.scaled_nanos * 65_536
                    + s.handshake->correction,
            })
            &&& next.pending_followup is None
            &&& next.remote_master == s.remote_master
            &&& next.delay == s.delay
            &&& next.next_delay_id == s.next_delay_id
            &&& next.next_delay_measurement == s.next_delay_measurement
            &&& next.outstanding == s.outstanding
            &&& follow_up.header.source_port_identity == s.remote_master ==> {
                let message = Message::FollowUp(follow_up);
                &&& s.message_received(message, now, port_identity) == next
                &&& s.message_action(message, now, port_identity) == SlaveAction::Done(Ok(()))
            }
        }),
{
}

/// Any other follow-up takes the place of the one that is kept, and changes nothing
/// else.
pub proof fn law_other_follow_up(
    s: SlaveView,
    follow_up: FollowUpMessage,
    now: int,
    port_identity: PortIdentity,
)
    requires
        s.handshake is AfterSync ==> follow_up.header.sequence_id != s.handshake->sync_id,
    ensures
        ({
            let next = s.follow_up(follow_up);
            &&& next.pending_followup == Some(follow_up)
            &&& next.handshake == s.handshake
            &&& next.remote_master == s.remote_master
            &&& next.delay == s.delay
            &&& next.next_delay_id == s.next_delay_id
            &&& next.next_delay_measurement == s.next_delay_measurement
            &&& next.outstanding == s.outstanding
            &&& follow_up.header.source_port_identity == s.remote_master ==> {
                let message = Message::FollowUp(follow_up);
                &&& s.message_received(message, now, port_identity) == next
                &&& s.message_action(message, now, port_identity) == SlaveAction::Done(Ok(()))
            }
        }),
{
}

/// The response that is awaited tells when the master received the request: at its
/// receive timestamp less its correction. The mean delay is half of what both ways
/// take together, rounded towards zero. The delay is to be measured again when the
/// interval that the response announces has passed since the sync was received, less
/// a tenth of a nanosecond. All else stays.
pub proof fn law_awaited_delay_resp(
    s: SlaveView,
    resp: DelayRespMessage,
    now: int,
    port_identity: PortIdentity,
)
    requires
        s.handshake is AfterFollowUp,
        s.delay is AfterSync,
        s.delay->delay_id == resp.header.sequence_id,
    ensures
        ({
            let next = s.delay_resp(resp);
            let received = s.handshake->AfterFollowUp_received;
            let t4 = (resp.receive_timestamp.seconds * 1_000_000_000 + resp.receive_timestamp.nanos)
                * 4_294_967_296 - resp.header.correction_field.scaled_nanos * 65_536;
            let both = (received - s.handshake->sent) + (t4 - s.delay->sent);
            &&& s.delay_resp_result() == Ok::<(), SlaveError>(())
            &&& next.delay is AfterDelayResp
            &&& both >= 0 ==> 0 <= both - 2 * next.delay->mean_delay <= 1
            &&& both <= 0 ==> -1 <= both - 2 * next.delay->mean_delay <= 0
            &&& next.next_delay_measurement == Some(
                received + log_interval_units(resp.header.log_message_interval as int)
                    - 429_496_730,
            )
            &&& next.handshake == s.handshake
            &&& next.remote_master == s.remote_master
            &&& next.next_delay_id == s.next_delay_id
            &&& next.pending_followup == s.pending_followup
            &&& next.outstanding == s.outstanding
            &&& resp.header.source_port_identity == s.remote_master ==> {
                let message = Message::DelayResp(resp);
                &&& s.message_received(message, now, port_identity) == next
                &&& s.message_action(message, now, port_identity) == SlaveAction::Done(Ok(()))
            }
        }),
{
}

/// A delay response for another request is passed over; one that comes when none is
/// awaited is out of sequence. Neither changes anything.
pub proof fn law_other_delay_resp(s: SlaveView, resp: DelayRespMessage)
    requires
        s.handshake !is AfterFollowUp || s.delay !is AfterSync || s.delay->delay_id
            != resp.header.sequence_id,
    ensures
        s.delay_resp(resp) == s,
        s.handshake is AfterFollowUp && s.delay is AfterSync ==> s.delay_resp_result() == Ok::<
            (),
            SlaveError,
        >(()),
        !(s.handshake is AfterFollowUp && s.delay is AfterSync) ==> s.delay_resp_result() == Err::<
            (),
            SlaveError,
        >(SlaveError::OutOfSequence),
{
}

/// There is a measurement exactly when both handshakes are complete. It says by how
/// much the way from the master seemed to take longer than the mean delay, at the
/// time the sync was received. Taking it out resets that handshake and nothing else.
pub proof fn law_measurement(s: SlaveView)
    ensures
        s.handshake is AfterFollowUp && s.delay is AfterDelayResp ==> {
            let received = s.handshake->AfterFollowUp_received;
            let next = s.measurement_taken();
            &&& s.measurement() is Some
            &&& s.measurement()->0.master_offset + s.delay->mean_delay + s.handshake->sent
                == received
            &&& s.measurement()->0.event_time == received
            &&& next.handshake is Initial
            &&& next.delay == s.delay
            &&& next.remote_master == s.remote_master
            &&& next.next_delay_id == s.next_delay_id
            &&& next.next_delay_measurement == s.next_delay_measurement
            &&& next.pending_followup == s.pending_followup
            &&& next.outstanding == s.outstanding
        },
        s.handshake !is AfterFollowUp || s.delay !is AfterDelayResp ==> {
            &&& s.measurement() is None
            &&& s.measurement_taken() == s
        },
{
}

/// The messages of a two-step exchange, handed over one after another, with the
/// request reported sent in between, end in a measurement. With t1 to t4 the times
/// at which the master sent, the slave received, the slave sent and the master
/// received, the offset is what t2 - t1 exceeds half of (t2 - t1) + (t4 - t3) by.
pub proof fn law_two_step_exchange_of_messages(
    s: SlaveView,
    sync: SyncMessage,
    follow_up: FollowUpMessage,
    resp: DelayRespMessage,
    port_identity: PortIdentity,
    t2: int,
    t3: int,
    follow_up_time: int,
    resp_time: int,
)
    requires
        s.handshake is Initial,
        s.outstanding is None,
        s.delay !is AfterDelayResp || (s.next_delay_measurement is Some && t2
            > s.next_delay_measurement->0),
        s.pending_followup is Some ==> s.pending_followup->0.header.sequence_id
            != sync.header.sequence_id,
        sync.header.source_port_identity == s.remote_master,
        follow_up.header.source_port_identity == s.remote_master,
        resp.header.source_port_identity == s.remote_master,
        sync.header.two_step_flag,
        follow_up.header.sequence_id == sync.header.sequence_id,
        resp.header.sequence_id == s.next_delay_id,
    ensures
        ({
            let s1 = s.message_received(Message::Sync(sync), t2, port_identity);
            let s2 = s1.delay_requested(t3);
            let s3 = s2.message_received(
                Message::FollowUp(follow_up),
                follow_up_time,
                port_identity,
            );
            let s4 = s3.message_received(Message::DelayResp(resp), resp_time, port_identity);
            let t1 = (follow_up.precise_origin_timestamp.seconds * 1_000_000_000
                + follow_up.precise_origin_timestamp.nanos) * 4_294_967_296
                + follow_up.header.correction_field.scaled_nanos * 65_536
                + sync.header.correction_field.scaled_nanos * 65_536;
            let t4 = (resp.receive_timestamp.seconds * 1_000_000_000 + resp.receive_timestamp.nanos)
                * 4_294_967_296 - resp.header.correction_field.scaled_nanos * 65_536;
            let both = (t2 - t1) + (t4 - t3);
            &&& s.message_action(Message::Sync(sync), t2, port_identity) is SendDelayReq
            &&& s2.message_action(Message::FollowUp(follow_up), follow_up_time, port_identity)
                == SlaveAction::Done(Ok(()))
            &&& s3.message_action(Message::DelayResp(resp), resp_time, port_identity)
                == SlaveAction::Done(Ok(()))
            &&& s1.measurement() is None
            &&& s2.measurement() is None
            &&& s3.measurement() is None
            &&& s4.measurement() is Some
            &&& s4.measurement()->0.event_time == t2
            &&& ({
                let delay = (t2 - t1) - s4.measurement()->0.master_offset;
                &&& both >= 0 ==> 0 <= both - 2 * delay <= 1
                &&& both <= 0 ==> -1 <= both - 2 * delay <= 0
            })
            &&& s4.measurement_taken().measurement() is None
        }),
{
}

/// The messages of a one-step exchange end in a measurement as those of a two-step
/// one do, with t1 taken from the sync itself.
pub proof fn law_one_step_exchange_of_messages(
    s: SlaveView,
    sync: SyncMessage,
    resp: DelayRespMessage,
    port_identity: PortIdentity,
    t2: int,
    t3: int,
    resp_time: int,
)
    requires
        s.handshake is Initial,
        s.outstanding is None,
        s.delay !is AfterDelayResp || (s.next_delay_measurement is Some && t2
            > s.next_delay_measurement->0),
        sync.header.source_port_identity == s.remote_master,
        resp.header.source_port_identity == s.remote_master,
        !sync.header.two_step_flag,
        resp.header.sequence_id == s.next_delay_id,
    ensures
        ({
            let s1 = s.message_received(Message::Sync(sync), t2, port_identity);
            let s2 = s1.delay_requested(t3);
            let s3 = s2.message_received(Message::DelayResp(resp), resp_time, port_identity);
            let t1 = (sync.origin_timestamp.seconds * 1_000_000_000 + sync.origin_timestamp.nanos)
                * 4_294_967_296 + sync.header.correction_field.scaled_nanos * 65_536;
            let t4 = (resp.receive_timestamp.seconds * 1_000_000_000 + resp.receive_timestamp.nanos)
                * 4_294_967_296 - resp.header.correction_field.scaled_nanos * 65_536;
            let both = (t2 - t1) + (t4 - t3);
            &&& s.message_action(Message::Sync(sync), t2, port_identity) is SendDelayReq
            &&& s2.message_action(Message::DelayResp(resp), resp_time, port_identity)
                == SlaveAction::Done(Ok(()))
            &&& s2.measurement() is None
            &&& s3.measurement() is Some
            &&& s3.measurement()->0.event_time == t2
            &&& ({
                let delay = (t2 - t1) - s3.measurement()->0.master_offset;
                &&& both >= 0 ==> 0 <= both - 2 * delay <= 1
                &&& both <= 0 ==> -1 <= both - 2 * delay <= 0
            })
            &&& s3.measurement_taken().measurement() is None
        }),
{
}

/// The abstract values of handshakes and measurements hold the times of the concrete
/// ones, unit for unit.
pub proof fn law_slave_views(id: u16, a: Instant, b: Instant, d: Duration)
    ensures
        Handshake::Initial@ is Initial,
        (Handshake::AfterSync { sync_id: id, sync_recv_time: a, sync_correction: d })@ == (
        HandshakeView::AfterSync {
            sync_id: id,
            received: a.units as int,
            correction: d.units as int,
        }),
        (Handshake::AfterFollowUp { sync_recv_time: a, sync_send_time: b })@ == (
        HandshakeView::AfterFollowUp { received: a.units as int, sent: b.units as int }),
        DelayHandshake::Initial@ is Initial,
        (DelayHandshake::AfterSync { delay_id: id, delay_send_time: a })@ == (
        DelayHandshakeView::AfterSync { delay_id: id, sent: a.units as int }),
        (DelayHandshake::AfterDelayResp { mean_delay: d })@ == (
        DelayHandshakeView::AfterDelayResp { mean_delay: d.units as int }),
        (Measurement { master_offset: d, event_time: a })@.master_offset == d.units,
        (Measurement { master_offset: d, event_time: a })@.event_time == a.units,
{
}

} // verus!
