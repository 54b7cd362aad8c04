//! Laws of the slave state.

use crate::messages::{
    interval_units, timestamp_units, DelayRespMessage, FollowUpMessage, Message, PortIdentity,
    SyncMessage,
};
use crate::port::sequence_id::next_id;
use crate::port::slave::{
    delay_received, sync_sent, DelayHandshakeView, HandshakeView, MeasurementView, SlaveAction,
    SlaveError, SlaveView,
};
use crate::time::{half, log_interval_units, TENTH_NANO};
use vstd::prelude::*;

verus! {

impl SlaveView {
    /// The state after a sync that the port `port_identity` received at `now` has
    /// been processed in full, with the delay request, where one is due, leaving at
    /// `request_sent`.
    pub open spec fn sync_processed(
        self,
        message: SyncMessage,
        now: int,
        port_identity: PortIdentity,
        request_sent: int,
    ) -> SlaveView {
        let received = self.sync_received(message, now, port_identity);
        if self.delay_due(now) {
            received.delay_requested(request_sent)
        } else {
            received
        }
    }

    /// Whether a measured delay comes with the time of its next measurement.
    pub open spec fn scheduled(self) -> bool {
        self.delay is AfterDelayResp ==> self.next_delay_measurement is Some
    }

    /// Whether no follow-up of the given id is kept.
    pub open spec fn keeps_no_follow_up(self, sequence_id: u16) -> bool {
        self.pending_followup is Some ==> self.pending_followup->0.header.sequence_id
            != sequence_id
    }
}

/// Messages from anyone but the master change nothing and are no error.
pub proof fn law_only_the_master_counts(
    s: SlaveView,
    message: Message,
    now: int,
    port_identity: PortIdentity,
)
    requires
        message.spec_header().source_port_identity != s.remote_master,
    ensures
        s.message_received(message, now, port_identity) == s,
        s.message_action(message, now, port_identity) == SlaveAction::Done(Ok(())),
{
}

/// `UnexpectedMessage` is the answer to exactly those messages of the master that
/// are no sync, follow-up or delay response, and they change nothing.
pub proof fn law_unexpected_messages(
    s: SlaveView,
    message: Message,
    now: int,
    port_identity: PortIdentity,
)
    ensures
        (s.message_action(message, now, port_identity) == SlaveAction::Done(
            Err(SlaveError::UnexpectedMessage),
        )) <==> (message is Other && message.spec_header().source_port_identity
            == s.remote_master),
        s.message_action(message, now, port_identity) matches SlaveAction::SendDelayReq(request)
            ==> request.sync_result != Err::<(), SlaveError>(SlaveError::UnexpectedMessage),
        message is Other ==> s.message_received(message, now, port_identity) == s,
{
}

/// A slave never changes its master.
pub proof fn law_master_is_fixed(
    s: SlaveView,
    message: Message,
    now: int,
    port_identity: PortIdentity,
    sent: int,
)
    ensures
        s.message_received(message, now, port_identity).remote_master == s.remote_master,
        s.delay_requested(sent).remote_master == s.remote_master,
        s.delay_request_abandoned().remote_master == s.remote_master,
        s.measurement_taken().remote_master == s.remote_master,
{
}

/// Unless a request is given up half way, no follow-up is kept that the current
/// handshake waits for: this holds at the start, and everything that can happen
/// keeps it so.
pub proof fn law_settled(
    s: SlaveView,
    remote_master: PortIdentity,
    message: Message,
    now: int,
    port_identity: PortIdentity,
    sent: int,
)
    requires
        s.settled(),
    ensures
        SlaveView::fresh(remote_master).settled(),
        s.can_handle(message) ==> s.message_received(message, now, port_identity).settled(),
        s.outstanding is Some ==> s.delay_requested(sent).settled(),
        s.outstanding is None ==> s.measurement_taken().settled(),
{
}

/// After a request was given up, the slave is where the sync had brought it, and
/// processes messages again. The id of that request is used up.
pub proof fn law_abandoned_request(
    s: SlaveView,
    sync: SyncMessage,
    now: int,
    port_identity: PortIdentity,
    next: Message,
)
    requires
        s.outstanding is None,
        s.delay_due(now),
    ensures
        ({
            let after = s.sync_received(sync, now, port_identity).delay_request_abandoned();
            &&& after.handshake == s.handshake_after_sync(sync, now)
            &&& after.next_delay_id == next_id(s.next_delay_id)
            &&& after.delay == s.delay
            &&& after.pending_followup == s.pending_followup
            &&& next !is DelayResp ==> after.can_handle(next)
        }),
{
}

/// A delay request is outstanding exactly from the sync that calls for it to the
/// report of its send time, unless it is given up. While it is, no message can be
/// processed; and once it was sent, it is that request whose response is awaited.
pub proof fn law_outstanding_request(
    s: SlaveView,
    message: Message,
    now: int,
    port_identity: PortIdentity,
    sent: int,
)
    requires
        s.can_handle(message),
    ensures
        match s.message_action(message, now, port_identity) {
            SlaveAction::SendDelayReq(request) => {
                let waiting = s.message_received(message, now, port_identity);
                &&& waiting.outstanding == Some(request)
                &&& forall|other: Message| !#[trigger] waiting.can_handle(other)
                &&& waiting.delay_requested(sent).outstanding is None
                &&& waiting.delay_requested(sent).delay == (DelayHandshakeView::AfterSync {
                    delay_id: request.message.sequence_id,
                    sent,
                })
            },
            SlaveAction::Done(_) => s.message_received(
                message,
                now,
                port_identity,
            ).outstanding is None,
        },
{
}

/// Whenever the delay has been measured, it is known when to measure it again.
pub proof fn law_scheduled(
    s: SlaveView,
    remote_master: PortIdentity,
    message: Message,
    now: int,
    port_identity: PortIdentity,
    sent: int,
)
    requires
        s.scheduled(),
    ensures
        SlaveView::fresh(remote_master).scheduled(),
        s.message_received(message, now, port_identity).scheduled(),
        s.delay_requested(sent).scheduled(),
        s.delay_request_abandoned().scheduled(),
        s.measurement_taken().scheduled(),
{
}

/// A measurement can be taken out once: the handshake then starts over.
pub proof fn law_measurement_taken_once(s: SlaveView)
    ensures
        s.measurement_taken().measurement() is None,
        s.measurement() is Some ==> s.measurement_taken().handshake is Initial,
        s.measurement() is Some <==> (s.handshake is AfterFollowUp
            && s.delay is AfterDelayResp),
{
}

/// No sync serves two measurements: once a measurement was taken out, there is
/// none until the master sends another sync.
pub proof fn law_next_measurement_needs_a_sync(
    s: SlaveView,
    message: Message,
    now: int,
    port_identity: PortIdentity,
)
    requires
        s.handshake is Initial,
        message !is Sync,
    ensures
        s.measurement() is None,
        s.message_received(message, now, port_identity).handshake is Initial,
        s.message_received(message, now, port_identity).measurement() is None,
{
}

/// No measured delay serves two syncs: every sync does away with it.
pub proof fn law_sync_drops_the_delay(
    s: SlaveView,
    sync: SyncMessage,
    now: int,
    port_identity: PortIdentity,
    request_sent: int,
)
    ensures
        s.sync_processed(sync, now, port_identity, request_sent).delay !is AfterDelayResp,
        s.sync_processed(sync, now, port_identity, request_sent).measurement() is None,
{
}

/// It does not matter whether a follow-up arrives before or after its sync.
pub proof fn law_follow_up_order(
    s: SlaveView,
    sync: SyncMessage,
    follow_up: FollowUpMessage,
    now: int,
    port_identity: PortIdentity,
    request_sent: int,
)
    requires
        s.handshake is Initial,
        sync.header.two_step_flag,
        follow_up.header.sequence_id == sync.header.sequence_id,
        s.keeps_no_follow_up(sync.header.sequence_id),
    ensures
        s.follow_up(follow_up).sync_processed(sync, now, port_identity, request_sent)
            == s.sync_processed(sync, now, port_identity, request_sent).follow_up(follow_up),
        s.sync_processed(sync, now, port_identity, request_sent).follow_up(follow_up).handshake
            == (HandshakeView::AfterFollowUp {
            received: now,
            sent: sync_sent(follow_up, interval_units(sync.header.correction_field)),
        }),
{
}

/// A complete two-step exchange measures the offset: what the way to the slave
/// appears to take, less the mean of what both ways appear to take.
pub proof fn law_two_step_exchange(
    s: SlaveView,
    sync: SyncMessage,
    follow_up: FollowUpMessage,
    resp: DelayRespMessage,
    now: int,
    port_identity: PortIdentity,
    request_sent: int,
)
    requires
        s.handshake is Initial,
        s.delay_due(now),
        sync.header.two_step_flag,
        follow_up.header.sequence_id == sync.header.sequence_id,
        s.keeps_no_follow_up(sync.header.sequence_id),
        resp.header.sequence_id == s.next_delay_id,
    ensures
        ({
            let t1 = sync_sent(follow_up, interval_units(sync.header.correction_field));
            let t4 = delay_received(resp);
            let mean_delay = half((now - t1) + (t4 - request_sent));
            let end = s.sync_processed(sync, now, port_identity, request_sent).follow_up(
                follow_up,
            ).delay_resp(resp);
            &&& end.delay == (DelayHandshakeView::AfterDelayResp { mean_delay })
            &&& end.measurement() == Some(
                MeasurementView { master_offset: (now - t1) - mean_delay, event_time: now },
            )
        }),
{
}

/// A complete one-step exchange measures the offset as a two-step one does.
pub proof fn law_one_step_exchange(
    s: SlaveView,
    sync: SyncMessage,
    resp: DelayRespMessage,
    now: int,
    port_identity: PortIdentity,
    request_sent: int,
)
    requires
        s.handshake is Initial,
        s.delay_due(now),
        !sync.header.two_step_flag,
        resp.header.sequence_id == s.next_delay_id,
    ensures
        ({
            let t1 = timestamp_units(sync.origin_timestamp) + interval_units(
                sync.header.correction_field,
            );
            let t4 = delay_received(resp);
            let mean_delay = half((now - t1) + (t4 - request_sent));
            let end = s.sync_processed(sync, now, port_identity, request_sent).delay_resp(resp);
            &&& end.delay == (DelayHandshakeView::AfterDelayResp { mean_delay })
            &&& end.measurement() == Some(
                MeasurementView { master_offset: (now - t1) - mean_delay, event_time: now },
            )
        }),
{
}

/// Over a path with the same delay both ways, a two-step exchange finds the true
/// offset of the local clock and the true delay, whatever they are.
pub proof fn law_symmetric_path_two_step(
    s: SlaveView,
    sync: SyncMessage,
    follow_up: FollowUpMessage,
    resp: DelayRespMessage,
    now: int,
    port_identity: PortIdentity,
    request_sent: int,
    offset: int,
    delay: int,
)
    requires
        s.handshake is Initial,
        s.delay_due(now),
        sync.header.two_step_flag,
        follow_up.header.sequence_id == sync.header.sequence_id,
        s.keeps_no_follow_up(sync.header.sequence_id),
        resp.header.sequence_id == s.next_delay_id,
        now == sync_sent(follow_up, interval_units(sync.header.correction_field)) + delay + offset,
        delay_received(resp) == request_sent - offset + delay,
    ensures
        ({
            let end = s.sync_processed(sync, now, port_identity, request_sent).follow_up(
                follow_up,
            ).delay_resp(resp);
            &&& end.measurement() == Some(
                MeasurementView { master_offset: offset, event_time: now },
            )
            &&& end.delay == (DelayHandshakeView::AfterDelayResp { mean_delay: delay })
        }),
{
    law_two_step_exchange(s, sync, follow_up, resp, now, port_identity, request_sent);
    assert(half(2 * delay) == delay);
}

/// Over a path with the same delay both ways, a one-step exchange finds the true
/// offset of the local clock and the true delay, whatever they are.
pub proof fn law_symmetric_path_one_step(
    s: SlaveView,
    sync: SyncMessage,
    resp: DelayRespMessage,
    now: int,
    port_identity: PortIdentity,
    request_sent: int,
    offset: int,
    delay: int,
)
    requires
        s.handshake is Initial,
        s.delay_due(now),
        !sync.header.two_step_flag,
        resp.header.sequence_id == s.next_delay_id,
        now == timestamp_units(sync.origin_timestamp) + interval_units(
            sync.header.correction_field,
        ) + delay + offset,
        delay_received(resp) == request_sent - offset + delay,
    ensures
        ({
            let end = s.sync_processed(sync, now, port_identity, request_sent).delay_resp(resp);
            &&& end.measurement() == Some(
                MeasurementView { master_offset: offset, event_time: now },
            )
            &&& end.delay == (DelayHandshakeView::AfterDelayResp { mean_delay: delay })
        }),
{
    law_one_step_exchange(s, sync, resp, now, port_identity, request_sent);
    assert(half(2 * delay) == delay);
}

/// Over any path, the measured offset is off by half of what the way to the slave
/// takes longer than the way back, but for the half unit that halving may lose.
pub proof fn law_asymmetric_path(
    s: SlaveView,
    sync: SyncMessage,
    follow_up: FollowUpMessage,
    resp: DelayRespMessage,
    now: int,
    port_identity: PortIdentity,
    request_sent: int,
    offset: int,
    delay_there: int,
    delay_back: int,
)
    requires
        s.handshake is Initial,
        s.delay_due(now),
        sync.header.two_step_flag,
        follow_up.header.sequence_id == sync.header.sequence_id,
        s.keeps_no_follow_up(sync.header.sequence_id),
        resp.header.sequence_id == s.next_delay_id,
        now == sync_sent(follow_up, interval_units(sync.header.correction_field)) + delay_there
            + offset,
        delay_received(resp) == request_sent - offset + delay_back,
    ensures
        ({
            let measured = s.sync_processed(sync, now, port_identity, request_sent).follow_up(
                follow_up,
            ).delay_resp(resp).measurement();
            &&& measured is Some
            &&& -1 <= 2 * (measured->0.master_offset - offset) - (delay_there - delay_back) <= 1
        }),
{
    law_two_step_exchange(s, sync, follow_up, resp, now, port_identity, request_sent);
}

/// A sync in the middle of a handshake is out of sequence and leaves that
/// handshake alone.
pub proof fn law_sync_out_of_sequence(
    s: SlaveView,
    sync: SyncMessage,
    now: int,
    port_identity: PortIdentity,
    request_sent: int,
)
    requires
        s.settled(),
        s.outstanding is None,
        s.handshake !is Initial,
    ensures
        s.sync_result() == Err::<(), SlaveError>(SlaveError::OutOfSequence),
        s.sync_processed(sync, now, port_identity, request_sent).handshake == s.handshake,
        s.sync_processed(sync, now, port_identity, request_sent).pending_followup
            == s.pending_followup,
{
}

/// A delay response before the other handshake is complete, or when no request is
/// under way, is out of sequence and changes nothing.
pub proof fn law_delay_resp_out_of_sequence(s: SlaveView, resp: DelayRespMessage)
    requires
        s.handshake !is AfterFollowUp || s.delay !is AfterSync,
    ensures
        s.delay_resp_result() == Err::<(), SlaveError>(SlaveError::OutOfSequence),
        s.delay_resp(resp) == s,
{
}

/// A response to another request than the current one is passed over.
pub proof fn law_foreign_delay_resp_ignored(s: SlaveView, resp: DelayRespMessage)
    requires
        s.delay_resp_in_sequence(),
        resp.header.sequence_id != s.delay->delay_id,
    ensures
        s.delay_resp_result() == Ok::<(), SlaveError>(()),
        s.delay_resp(resp) == s,
{
}

/// Of the responses to a request only the first counts.
pub proof fn law_delay_resp_counts_once(
    s: SlaveView,
    first: DelayRespMessage,
    second: DelayRespMessage,
)
    requires
        s.awaits_delay_resp(first),
    ensures
        s.delay_resp(first).delay is AfterDelayResp,
        s.delay_resp(first).delay_resp_result() == Err::<(), SlaveError>(
            SlaveError::OutOfSequence,
        ),
        s.delay_resp(first).delay_resp(second) == s.delay_resp(first),
{
}

/// After a measured delay, a sync sends a request if and only if it comes later
/// than the announced interval, less a tenth of a nanosecond, after the sync of the
/// measurement. So one that comes an interval after it, or later, sends one.
pub proof fn law_delay_measurement_interval(s: SlaveView, resp: DelayRespMessage, now: int)
    requires
        s.awaits_delay_resp(resp),
    ensures
        ({
            let due = s.handshake->AfterFollowUp_received + log_interval_units(
                resp.header.log_message_interval as int,
            );
            let after = s.delay_resp(resp).measurement_taken();
            &&& after.delay_due(now) <==> now > due - TENTH_NANO
            &&& now >= due ==> after.delay_due(now)
        }),
{
}

/// A sync that finds a measured delay still current sends no request, and drops
/// that delay.
pub proof fn law_sync_with_current_delay(
    s: SlaveView,
    sync: SyncMessage,
    now: int,
    port_identity: PortIdentity,
)
    requires
        !s.delay_due(now),
    ensures
        s.sync_action(now, port_identity) == SlaveAction::Done(s.sync_result()),
        s.sync_received(sync, now, port_identity).delay is Initial,
        s.sync_received(sync, now, port_identity).next_delay_id == s.next_delay_id,
{
}

/// Each delay request carries the id after that of the request before it, and
/// nothing but sending a request uses up an id.
pub proof fn law_delay_request_ids(
    s: SlaveView,
    message: Message,
    now: int,
    port_identity: PortIdentity,
    sent: int,
)
    ensures
        match s.message_action(message, now, port_identity) {
            SlaveAction::SendDelayReq(request) => {
                &&& request.message.sequence_id == s.next_delay_id
                &&& s.message_received(message, now, port_identity).next_delay_id == next_id(
                    s.next_delay_id,
                )
            },
            SlaveAction::Done(_) => s.message_received(message, now, port_identity).next_delay_id
                == s.next_delay_id,
        },
        s.delay_requested(sent).next_delay_id == s.next_delay_id,
        s.delay_request_abandoned().next_delay_id == s.next_delay_id,
        s.measurement_taken().next_delay_id == s.next_delay_id,
{
}

} // verus!
