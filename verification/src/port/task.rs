//! The task of a port.
//!
//! The task waits for a port to arrive from the selection of the best master,
//! runs it, and when the next selection is announced, hands the port back.

use crate::clock::timer::TimerName;
use crate::time::Time;
use vstd::prelude::*;

verus! {

/// What the task of a port is waiting for.
#[derive(Clone, Copy, PartialEq, Eq, Structural, Debug)]
pub enum PortPhase {
    /// A port to run.
    AwaitPort,
    /// The end of a list of actions.
    RunActions,
    /// A packet, a timer, or the next selection.
    AwaitEvent,
    /// The port to be taken over by the selection.
    ReturnPort,
}

/// What happens to the task of a port. `C` is what the port wants to be told with
/// a send time, `R` a receive time as sockets give it.
pub enum PortEvent<C, R> {
    /// A port has arrived from the selection.
    PortArrived,
    /// A list of actions has been carried out, and possibly left a send time.
    ActionsDone { pending_timestamp: Option<(C, Time)> },
    /// The event socket received a packet, of a protocol version that the port
    /// understands or another, and knows when or does not.
    EventPacket { bytes_read: usize, compatible: bool, timestamp: Option<R> },
    /// The general socket received a packet.
    GeneralPacket { bytes_read: usize },
    /// A timer has fired.
    TimerFired(TimerName),
    /// A selection is announced.
    BmcaNotified,
    /// The selection has taken the port over.
    PortReturned,
}

/// What the task of a port does next.
pub enum PortCommand<C, R> {
    /// Wait for a port.
    ReceivePort,
    /// Let the port resume its work, and carry out the actions it asks for.
    EndBmca,
    /// Tell the port a send time, and carry out the actions it asks for.
    HandleSendTimestamp { context: C, timestamp: Time },
    /// Wait for a packet, a timer or a selection.
    Wait,
    /// Pass over a packet of the event socket, then wait. Complain if it had no
    /// receive time.
    IgnorePacket { missing_timestamp: bool },
    /// Give the port a packet of the event socket, and carry out the actions it
    /// asks for.
    HandleEventReceive { bytes_read: usize, received: R },
    /// Give the port a packet of the general socket, and carry out the actions it
    /// asks for.
    HandleGeneralReceive { bytes_read: usize },
    /// Tell the port that it is time to announce, with what other ports want it to
    /// forward, and carry out the actions it asks for.
    HandleAnnounceTimer,
    /// Tell the port that it is time to sync, and carry out the actions it asks
    /// for.
    HandleSyncTimer,
    /// Tell the port that announcements have stayed away, and carry out the
    /// actions it asks for.
    HandleAnnounceReceiptTimer,
    /// Tell the port that it is time to measure the delay, and carry out the
    /// actions it asks for.
    HandleDelayRequestTimer,
    /// Tell the port that its filter wants to update, and carry out the actions
    /// it asks for.
    HandleFilterUpdateTimer,
    /// Prepare the port for the selection, and hand it over.
    StartBmca,
}

/// The task of a port between two events.
#[derive(Debug)]
pub struct PortTask {
    phase: PortPhase,
}

impl View for PortTask {
    type V = PortPhase;

    closed spec fn view(&self) -> PortPhase {
        self.phase
    }
}

impl PortPhase {
    /// Whether an event can happen now.
    pub open spec fn accepts<C, R>(self, event: PortEvent<C, R>) -> bool {
        match event {
            PortEvent::PortArrived => self is AwaitPort,
            PortEvent::ActionsDone { .. } => self is RunActions,
            PortEvent::PortReturned => self is ReturnPort,
            _ => self is AwaitEvent,
        }
    }

    /// Whether the task has the port.
    pub open spec fn holds_port(self) -> bool {
        self !is AwaitPort
    }
}

/// What the task does about an event.
pub open spec fn command<C, R>(event: PortEvent<C, R>) -> PortCommand<C, R> {
    match event {
        PortEvent::PortArrived => PortCommand::EndBmca,
        PortEvent::ActionsDone { pending_timestamp } => match pending_timestamp {
            Some((context, timestamp)) => PortCommand::HandleSendTimestamp { context, timestamp },
            None => PortCommand::Wait,
        },
        PortEvent::EventPacket { bytes_read, compatible, timestamp } => match timestamp {
            Some(timestamp) if compatible => PortCommand::HandleEventReceive {
                bytes_read,
                received: timestamp,
            },
            // Packets of other versions need no receive time.
            _ => PortCommand::IgnorePacket { missing_timestamp: compatible },
        },
        PortEvent::GeneralPacket { bytes_read } => PortCommand::HandleGeneralReceive {
            bytes_read,
        },
        PortEvent::TimerFired(timer) => match timer {
            TimerName::PortAnnounce => PortCommand::HandleAnnounceTimer,
            TimerName::PortSync => PortCommand::HandleSyncTimer,
            TimerName::PortAnnounceTimeout => PortCommand::HandleAnnounceReceiptTimer,
            TimerName::DelayRequest => PortCommand::HandleDelayRequestTimer,
            TimerName::FilterUpdate => PortCommand::HandleFilterUpdateTimer,
        },
        PortEvent::BmcaNotified => PortCommand::StartBmca,
        PortEvent::PortReturned => PortCommand::ReceivePort,
    }
}

/// What the task waits for while a command is carried out.
pub open spec fn phase_of<C, R>(command: PortCommand<C, R>) -> PortPhase {
    match command {
        PortCommand::ReceivePort => PortPhase::AwaitPort,
        PortCommand::Wait | PortCommand::IgnorePacket { .. } => PortPhase::AwaitEvent,
        PortCommand::StartBmca => PortPhase::ReturnPort,
        PortCommand::EndBmca
        | PortCommand::HandleSendTimestamp { .. }
        | PortCommand::HandleEventReceive { .. }
        | PortCommand::HandleGeneralReceive { .. }
        | PortCommand::HandleAnnounceTimer
        | PortCommand::HandleSyncTimer
        | PortCommand::HandleAnnounceReceiptTimer
        | PortCommand::HandleDelayRequestTimer
        | PortCommand::HandleFilterUpdateTimer => PortPhase::RunActions,
    }
}

impl PortTask {
    /// A task that has no port yet and waits for one.
    pub fn new() -> (task: PortTask)
        ensures
            task@ == PortPhase::AwaitPort,
    {
        PortTask { phase: PortPhase::AwaitPort }
    }

    /// What the task is waiting for.
    pub fn phase(&self) -> (phase: PortPhase)
        ensures
            phase == self@,
    {
        self.phase
    }

    /// Whether an event can happen now; see [`PortPhase::accepts`].
    pub fn accepts<C, R>(&self, event: &PortEvent<C, R>) -> (accepted: bool)
        ensures
            accepted == self@.accepts(*event),
    {
        match event {
            PortEvent::PortArrived => matches!(self.phase, PortPhase::AwaitPort),
            PortEvent::ActionsDone { .. } => matches!(self.phase, PortPhase::RunActions),
            PortEvent::PortReturned => matches!(self.phase, PortPhase::ReturnPort),
            _ => matches!(self.phase, PortPhase::AwaitEvent),
        }
    }

    /// Moves the task on by one event, and says what is to be done next.
    pub fn step<C, R>(&mut self, event: PortEvent<C, R>) -> (next: PortCommand<C, R>)
        requires
            old(self)@.accepts(event),
        ensures
            next == command(event),
            final(self)@ == phase_of(command(event)),
    {
        match event {
            PortEvent::PortArrived => {
                self.phase = PortPhase::RunActions;
                PortCommand::EndBmca
            },
            PortEvent::ActionsDone { pending_timestamp } => match pending_timestamp {
                Some((context, timestamp)) => {
                    self.phase = PortPhase::RunActions;
                    PortCommand::HandleSendTimestamp { context, timestamp }
                },
                None => {
                    self.phase = PortPhase::AwaitEvent;
                    PortCommand::Wait
                },
            },
            PortEvent::EventPacket { bytes_read, compatible, timestamp } => {
                if !compatible {
                    self.phase = PortPhase::AwaitEvent;
                    PortCommand::IgnorePacket { missing_timestamp: false }
                } else {
                    match timestamp {
                        Some(timestamp) => {
                            self.phase = PortPhase::RunActions;
                            PortCommand::HandleEventReceive { bytes_read, received: timestamp }
                        },
                        None => {
                            self.phase = PortPhase::AwaitEvent;
                            PortCommand::IgnorePacket { missing_timestamp: true }
                        },
                    }
                }
            },
            PortEvent::GeneralPacket { bytes_read } => {
                self.phase = PortPhase::RunActions;
                PortCommand::HandleGeneralReceive { bytes_read }
            },
            PortEvent::TimerFired(timer) => {
                self.phase = PortPhase::RunActions;
                match timer {
                    TimerName::PortAnnounce => PortCommand::HandleAnnounceTimer,
                    TimerName::PortSync => PortCommand::HandleSyncTimer,
                    TimerName::PortAnnounceTimeout => PortCommand::HandleAnnounceReceiptTimer,
                    TimerName::DelayRequest => PortCommand::HandleDelayRequestTimer,
                    TimerName::FilterUpdate => PortCommand::HandleFilterUpdateTimer,
                }
            },
            PortEvent::BmcaNotified => {
                self.phase = PortPhase::ReturnPort;
                PortCommand::StartBmca
            },
            PortEvent::PortReturned => {
                self.phase = PortPhase::AwaitPort;
                PortCommand::ReceivePort
            },
        }
    }
}

/// What the task waits for after a number of events.
pub open spec fn phase_after<C, R>(events: Seq<PortEvent<C, R>>) -> PortPhase
    decreases events.len(),
{
    if events.len() == 0 {
        PortPhase::AwaitPort
    } else {
        phase_of(command(events.last()))
    }
}

/// Whether events can happen to a new task in this order.
pub open spec fn possible<C, R>(events: Seq<PortEvent<C, R>>) -> bool
    decreases events.len(),
{
    events.len() == 0 || {
        &&& possible(events.drop_last())
        &&& phase_after(events.drop_last()).accepts(events.last())
    }
}

/// How many ports have arrived.
pub open spec fn arrivals<C, R>(events: Seq<PortEvent<C, R>>) -> nat
    decreases events.len(),
{
    if events.len() == 0 {
        0
    } else {
        arrivals(events.drop_last()) + (if events.last() is PortArrived {
            1nat
        } else {
            0nat
        })
    }
}

/// How many ports were handed over.
pub open spec fn handovers<C, R>(events: Seq<PortEvent<C, R>>) -> nat
    decreases events.len(),
{
    if events.len() == 0 {
        0
    } else {
        handovers(events.drop_last()) + (if events.last() is PortReturned {
            1nat
        } else {
            0nat
        })
    }
}

/// Ports arrive and are handed back in turns: the task never takes a second port
/// while it has one, and never hands one over that it does not have.
pub proof fn law_ports_come_and_go_in_turns<C, R>(events: Seq<PortEvent<C, R>>)
    requires
        possible(events),
    ensures
        arrivals(events) == handovers(events) + (if phase_after(events).holds_port() {
            1nat
        } else {
            0nat
        }),
    decreases events.len(),
{
    if events.len() > 0 {
        law_ports_come_and_go_in_turns(events.drop_last());
        let before = phase_after(events.drop_last());
        match events.last() {
            PortEvent::ActionsDone { pending_timestamp } => {
                assert(before.holds_port());
            },
            _ => {},
        }
    }
}

/// A port is interrupted for a selection between events only: with all actions of
/// the last event carried out, and no send time left to tell.
pub proof fn law_selection_waits_for_actions<C, R>(events: Seq<PortEvent<C, R>>)
    requires
        possible(events),
        events.len() > 0,
        events.last() is BmcaNotified,
    ensures
        phase_after(events) == PortPhase::ReturnPort,
        events.len() >= 2,
        ({
            let previous = events[events.len() - 2];
            ||| previous matches PortEvent::ActionsDone { pending_timestamp }
                && pending_timestamp is None
            ||| previous matches PortEvent::EventPacket { compatible, timestamp, .. } && (
            !compatible || timestamp is None)
        }),
{
    let before = events.drop_last();
    assert(phase_after(before).accepts(events.last()));
    assert(before.last() == events[events.len() - 2]);
    assert(phase_of(command(before.last())) == PortPhase::AwaitEvent);
}

/// Every send time that actions leave is told to the port before anything else.
pub proof fn law_send_times_come_first<C, R>(phase: PortPhase, context: C, timestamp: Time)
    requires
        phase.accepts(
            PortEvent::<C, R>::ActionsDone { pending_timestamp: Some((context, timestamp)) },
        ),
    ensures
        command(PortEvent::<C, R>::ActionsDone { pending_timestamp: Some((context, timestamp)) })
            == (PortCommand::<C, R>::HandleSendTimestamp { context, timestamp }),
        phase_of(
            command(
                PortEvent::<C, R>::ActionsDone { pending_timestamp: Some((context, timestamp)) },
            ),
        ) == PortPhase::RunActions,
{
}

/// A packet of the event socket reaches the port exactly if its version is
/// understood and its receive time is known; that the time is missing is worth a
/// complaint only for versions that are understood.
pub proof fn law_event_packets<C, R>(bytes_read: usize, compatible: bool, timestamp: Option<R>)
    ensures
        ({
            let event = PortEvent::<C, R>::EventPacket { bytes_read, compatible, timestamp };
            let next = command(event);
            &&& (next is HandleEventReceive <==> compatible && timestamp is Some)
            &&& (next is IgnorePacket <==> !(compatible && timestamp is Some))
            &&& next matches PortCommand::IgnorePacket { missing_timestamp } ==> (
            missing_timestamp <==> compatible)
            &&& next matches PortCommand::HandleEventReceive { bytes_read: n, received: t } ==> n
                == bytes_read && timestamp == Some(t)
        }),
{
}

/// A packet of the general socket reaches the port in its full length, whatever that
/// is, and packets of different lengths are never taken for each other.
pub proof fn law_general_packets<C, R>(bytes_read: usize, other: usize)
    ensures
        ({
            let event = PortEvent::<C, R>::GeneralPacket { bytes_read };
            let next = command(event);
            &&& next is HandleGeneralReceive
            &&& next->HandleGeneralReceive_bytes_read == bytes_read
            &&& phase_of(next) == PortPhase::RunActions
            &&& bytes_read != other ==> command(event) != command(
                PortEvent::<C, R>::GeneralPacket { bytes_read: other },
            )
        }),
{
}

/// A packet of the event socket that can be used reaches the port in its full length
/// and with its own receive time; any other is passed over, and the task waits on.
pub proof fn law_event_packet_contents<C, R>(bytes_read: usize, received: R)
    ensures
        command(
            PortEvent::<C, R>::EventPacket {
                bytes_read,
                compatible: true,
                timestamp: Some(received),
            },
        ) == (PortCommand::<C, R>::HandleEventReceive { bytes_read, received }),
        command(
            PortEvent::<C, R>::EventPacket { bytes_read, compatible: true, timestamp: None },
        ) == (PortCommand::<C, R>::IgnorePacket { missing_timestamp: true }),
        command(
            PortEvent::<C, R>::EventPacket {
                bytes_read,
                compatible: false,
                timestamp: Some(received),
            },
        ) == (PortCommand::<C, R>::IgnorePacket { missing_timestamp: false }),
        command(
            PortEvent::<C, R>::EventPacket { bytes_read, compatible: false, timestamp: None },
        ) == (PortCommand::<C, R>::IgnorePacket { missing_timestamp: false }),
        phase_of(PortCommand::<C, R>::HandleEventReceive { bytes_read, received })
            == PortPhase::RunActions,
        phase_of(PortCommand::<C, R>::IgnorePacket { missing_timestamp: true })
            == PortPhase::AwaitEvent,
        phase_of(PortCommand::<C, R>::IgnorePacket { missing_timestamp: false })
            == PortPhase::AwaitEvent,
{
}

/// Each timer has the port do what the timer is for, and run its actions.
pub proof fn law_fired_timers<C, R>(timer: TimerName)
    ensures
        ({
            let next = command(PortEvent::<C, R>::TimerFired(timer));
            &&& (next is HandleAnnounceTimer <==> timer is PortAnnounce)
            &&& (next is HandleSyncTimer <==> timer is PortSync)
            &&& (next is HandleAnnounceReceiptTimer <==> timer is PortAnnounceTimeout)
            &&& (next is HandleDelayRequestTimer <==> timer is DelayRequest)
            &&& (next is HandleFilterUpdateTimer <==> timer is FilterUpdate)
            &&& phase_of(next) == PortPhase::RunActions
        }),
{
}

/// A port that arrives resumes its work. Once its actions are done and no send time is
/// left to tell, the task waits. A selection has the port handed over, and once that is
/// done the task waits for it to come back.
pub proof fn law_round_of_a_port<C, R>(context: C, timestamp: Time)
    ensures
        command(PortEvent::<C, R>::PortArrived) is EndBmca,
        phase_of(PortCommand::<C, R>::EndBmca) == PortPhase::RunActions,
        command(PortEvent::<C, R>::ActionsDone { pending_timestamp: None }) is Wait,
        phase_of(PortCommand::<C, R>::Wait) == PortPhase::AwaitEvent,
        command(PortEvent::<C, R>::ActionsDone { pending_timestamp: Some((context, timestamp)) })
            == (PortCommand::<C, R>::HandleSendTimestamp { context, timestamp }),
        phase_of(PortCommand::<C, R>::HandleSendTimestamp { context, timestamp })
            == PortPhase::RunActions,
        command(PortEvent::<C, R>::BmcaNotified) is StartBmca,
        phase_of(PortCommand::<C, R>::StartBmca) == PortPhase::ReturnPort,
        command(PortEvent::<C, R>::PortReturned) is ReceivePort,
        phase_of(PortCommand::<C, R>::ReceivePort) == PortPhase::AwaitPort,
{
}

/// Every event can happen in one phase alone.
pub proof fn law_events_by_phase<C, R>(phase: PortPhase, event: PortEvent<C, R>)
    ensures
        event is PortArrived ==> (phase.accepts(event) <==> phase == PortPhase::AwaitPort),
        event is ActionsDone ==> (phase.accepts(event) <==> phase == PortPhase::RunActions),
        event is PortReturned ==> (phase.accepts(event) <==> phase == PortPhase::ReturnPort),
        event is EventPacket ==> (phase.accepts(event) <==> phase == PortPhase::AwaitEvent),
        event is GeneralPacket ==> (phase.accepts(event) <==> phase == PortPhase::AwaitEvent),
        event is TimerFired ==> (phase.accepts(event) <==> phase == PortPhase::AwaitEvent),
        event is BmcaNotified ==> (phase.accepts(event) <==> phase == PortPhase::AwaitEvent),
{
}

} // verus!
