//! Carrying out what a port asks for.
//!
//! A port answers every event with a list of actions. Each is turned into one
//! effect on the outside world; the send time of the last timed packet comes back
//! to the port.

use crate::clock::timer::{TimerName, TimerView, Timers};
use crate::time::Time;
use std::collections::VecDeque;
use vstd::prelude::*;

verus! {

/// What a port asks for. `C` is what the port wants to be told with a send time,
/// `T` what it wants to be forwarded to other ports. Durations are in
/// nanoseconds.
pub enum PortAction<C, T> {
    /// Send a packet, and tell the port when it left.
    SendEvent { context: C, data: Vec<u8>, link_local: bool },
    /// Send a packet.
    SendGeneral { data: Vec<u8>, link_local: bool },
    ResetAnnounceTimer { duration: u128 },
    ResetSyncTimer { duration: u128 },
    ResetDelayRequestTimer { duration: u128 },
    ResetAnnounceReceiptTimer { duration: u128 },
    ResetFilterUpdateTimer { duration: u128 },
    ForwardTLV { tlv: T },
}

/// The multicast groups that packets go to.
#[derive(Clone, Copy, PartialEq, Eq, Structural, Debug)]
pub enum Target {
    PrimaryEvent,
    PdelayEvent,
    PrimaryGeneral,
    PdelayGeneral,
}

/// What carrying out an action comes to.
pub enum Effect<T> {
    /// Send from the event socket, and report the send time.
    SendEvent { data: Vec<u8>, target: Target },
    /// Send from the general socket.
    SendGeneral { data: Vec<u8>, target: Target },
    /// Nothing but a timer was set.
    TimerSet { timer: TimerName },
    /// Hand on to the other ports.
    Forward { tlv: T },
}

impl<C, T> PortAction<C, T> {
    /// The timer that an action sets and the time it sets it to.
    pub open spec fn sets_timer(self) -> Option<(TimerName, u128)> {
        match self {
            PortAction::ResetAnnounceTimer { duration } => Some(
                (TimerName::PortAnnounce, duration),
            ),
            PortAction::ResetSyncTimer { duration } => Some((TimerName::PortSync, duration)),
            PortAction::ResetDelayRequestTimer { duration } => Some(
                (TimerName::DelayRequest, duration),
            ),
            PortAction::ResetAnnounceReceiptTimer { duration } => Some(
                (TimerName::PortAnnounceTimeout, duration),
            ),
            PortAction::ResetFilterUpdateTimer { duration } => Some(
                (TimerName::FilterUpdate, duration),
            ),
            _ => None,
        }
    }

    /// The context that the port wants back with the send time of the packet that
    /// the action sends.
    pub open spec fn event_context(self) -> Option<C> {
        match self {
            PortAction::SendEvent { context, .. } => Some(context),
            _ => None,
        }
    }

    /// Whether the action sets the named timer.
    pub open spec fn sets(self, name: TimerName) -> bool {
        self.sets_timer() matches Some((set, _)) && set == name
    }

    /// Whether the time that the action sets a timer to is representable.
    pub open spec fn in_time(self, now: u128) -> bool {
        self.sets_timer() matches Some((_, duration)) ==> now + duration <= u128::MAX
    }

    /// The executable form of [`PortAction::in_time`].
    pub fn check_in_time(&self, now: u128) -> (able: bool)
        ensures
            able == self.in_time(now),
    {
        match self {
            PortAction::ResetAnnounceTimer { duration }
            | PortAction::ResetSyncTimer { duration }
            | PortAction::ResetDelayRequestTimer { duration }
            | PortAction::ResetAnnounceReceiptTimer { duration }
            | PortAction::ResetFilterUpdateTimer { duration } => *duration <= u128::MAX - now,
            PortAction::SendEvent { .. }
            | PortAction::SendGeneral { .. }
            | PortAction::ForwardTLV { .. } => true,
        }
    }

    /// What carrying out the action comes to.
    pub open spec fn effect(self) -> Effect<T> {
        match self {
            PortAction::SendEvent { data, link_local, .. } => Effect::SendEvent {
                data,
                target: if link_local {
                    Target::PdelayEvent
                } else {
                    Target::PrimaryEvent
                },
            },
            PortAction::SendGeneral { data, link_local } => Effect::SendGeneral {
                data,
                target: if link_local {
                    Target::PdelayGeneral
                } else {
                    Target::PrimaryGeneral
                },
            },
            PortAction::ResetAnnounceTimer { .. } => Effect::TimerSet {
                timer: TimerName::PortAnnounce,
            },
            PortAction::ResetSyncTimer { .. } => Effect::TimerSet { timer: TimerName::PortSync },
            PortAction::ResetDelayRequestTimer { .. } => Effect::TimerSet {
                timer: TimerName::DelayRequest,
            },
            PortAction::ResetAnnounceReceiptTimer { .. } => Effect::TimerSet {
                timer: TimerName::PortAnnounceTimeout,
            },
            PortAction::ResetFilterUpdateTimer { .. } => Effect::TimerSet {
                timer: TimerName::FilterUpdate,
            },
            PortAction::ForwardTLV { tlv } => Effect::Forward { tlv },
        }
    }
}

/// Whether carrying out an action turned the timers `before` into `after`: the
/// timer that it sets was set at `now`, and all others are as they were.
pub open spec fn timers_set<C, T>(
    action: PortAction<C, T>,
    now: u128,
    before: Timers,
    after: Timers,
) -> bool {
    match action.sets_timer() {
        Some((name, duration)) => {
            &&& after.timer(name)@ == before.timer(name)@.reset(now, duration)
            &&& before.same_but(after, name)
        },
        None => after == before,
    }
}

/// Carries out an action as far as timers go, and says what else has to be done,
/// and with which context the port wants to know a send time.
fn handle_action<C, T>(action: PortAction<C, T>, timers: &mut Timers, now: u128) -> (outcome: (
    Effect<T>,
    Option<C>,
))
    requires
        action.in_time(now),
    ensures
        outcome.0 == action.effect(),
        outcome.1 == action.event_context(),
        timers_set(action, now, *old(timers), *final(timers)),
{
    match action {
        PortAction::SendEvent { context, data, link_local } => {
            let target = if link_local {
                Target::PdelayEvent
            } else {
                Target::PrimaryEvent
            };
            (Effect::SendEvent { data, target }, Some(context))
        },
        PortAction::SendGeneral { data, link_local } => {
            let target = if link_local {
                Target::PdelayGeneral
            } else {
                Target::PrimaryGeneral
            };
            (Effect::SendGeneral { data, target }, None)
        },
        PortAction::ResetAnnounceTimer { duration } => {
            timers.reset(TimerName::PortAnnounce, now, duration);
            (Effect::TimerSet { timer: TimerName::PortAnnounce }, None)
        },
        PortAction::ResetSyncTimer { duration } => {
            timers.reset(TimerName::PortSync, now, duration);
            (Effect::TimerSet { timer: TimerName::PortSync }, None)
        },
        PortAction::ResetDelayRequestTimer { duration } => {
            timers.reset(TimerName::DelayRequest, now, duration);
            (Effect::TimerSet { timer: TimerName::DelayRequest }, None)
        },
        PortAction::ResetAnnounceReceiptTimer { duration } => {
            timers.reset(TimerName::PortAnnounceTimeout, now, duration);
            (Effect::TimerSet { timer: TimerName::PortAnnounceTimeout }, None)
        },
        PortAction::ResetFilterUpdateTimer { duration } => {
            timers.reset(TimerName::FilterUpdate, now, duration);
            (Effect::TimerSet { timer: TimerName::FilterUpdate }, None)
        },
        PortAction::ForwardTLV { tlv } => (Effect::Forward { tlv }, None),
    }
}

/// A list of actions of a port that is being carried out.
pub struct ActionRun<C, T> {
    actions: VecDeque<PortAction<C, T>>,
    awaiting: Option<C>,
    pending_timestamp: Option<(C, Time)>,
}

/// The abstract value of an [`ActionRun`].
pub struct ActionRunView<C, T> {
    /// The actions that are yet to be carried out, in order.
    pub remaining: Seq<PortAction<C, T>>,
    /// The context of the packet that is being sent. Until its send time is
    /// reported, no other action is carried out.
    pub awaiting: Option<C>,
    /// The send time that the port has to be told once the list is done.
    pub pending_timestamp: Option<(C, Time)>,
}

impl<C, T> View for ActionRun<C, T> {
    type V = ActionRunView<C, T>;

    closed spec fn view(&self) -> ActionRunView<C, T> {
        ActionRunView {
            remaining: self.actions@,
            awaiting: self.awaiting,
            pending_timestamp: self.pending_timestamp,
        }
    }
}

impl<C, T> ActionRunView<C, T> {
    /// A list of actions of which none has been carried out.
    pub open spec fn start(actions: Seq<PortAction<C, T>>) -> ActionRunView<C, T> {
        ActionRunView { remaining: actions, awaiting: None, pending_timestamp: None }
    }

    /// The run after its next action, if there is one.
    pub open spec fn next(self) -> ActionRunView<C, T> {
        if self.remaining.len() == 0 {
            self
        } else {
            ActionRunView {
                remaining: self.remaining.drop_first(),
                awaiting: self.remaining.first().event_context(),
                ..self
            }
        }
    }

    /// What the next action, if there is one, comes to.
    pub open spec fn effect(self) -> Option<Effect<T>> {
        if self.remaining.len() == 0 {
            None
        } else {
            Some(self.remaining.first().effect())
        }
    }

    /// The run after the packet that was being sent has left at `time`, where that
    /// is known.
    pub open spec fn event_sent(self, time: Option<Time>) -> ActionRunView<C, T> {
        ActionRunView {
            awaiting: None,
            pending_timestamp: noted(self.pending_timestamp, self.awaiting->0, time),
            ..self
        }
    }

    /// Whether the run can go on at `now`: no packet is being sent, and the next
    /// action, if there is one, sets a timer to a time that is representable.
    pub open spec fn can_go_on(self, now: u128) -> bool {
        &&& self.awaiting is None
        &&& self.remaining.len() > 0 ==> self.remaining.first().in_time(now)
    }
}

/// The send time to tell the port, after one more packet was sent and left at
/// `time`, where that is known. What is sent later has a later send time.
pub open spec fn noted<C>(pending: Option<(C, Time)>, context: C, time: Option<Time>) -> Option<
    (C, Time),
> {
    match time {
        Some(time) => Some((context, time)),
        None => pending,
    }
}

/// The send time that the port is told after packets were sent with these
/// contexts, in order, and left at these times, where known.
pub open spec fn noted_all<C>(sends: Seq<(C, Option<Time>)>) -> Option<(C, Time)>
    decreases sends.len(),
{
    if sends.len() == 0 {
        None
    } else {
        noted(noted_all(sends.drop_last()), sends.last().0, sends.last().1)
    }
}

/// Starts to carry out a list of actions.
pub fn handle_actions<C, T>(actions: VecDeque<PortAction<C, T>>) -> (run: ActionRun<C, T>)
    ensures
        run@ == ActionRunView::start(actions@),
{
    ActionRun { actions, awaiting: None, pending_timestamp: None }
}

impl<C, T> ActionRun<C, T> {
    /// Whether the run can go on at `now`; see [`ActionRunView::can_go_on`].
    pub fn can_go_on(&self, now: u128) -> (able: bool)
        ensures
            able == self@.can_go_on(now),
    {
        if self.awaiting.is_some() {
            false
        } else if self.actions.len() == 0 {
            true
        } else {
            self.actions[0].check_in_time(now)
        }
    }

    /// Carries out the next action as far as timers go, and says what else has
    /// to be done about it; nothing, if there are no more actions.
    pub fn next(&mut self, timers: &mut Timers, now: u128) -> (effect: Option<Effect<T>>)
        requires
            old(self)@.can_go_on(now),
        ensures
            final(self)@ == old(self)@.next(),
            effect == old(self)@.effect(),
            if old(self)@.remaining.len() == 0 {
                *final(timers) == *old(timers)
            } else {
                timers_set(old(self)@.remaining.first(), now, *old(timers), *final(timers))
            },
    {
        match self.actions.pop_front() {
            Some(action) => {
                let (effect, context) = handle_action(action, timers, now);
                self.awaiting = context;
                Some(effect)
            },
            None => None,
        }
    }

    /// Whether the send time of a packet is awaited.
    pub fn awaits_send_time(&self) -> (awaited: bool)
        ensures
            awaited == (self@.awaiting is Some),
    {
        self.awaiting.is_some()
    }

    /// Takes note that the packet of the last action was sent, and when it left,
    /// where that is known. Returns whether it is.
    pub fn event_sent(&mut self, time: Option<Time>) -> (known: bool)
        requires
            old(self)@.awaiting is Some,
        ensures
            known == (time is Some),
            final(self)@ == old(self)@.event_sent(time),
    {
        match (self.awaiting.take(), time) {
            (Some(context), Some(time)) => {
                self.pending_timestamp = Some((context, time));
                true
            },
            _ => false,
        }
    }

    /// Whether all actions are carried out, and no packet is being sent.
    pub fn finished(&self) -> (finished: bool)
        ensures
            finished == (self@.remaining.len() == 0 && self@.awaiting is None),
    {
        self.actions.len() == 0 && self.awaiting.is_none()
    }

    /// Ends the list, once all actions are carried out: the send time that the
    /// port has to be told, if any.
    pub fn finish(self) -> (pending: Option<(C, Time)>)
        requires
            self@.remaining.len() == 0,
            self@.awaiting is None,
        ensures
            pending == self@.pending_timestamp,
    {
        self.pending_timestamp
    }
}

/// Something that is done with a list of actions that is being carried out.
pub enum RunStep {
    /// The next action is carried out.
    Next,
    /// The packet that was being sent has left, at a time that may be known.
    Sent(Option<Time>),
}

/// How far a list of actions has come after a number of steps.
pub open spec fn run_after<C, T>(
    actions: Seq<PortAction<C, T>>,
    steps: Seq<RunStep>,
) -> ActionRunView<C, T>
    decreases steps.len(),
{
    if steps.len() == 0 {
        ActionRunView::start(actions)
    } else {
        let before = run_after(actions, steps.drop_last());
        match steps.last() {
            RunStep::Next => before.next(),
            RunStep::Sent(time) => before.event_sent(time),
        }
    }
}

/// Whether a list of actions can be carried out in these steps: a send time is
/// reported for each packet that is being sent, before anything else is done.
pub open spec fn possible<C, T>(actions: Seq<PortAction<C, T>>, steps: Seq<RunStep>) -> bool
    decreases steps.len(),
{
    steps.len() == 0 || {
        &&& possible(actions, steps.drop_last())
        &&& (steps.last() is Sent <==> run_after(actions, steps.drop_last()).awaiting is Some)
    }
}

/// The effects that a list of actions had in a number of steps, in order.
pub open spec fn effects_after<C, T>(
    actions: Seq<PortAction<C, T>>,
    steps: Seq<RunStep>,
) -> Seq<Effect<T>>
    decreases steps.len(),
{
    if steps.len() == 0 {
        Seq::empty()
    } else {
        let before = effects_after(actions, steps.drop_last());
        match (steps.last(), run_after(actions, steps.drop_last()).effect()) {
            (RunStep::Next, Some(effect)) => before.push(effect),
            _ => before,
        }
    }
}

/// The send times that were reported in a number of steps, in order.
pub open spec fn times_in(steps: Seq<RunStep>) -> Seq<Option<Time>>
    decreases steps.len(),
{
    if steps.len() == 0 {
        Seq::empty()
    } else {
        match steps.last() {
            RunStep::Next => times_in(steps.drop_last()),
            RunStep::Sent(time) => times_in(steps.drop_last()).push(time),
        }
    }
}

/// The contexts of the packets whose send time the port wants to know, in order.
pub open spec fn event_contexts<C, T>(actions: Seq<PortAction<C, T>>) -> Seq<C>
    decreases actions.len(),
{
    if actions.len() == 0 {
        Seq::empty()
    } else {
        match actions.last().event_context() {
            Some(context) => event_contexts(actions.drop_last()).push(context),
            None => event_contexts(actions.drop_last()),
        }
    }
}

/// Contexts and send times paired in their order.
pub open spec fn paired<C>(contexts: Seq<C>, times: Seq<Option<Time>>) -> Seq<(C, Option<Time>)> {
    Seq::new(times.len(), |i: int| (contexts[i], times[i]))
}

/// What all actions of a list come to, in order.
pub open spec fn effects_of<C, T>(actions: Seq<PortAction<C, T>>) -> Seq<Effect<T>> {
    Seq::new(actions.len(), |i: int| actions[i].effect())
}

/// One more packet adds to the send time that the port is told as [`noted`] says.
pub proof fn law_noted_one_more<C>(sends: Seq<(C, Option<Time>)>, context: C, time: Option<Time>)
    ensures
        noted_all(sends.push((context, time))) == noted(noted_all(sends), context, time),
{
    assert(sends.push((context, time)).drop_last() =~= sends);
}

/// Actions are carried out in their order, each once: at any time, the effects so
/// far are those of the first actions, and the rest is yet to come. Of the packets
/// among them, each but one that is being sent has its send time reported, and the
/// send time that the port is to be told is the one that these leave.
pub proof fn law_action_run<C, T>(actions: Seq<PortAction<C, T>>, steps: Seq<RunStep>)
    requires
        possible(actions, steps),
    ensures
        ({
            let run = run_after(actions, steps);
            let done = effects_after(actions, steps).len() as int;
            let contexts = event_contexts(actions.take(done));
            let times = times_in(steps);
            &&& 0 <= done <= actions.len()
            &&& run.remaining == actions.skip(done)
            &&& effects_after(actions, steps) == effects_of(actions).take(done)
            &&& match run.awaiting {
                Some(context) => contexts.len() == times.len() + 1 && contexts.last() == context,
                None => contexts.len() == times.len(),
            }
            &&& run.pending_timestamp == noted_all(paired(contexts, times))
        }),
    decreases steps.len(),
{
    if steps.len() == 0 {
        assert(actions.skip(0) =~= actions);
        assert(effects_of(actions).take(0) =~= Seq::empty());
        assert(actions.take(0) =~= Seq::empty());
        assert(paired(event_contexts(actions.take(0)), times_in(steps)) =~= Seq::empty());
    } else {
        let earlier = steps.drop_last();
        law_action_run(actions, earlier);
        let before = run_after(actions, earlier);
        let done = effects_after(actions, earlier).len() as int;
        let contexts = event_contexts(actions.take(done));
        let times = times_in(earlier);
        match steps.last() {
            RunStep::Next => {
                if before.remaining.len() > 0 {
                    assert(before.remaining.first() == actions[done]);
                    assert(actions.skip(done).drop_first() =~= actions.skip(done + 1));
                    assert(effects_of(actions).take(done).push(actions[done].effect())
                        =~= effects_of(actions).take(done + 1));
                    assert(actions.take(done + 1).drop_last() =~= actions.take(done));
                    assert(actions.take(done + 1).last() == actions[done]);
                    assert(paired(event_contexts(actions.take(done + 1)), times) =~= paired(
                        contexts,
                        times,
                    ));
                }
            },
            RunStep::Sent(time) => {
                let context = before.awaiting->0;
                assert(paired(contexts, times.push(time)) =~= paired(contexts, times).push(
                    (context, time),
                ));
                law_noted_one_more(paired(contexts, times), context, time);
            },
        }
    }
}

/// When a list can be ended, all of its actions have had their effects, in order,
/// and each packet whose send time the port wants to know has it reported. The port
/// is told the context and the time of the last of these packets whose send time is
/// known, and nothing if and only if none is known.
pub proof fn law_finished_action_run<C, T>(actions: Seq<PortAction<C, T>>, steps: Seq<RunStep>)
    requires
        possible(actions, steps),
        run_after(actions, steps).remaining.len() == 0,
        run_after(actions, steps).awaiting is None,
    ensures
        effects_after(actions, steps) == effects_of(actions),
        times_in(steps).len() == event_contexts(actions).len(),
        run_after(actions, steps).pending_timestamp == noted_all(
            paired(event_contexts(actions), times_in(steps)),
        ),
        match run_after(actions, steps).pending_timestamp {
            Some((context, time)) => exists|i: int|
                {
                    &&& 0 <= i < times_in(steps).len()
                    &&& #[trigger] times_in(steps)[i] == Some(time)
                    &&& event_contexts(actions)[i] == context
                    &&& forall|j: int|
                        i < j < times_in(steps).len() ==> (#[trigger] times_in(steps)[j]) is None
                },
            None => forall|j: int|
                0 <= j < times_in(steps).len() ==> (#[trigger] times_in(steps)[j]) is None,
        },
{
    law_action_run(actions, steps);
    assert(effects_of(actions).take(actions.len() as int) =~= effects_of(actions));
    assert(actions.take(actions.len() as int) =~= actions);
    let times = times_in(steps);
    let sends = paired(event_contexts(actions), times);
    law_last_known_send_time(sends);
    match noted_all(sends) {
        Some((context, time)) => {
            let i = choose|i: int|
                {
                    &&& 0 <= i < sends.len()
                    &&& #[trigger] sends[i] == (context, Some(time))
                    &&& forall|j: int| i < j < sends.len() ==> (#[trigger] sends[j]).1 is None
                };
            assert(times[i] == Some(time));
            assert forall|j: int| i < j < times.len() implies (#[trigger] times[j]) is None by {
                assert(sends[j].1 is None);
            }
        },
        None => {
            assert forall|j: int| 0 <= j < times.len() implies (#[trigger] times[j]) is None by {
                assert(sends[j].1 is None);
            }
        },
    }
}

/// The send time that a port is told is that of the last packet whose send time
/// is known, and none only if none is known.
pub proof fn law_last_known_send_time<C>(sends: Seq<(C, Option<Time>)>)
    ensures
        match noted_all(sends) {
            Some((context, time)) => exists|i: int|
                {
                    &&& 0 <= i < sends.len()
                    &&& #[trigger] sends[i] == (context, Some(time))
                    &&& forall|j: int| i < j < sends.len() ==> (#[trigger] sends[j]).1 is None
                },
            None => forall|j: int| 0 <= j < sends.len() ==> (#[trigger] sends[j]).1 is None,
        },
    decreases sends.len(),
{
    if sends.len() > 0 {
        let earlier = sends.drop_last();
        law_last_known_send_time(earlier);
        let last = sends.len() - 1;
        if sends.last().1 is Some {
            assert(sends[last] == (sends.last().0, Some(sends.last().1->0)));
        } else {
            match noted_all(earlier) {
                Some((context, time)) => {
                    let i = choose|i: int|
                        {
                            &&& 0 <= i < earlier.len()
                            &&& #[trigger] earlier[i] == (context, Some(time))
                            &&& forall|j: int|
                                i < j < earlier.len() ==> (#[trigger] earlier[j]).1 is None
                        };
                    assert(sends[i] == (context, Some(time)));
                    assert forall|j: int| i < j < sends.len() implies (
                    #[trigger] sends[j]).1 is None by {
                        if j < last {
                            assert(earlier[j] == sends[j]);
                        }
                    }
                },
                None => {
                    assert forall|j: int| 0 <= j < sends.len() implies (
                    #[trigger] sends[j]).1 is None by {
                        if j < last {
                            assert(earlier[j] == sends[j]);
                        }
                    }
                },
            }
        }
    }
}

/// What a timer is set to after a list of actions, carried out at the given
/// times, if it stood at `before`.
pub open spec fn timer_after<C, T>(
    name: TimerName,
    before: TimerView,
    actions: Seq<PortAction<C, T>>,
    times: Seq<u128>,
) -> TimerView
    decreases actions.len(),
{
    if actions.len() == 0 {
        before
    } else {
        let earlier = timer_after(name, before, actions.drop_last(), times.drop_last());
        match actions.last().sets_timer() {
            Some((set, duration)) if set == name => earlier.reset(times.last(), duration),
            _ => earlier,
        }
    }
}

/// Whether timers went through these states while a list of actions was carried
/// out at the given times.
pub open spec fn timers_went<C, T>(
    actions: Seq<PortAction<C, T>>,
    times: Seq<u128>,
    states: Seq<Timers>,
) -> bool {
    &&& times.len() == actions.len()
    &&& states.len() == actions.len() + 1
    &&& forall|i: int|
        0 <= i < actions.len() ==> #[trigger] timers_set(
            actions[i],
            times[i],
            states[i],
            states[i + 1],
        )
}

/// Carrying out a list of actions leaves each timer as the actions for it, and
/// they alone, have set it.
pub proof fn law_timers_after_actions<C, T>(
    actions: Seq<PortAction<C, T>>,
    times: Seq<u128>,
    states: Seq<Timers>,
    name: TimerName,
)
    requires
        timers_went(actions, times, states),
    ensures
        states.last().timer(name)@ == timer_after(
            name,
            states.first().timer(name)@,
            actions,
            times,
        ),
    decreases actions.len(),
{
    if actions.len() > 0 {
        let n = actions.len() - 1;
        let earlier = states.drop_last();
        assert(timers_set(actions[n], times[n], states[n], states[n + 1]));
        assert forall|i: int| 0 <= i < n implies #[trigger] timers_set(
            actions.drop_last()[i],
            times.drop_last()[i],
            earlier[i],
            earlier[i + 1],
        ) by {
            assert(timers_set(actions[i], times[i], states[i], states[i + 1]));
        }
        law_timers_after_actions(actions.drop_last(), times.drop_last(), earlier, name);
        assert(earlier.last() == states[n]);
        assert(earlier.first() == states.first());
    }
}

/// The last action that sets a timer decides what it is set to.
pub proof fn law_last_reset_counts<C, T>(
    name: TimerName,
    before: TimerView,
    actions: Seq<PortAction<C, T>>,
    times: Seq<u128>,
    duration: u128,
    i: int,
)
    requires
        times.len() == actions.len(),
        0 <= i < actions.len(),
        actions[i].sets_timer() == Some((name, duration)),
        forall|j: int| i < j < actions.len() ==> !(#[trigger] actions[j]).sets(name),
    ensures
        timer_after(name, before, actions, times) == before.reset(times[i], duration),
    decreases actions.len(),
{
    if i < actions.len() - 1 {
        let earlier = actions.drop_last();
        assert(actions.last() == actions[actions.len() - 1]);
        assert forall|j: int| i < j < earlier.len() implies !(#[trigger] earlier[j]).sets(name) by {
            assert(earlier[j] == actions[j]);
        }
        law_last_reset_counts(name, before, earlier, times.drop_last(), duration, i);
    }
}

/// Link-local packets, and only they, go to the groups for peer delays; event
/// packets leave from the event socket and general packets from the other.
pub proof fn law_packet_targets<C, T>(action: PortAction<C, T>)
    ensures
        action matches PortAction::SendEvent { link_local, .. } ==> {
            &&& action.effect() is SendEvent
            &&& (action.effect()->SendEvent_target == Target::PdelayEvent <==> link_local)
            &&& (action.effect()->SendEvent_target == Target::PrimaryEvent <==> !link_local)
        },
        action matches PortAction::SendGeneral { link_local, .. } ==> {
            &&& action.effect() is SendGeneral
            &&& (action.effect()->SendGeneral_target == Target::PdelayGeneral <==> link_local)
            &&& (action.effect()->SendGeneral_target == Target::PrimaryGeneral <==> !link_local)
        },
{
}

/// The action for the announce timer can be carried out if and only if `now` and its
/// duration add up to less than 2^128. That sum is then the deadline of the announce
/// timer, which runs, and the other four timers are as they were.
pub proof fn law_announce_timer_action<C, T>(
    duration: u128,
    now: u128,
    before: Timers,
    after: Timers,
)
    ensures
        ({
            let action = PortAction::<C, T>::ResetAnnounceTimer { duration };
            let representable = now + duration < 0x1_0000_0000_0000_0000_0000_0000_0000_0000int;
            &&& (action.in_time(now) <==> representable)
            &&& representable && timers_set(action, now, before, after) ==> {
                &&& after.port_announce_timer@.running
                &&& after.port_announce_timer@.deadline == now + duration
                &&& after.port_sync_timer == before.port_sync_timer
                &&& after.port_announce_timeout_timer == before.port_announce_timeout_timer
                &&& after.delay_request_timer == before.delay_request_timer
                &&& after.filter_update_timer == before.filter_update_timer
            }
        }),
{
    crate::clock::timer::law_timers_by_name(before, after);
}

/// The action for the sync timer sets that timer, and no other, to `now` and its
/// duration added up, wherever the sum is less than 2^128.
pub proof fn law_sync_timer_action<C, T>(
    duration: u128,
    now: u128,
    before: Timers,
    after: Timers,
)
    ensures
        ({
            let action = PortAction::<C, T>::ResetSyncTimer { duration };
            let representable = now + duration < 0x1_0000_0000_0000_0000_0000_0000_0000_0000int;
            &&& (action.in_time(now) <==> representable)
            &&& representable && timers_set(action, now, before, after) ==> {
                &&& after.port_sync_timer@.running
                &&& after.port_sync_timer@.deadline == now + duration
                &&& after.port_announce_timer == before.port_announce_timer
                &&& after.port_announce_timeout_timer == before.port_announce_timeout_timer
                &&& after.delay_request_timer == before.delay_request_timer
                &&& after.filter_update_timer == before.filter_update_timer
            }
        }),
{
    crate::clock::timer::law_timers_by_name(before, after);
}

/// The action for the delay request timer sets that timer, and no other, to `now` and
/// its duration added up, wherever the sum is less than 2^128.
pub proof fn law_delay_request_timer_action<C, T>(
    duration: u128,
    now: u128,
    before: Timers,
    after: Timers,
)
    ensures
        ({
            let action = PortAction::<C, T>::ResetDelayRequestTimer { duration };
            let representable = now + duration < 0x1_0000_0000_0000_0000_0000_0000_0000_0000int;
            &&& (action.in_time(now) <==> representable)
            &&& representable && timers_set(action, now, before, after) ==> {
                &&& after.delay_request_timer@.running
                &&& after.delay_request_timer@.deadline == now + duration
                &&& after.port_sync_timer == before.port_sync_timer
                &&& after.port_announce_timer == before.port_announce_timer
                &&& after.port_announce_timeout_timer == before.port_announce_timeout_timer
                &&& after.filter_update_timer == before.filter_update_timer
            }
        }),
{
    crate::clock::timer::law_timers_by_name(before, after);
}

/// The action for the announce receipt timer sets the timer for announcements that stay
/// away, and no other, to `now` and its duration added up, wherever the sum is less than
/// 2^128.
pub proof fn law_announce_receipt_timer_action<C, T>(
    duration: u128,
    now: u128,
    before: Timers,
    after: Timers,
)
    ensures
        ({
            let action = PortAction::<C, T>::ResetAnnounceReceiptTimer { duration };
            let representable = now + duration < 0x1_0000_0000_0000_0000_0000_0000_0000_0000int;
            &&& (action.in_time(now) <==> representable)
            &&& representable && timers_set(action, now, before, after) ==> {
                &&& after.port_announce_timeout_timer@.running
                &&& after.port_announce_timeout_timer@.deadline == now + duration
                &&& after.port_sync_timer == before.port_sync_timer
                &&& after.port_announce_timer == before.port_announce_timer
                &&& after.delay_request_timer == before.delay_request_timer
                &&& after.filter_update_timer == before.filter_update_timer
            }
        }),
{
    crate::clock::timer::law_timers_by_name(before, after);
}

/// The action for the filter update timer sets that timer, and no other, to `now` and
/// its duration added up, wherever the sum is less than 2^128.
pub proof fn law_filter_update_timer_action<C, T>(
    duration: u128,
    now: u128,
    before: Timers,
    after: Timers,
)
    ensures
        ({
            let action = PortAction::<C, T>::ResetFilterUpdateTimer { duration };
            let representable = now + duration < 0x1_0000_0000_0000_0000_0000_0000_0000_0000int;
            &&& (action.in_time(now) <==> representable)
            &&& representable && timers_set(action, now, before, after) ==> {
                &&& after.filter_update_timer@.running
                &&& after.filter_update_timer@.deadline == now + duration
                &&& after.port_sync_timer == before.port_sync_timer
                &&& after.port_announce_timer == before.port_announce_timer
                &&& after.port_announce_timeout_timer == before.port_announce_timeout_timer
                &&& after.delay_request_timer == before.delay_request_timer
            }
        }),
{
    crate::clock::timer::law_timers_by_name(before, after);
}

/// Sending and forwarding can always be done, and leave all timers alone.
pub proof fn law_other_actions_set_no_timer<C, T>(
    action: PortAction<C, T>,
    now: u128,
    before: Timers,
    after: Timers,
)
    requires
        action is SendEvent || action is SendGeneral || action is ForwardTLV,
    ensures
        action.in_time(now),
        timers_set(action, now, before, after) <==> after == before,
{
}

/// What is sent or forwarded is what the action holds, and link-local packets go to
/// the groups for peer delays. A context is kept for event packets alone.
pub proof fn law_effects<C, T>(context: C, data: Vec<u8>, tlv: T)
    ensures
        ({
            let near = PortAction::<C, T>::SendEvent { context, data, link_local: true };
            let far = PortAction::<C, T>::SendEvent { context, data, link_local: false };
            &&& near.effect() == (Effect::<T>::SendEvent { data, target: Target::PdelayEvent })
            &&& far.effect() == (Effect::<T>::SendEvent { data, target: Target::PrimaryEvent })
            &&& near.event_context() == Some(context)
            &&& far.event_context() == Some(context)
        }),
        ({
            let near = PortAction::<C, T>::SendGeneral { data, link_local: true };
            let far = PortAction::<C, T>::SendGeneral { data, link_local: false };
            &&& near.effect() == (Effect::<T>::SendGeneral { data, target: Target::PdelayGeneral })
            &&& far.effect() == (Effect::<T>::SendGeneral { data, target: Target::PrimaryGeneral })
            &&& near.event_context() is None
            &&& far.event_context() is None
        }),
        ({
            let forward = PortAction::<C, T>::ForwardTLV { tlv };
            &&& forward.effect() == (Effect::<T>::Forward { tlv })
            &&& forward.event_context() is None
        }),
{
}

/// An action for a timer comes to that timer being set.
pub proof fn law_effects_of_timer_actions<C, T>(action: PortAction<C, T>)
    ensures
        action is ResetAnnounceTimer ==> action.effect() == (Effect::<T>::TimerSet {
            timer: TimerName::PortAnnounce,
        }),
        action is ResetSyncTimer ==> action.effect() == (Effect::<T>::TimerSet {
            timer: TimerName::PortSync,
        }),
        action is ResetDelayRequestTimer ==> action.effect() == (Effect::<T>::TimerSet {
            timer: TimerName::DelayRequest,
        }),
        action is ResetAnnounceReceiptTimer ==> action.effect() == (Effect::<T>::TimerSet {
            timer: TimerName::PortAnnounceTimeout,
        }),
        action is ResetFilterUpdateTimer ==> action.effect() == (Effect::<T>::TimerSet {
            timer: TimerName::FilterUpdate,
        }),
        action.event_context() is Some <==> action is SendEvent,
{
}

/// A run takes its actions from the front, one at a time, and waits after an event
/// packet, and only then, until that has left. The send time goes with the context
/// of that packet; if it is not known, what was noted before stays.
pub proof fn law_steps_of_a_run<C, T>(
    run: ActionRunView<C, T>,
    action: PortAction<C, T>,
    rest: Seq<PortAction<C, T>>,
    context: C,
    time: Time,
    now: u128,
)
    ensures
        ActionRunView::start(rest).remaining == rest,
        ActionRunView::start(rest).awaiting is None,
        ActionRunView::start(rest).pending_timestamp is None,
        run.remaining.len() == 0 ==> run.next() == run && run.effect() is None && (run.can_go_on(
            now,
        ) <==> run.awaiting is None),
        run.remaining == seq![action] + rest ==> {
            &&& run.next().remaining == rest
            &&& run.next().pending_timestamp == run.pending_timestamp
            &&& (run.next().awaiting is Some <==> action is SendEvent)
            &&& action is SendEvent ==> run.next().awaiting == Some(action->context)
            &&& run.effect() == Some(action.effect())
            &&& (run.can_go_on(now) <==> run.awaiting is None && action.in_time(now))
        },
        run.event_sent(None).pending_timestamp == run.pending_timestamp,
        run.event_sent(None).awaiting is None,
        run.event_sent(None).remaining == run.remaining,
        run.awaiting == Some(context) ==> run.event_sent(Some(time)).pending_timestamp == Some(
            (context, time),
        ),
        run.event_sent(Some(time)).awaiting is None,
        run.event_sent(Some(time)).remaining == run.remaining,
{
    assert((seq![action] + rest).drop_first() =~= rest);
    assert((seq![action] + rest).first() == action);
}

/// A run that is told when its packet left forgets all earlier send times; one that is
/// not told keeps them. Two reports in a row of known times leave the second.
pub proof fn law_later_send_time_counts<C>(
    pending: Option<(C, Time)>,
    first: C,
    first_time: Option<Time>,
    second: C,
    second_time: Time,
)
    ensures
        noted(noted(pending, first, first_time), second, Some(second_time)) == Some(
            (second, second_time),
        ),
        noted(noted(pending, first, first_time), second, None) == noted(
            pending,
            first,
            first_time,
        ),
        noted(pending, first, None) == pending,
{
}

} // verus!
