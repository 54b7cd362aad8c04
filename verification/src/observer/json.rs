//! The observer that writes the state of a node to a socket.

use vstd::prelude::*;

verus! {

/// The state that was kept when a client was last shown one.
pub struct JsonObserver<S> {
    state: S,
}

/// What a client is shown.
pub struct ObservableState<S> {
    /// How long the program has been observed, in nanoseconds.
    pub uptime: u128,
    /// The state of the node.
    pub instance: S,
}

impl<S> View for JsonObserver<S> {
    type V = S;

    closed spec fn view(&self) -> S {
        self.state
    }
}

/// The state that is kept after a client was shown one and the node was then in
/// state `latest`, where what was kept before can be reached or not.
pub open spec fn kept<S>(before: S, reachable: bool, latest: S) -> S {
    if reachable {
        latest
    } else {
        before
    }
}

impl<S> JsonObserver<S> {
    /// An observer that has shown nothing yet, and gives `initial` for it.
    pub fn new(initial: S) -> (observer: JsonObserver<S>)
        ensures
            observer@ == initial,
    {
        JsonObserver { state: initial }
    }

    /// Shows a client the state `current` of the node, and returns what is to be
    /// written. What is kept, if the observer can be reached, is the state that the
    /// node has by then, `latest`; it is kept whatever becomes of the writing.
    pub fn publish(
        observer: Option<&mut JsonObserver<S>>,
        uptime: u128,
        current: S,
        latest: S,
    ) -> (shown: ObservableState<S>)
        ensures
            shown.uptime == uptime,
            shown.instance == current,
            observer matches Some(reached) ==> final(reached)@ == kept((*reached)@, true, latest),
    {
        match observer {
            Some(reached) => {
                reached.state = latest;
            },
            None => {},
        }
        ObservableState { uptime, instance: current }
    }

    /// The state that was last kept, or the default, if the observer cannot be
    /// reached.
    pub fn get_state<'a>(observer: Option<&'a JsonObserver<S>>, default: &'a S) -> (state: &'a S)
        ensures
            *state == match observer {
                Some(reached) => reached@,
                None => *default,
            },
    {
        match observer {
            Some(reached) => &reached.state,
            None => default,
        }
    }
}

/// What observing is waiting for.
#[derive(Clone, Copy, PartialEq, Eq, Structural, Debug)]
pub enum ObservePhase {
    CreatingSocket,
    Accepting,
    Publishing,
    Finished,
}

/// What happens while observing. `E` is what the operating system says of a
/// failure.
pub enum ObserveEvent<E> {
    SocketReady,
    /// A client has connected, at a time in nanoseconds.
    Accepted { now: u128 },
    /// The client has been given all there is.
    Written,
    /// Making the socket, accepting a client or writing failed.
    Failed(E),
}

/// What is to be done next. `P` is a path.
pub enum ObserveAction<P, E> {
    /// There is nothing to observe.
    Stop,
    /// Make a socket with these permissions.
    CreateSocket { path: P, permissions: u32 },
    /// Wait for a client.
    Accept,
    /// Show the state of the node with this uptime, as [`JsonObserver::publish`]
    /// does, and write what is shown to the client.
    Publish { uptime: u128 },
    /// Give up.
    Fail(E),
}

/// Observing, between two operations.
#[derive(Debug)]
pub struct ObserveTask {
    start_time: u128,
    phase: ObservePhase,
}

/// The abstract value of an [`ObserveTask`].
pub struct ObserveTaskView {
    /// When observing began, in nanoseconds.
    pub start_time: u128,
    pub phase: ObservePhase,
}

impl View for ObserveTask {
    type V = ObserveTaskView;

    closed spec fn view(&self) -> ObserveTaskView {
        ObserveTaskView { start_time: self.start_time, phase: self.phase }
    }
}

impl ObserveTaskView {
    /// Whether an event can happen now.
    pub open spec fn accepts<E>(self, event: ObserveEvent<E>) -> bool {
        match event {
            ObserveEvent::SocketReady => self.phase is CreatingSocket,
            ObserveEvent::Accepted { .. } => self.phase is Accepting,
            ObserveEvent::Written => self.phase is Publishing,
            ObserveEvent::Failed(_) => self.phase !is Finished,
        }
    }

    /// How long observing has been going on. Time never counts backwards.
    pub open spec fn uptime(self, now: u128) -> u128 {
        if now >= self.start_time {
            (now - self.start_time) as u128
        } else {
            0
        }
    }

    /// What is to be done about an event.
    pub open spec fn action<P, E>(self, event: ObserveEvent<E>) -> ObserveAction<P, E> {
        match event {
            ObserveEvent::SocketReady => ObserveAction::Accept,
            ObserveEvent::Accepted { now } => ObserveAction::Publish { uptime: self.uptime(now) },
            ObserveEvent::Written => ObserveAction::Accept,
            ObserveEvent::Failed(error) => ObserveAction::Fail(error),
        }
    }

    /// The state after an event.
    pub open spec fn next<E>(self, event: ObserveEvent<E>) -> ObserveTaskView {
        let phase = match event {
            ObserveEvent::SocketReady => ObservePhase::Accepting,
            ObserveEvent::Accepted { .. } => ObservePhase::Publishing,
            ObserveEvent::Written => ObservePhase::Accepting,
            ObserveEvent::Failed(_) => ObservePhase::Finished,
        };
        ObserveTaskView { phase, ..self }
    }
}

impl ObserveTask {
    /// Begins to observe at `now`, if there is a path to observe at.
    pub fn observe<P, E>(
        observation_path: Option<P>,
        observation_permissions: u32,
        now: u128,
    ) -> (start: (ObserveTask, ObserveAction<P, E>))
        ensures
            start.0@.start_time == now,
            match observation_path {
                Some(path) => {
                    &&& start.0@.phase == ObservePhase::CreatingSocket
                    &&& start.1 == (ObserveAction::<P, E>::CreateSocket {
                        path,
                        permissions: observation_permissions,
                    })
                },
                None => {
                    &&& start.0@.phase == ObservePhase::Finished
                    &&& start.1 == ObserveAction::<P, E>::Stop
                },
            },
    {
        match observation_path {
            Some(path) => (
                ObserveTask { start_time: now, phase: ObservePhase::CreatingSocket },
                ObserveAction::CreateSocket { path, permissions: observation_permissions },
            ),
            None => (
                ObserveTask { start_time: now, phase: ObservePhase::Finished },
                ObserveAction::Stop,
            ),
        }
    }

    /// Whether an event can happen now; see [`ObserveTaskView::accepts`].
    pub fn accepts<E>(&self, event: &ObserveEvent<E>) -> (accepted: bool)
        ensures
            accepted == self@.accepts(*event),
    {
        match event {
            ObserveEvent::SocketReady => matches!(self.phase, ObservePhase::CreatingSocket),
            ObserveEvent::Accepted { .. } => matches!(self.phase, ObservePhase::Accepting),
            ObserveEvent::Written => matches!(self.phase, ObservePhase::Publishing),
            ObserveEvent::Failed(_) => !matches!(self.phase, ObservePhase::Finished),
        }
    }

    /// Moves on by one event, and says what is to be done next.
    pub fn step<P, E>(&mut self, event: ObserveEvent<E>) -> (action: ObserveAction<P, E>)
        requires
            old(self)@.accepts(event),
        ensures
            action == old(self)@.action::<P, E>(event),
            final(self)@ == old(self)@.next(event),
    {
        match event {
            ObserveEvent::SocketReady => {
                self.phase = ObservePhase::Accepting;
                ObserveAction::Accept
            },
            ObserveEvent::Accepted { now } => {
                self.phase = ObservePhase::Publishing;
                let uptime: u128 = if now >= self.start_time {
                    now - self.start_time
                } else {
                    0
                };
                ObserveAction::Publish { uptime }
            },
            ObserveEvent::Written => {
                self.phase = ObservePhase::Accepting;
                ObserveAction::Accept
            },
            ObserveEvent::Failed(error) => {
                self.phase = ObservePhase::Finished;
                ObserveAction::Fail(error)
            },
        }
    }
}

/// Observing goes on until something fails: nothing else ends it, and after a
/// failure nothing more happens.
pub proof fn law_observing_ends_with_a_failure<P, E>(
    task: ObserveTaskView,
    event: ObserveEvent<E>,
    later: ObserveEvent<E>,
)
    requires
        task.accepts(event),
    ensures
        task.next(event).phase is Finished <==> event is Failed,
        task.action::<P, E>(event) is Fail <==> event is Failed,
        task.action::<P, E>(event) !is Stop,
        event is Failed ==> !task.next(event).accepts(later),
{
}

/// Every client that connects is shown the state once before the next is accepted,
/// with the time since observing began.
pub proof fn law_clients_are_served_in_turn<P, E>(task: ObserveTaskView, now: u128, later: u128)
    requires
        task.phase is Accepting,
    ensures
        ({
            let accepted = ObserveEvent::<E>::Accepted { now };
            let written = ObserveEvent::<E>::Written;
            &&& task.action::<P, E>(accepted) == (ObserveAction::<P, E>::Publish {
                uptime: task.uptime(now),
            })
            &&& !task.next(accepted).accepts(ObserveEvent::<E>::Accepted { now: later })
            &&& task.next(accepted).accepts(written)
            &&& task.next(accepted).action::<P, E>(written) is Accept
            &&& task.next(accepted).next(written) == task
        }),
{
}

/// A client being shown a state.
pub struct Publication<S> {
    /// Whether the observer could be reached.
    pub reachable: bool,
    /// The state that the client was shown.
    pub shown: S,
    /// The state that the node had by then.
    pub latest: S,
}

/// The state that is kept after a number of publications.
pub open spec fn kept_after<S>(initial: S, publications: Seq<Publication<S>>) -> S
    decreases publications.len(),
{
    if publications.len() == 0 {
        initial
    } else {
        kept(
            kept_after(initial, publications.drop_last()),
            publications.last().reachable,
            publications.last().latest,
        )
    }
}

/// The state that is kept is that of the last publication with the observer in
/// reach, from then on until the next one; before the first it is the initial one.
/// If the node does not change its state while a client is served, that is the very
/// state that the client was shown.
pub proof fn law_last_publication_is_kept<S>(
    initial: S,
    publications: Seq<Publication<S>>,
    last: int,
)
    requires
        -1 <= last < publications.len(),
        last >= 0 ==> publications[last].reachable,
        forall|i: int| last < i < publications.len() ==> !(#[trigger] publications[i]).reachable,
    ensures
        last < 0 ==> kept_after(initial, publications) == initial,
        last >= 0 ==> kept_after(initial, publications) == publications[last].latest,
        last >= 0 && publications[last].latest == publications[last].shown ==> kept_after(
            initial,
            publications,
        ) == publications[last].shown,
    decreases publications.len(),
{
    if publications.len() > 0 && last < publications.len() - 1 {
        let earlier = publications.drop_last();
        assert(publications.last() == publications[publications.len() - 1]);
        assert forall|i: int| last < i < earlier.len() implies !(
        #[trigger] earlier[i]).reachable by {
            assert(earlier[i] == publications[i]);
        }
        law_last_publication_is_kept(initial, earlier, last);
    }
}

/// What is kept is the latest state, if the observer can be reached, and what was kept
/// before, if not.
pub proof fn law_kept<S>(before: S, latest: S)
    ensures
        kept(before, true, latest) == latest,
        kept(before, false, latest) == before,
{
}

/// The uptime is the time since observing began, and zero for a clock that has gone
/// back behind that.
pub proof fn law_uptime<P, E>(task: ObserveTaskView, now: u128)
    ensures
        now >= task.start_time ==> task.uptime(now) + task.start_time == now,
        now <= task.start_time ==> task.uptime(now) == 0,
        task.action::<P, E>(ObserveEvent::<E>::Accepted { now }) is Publish,
        now >= task.start_time ==> task.action::<P, E>(
            ObserveEvent::<E>::Accepted { now },
        )->uptime + task.start_time == now,
        now <= task.start_time ==> task.action::<P, E>(
            ObserveEvent::<E>::Accepted { now },
        )->uptime == 0,
{
}

/// Observing goes from the socket to its clients, one after another, and gives up with
/// the very error that something failed with. When it began is never forgotten.
pub proof fn law_steps_of_observing<P, E>(task: ObserveTaskView, now: u128, error: E)
    ensures
        task.action::<P, E>(ObserveEvent::<E>::SocketReady) is Accept,
        task.next(ObserveEvent::<E>::SocketReady) == (ObserveTaskView {
            phase: ObservePhase::Accepting,
            ..task
        }),
        task.next(ObserveEvent::<E>::Accepted { now }) == (ObserveTaskView {
            phase: ObservePhase::Publishing,
            ..task
        }),
        task.action::<P, E>(ObserveEvent::<E>::Written) is Accept,
        task.next(ObserveEvent::<E>::Written) == (ObserveTaskView {
            phase: ObservePhase::Accepting,
            ..task
        }),
        task.action::<P, E>(ObserveEvent::<E>::Failed(error)) == ObserveAction::<P, E>::Fail(error),
        task.next(ObserveEvent::<E>::Failed(error)) == (ObserveTaskView {
            phase: ObservePhase::Finished,
            ..task
        }),
{
}

/// In each phase one thing can succeed, and until observing has ended it can fail.
pub proof fn law_events_of_observing<E>(task: ObserveTaskView, event: ObserveEvent<E>)
    ensures
        task.accepts(event) <==> match task.phase {
            ObservePhase::CreatingSocket => event is SocketReady || event is Failed,
            ObservePhase::Accepting => event is Accepted || event is Failed,
            ObservePhase::Publishing => event is Written || event is Failed,
            ObservePhase::Finished => false,
        },
{
}

/// Observing begins now, with the socket to be made at the path and with the permissions
/// that were given; without a path it has ended before it began.
pub proof fn law_start_of_observing<P, E>(
    observation_path: Option<P>,
    permissions: u32,
    now: u128,
    start: (ObserveTask, ObserveAction<P, E>),
)
    requires
        call_ensures(ObserveTask::observe::<P, E>, (observation_path, permissions, now), start),
    ensures
        start.0@.start_time == now,
        start.1 is Stop <==> observation_path is None,
        start.1 is CreateSocket <==> observation_path is Some,
        observation_path is None ==> start.0@.phase is Finished,
        observation_path is Some ==> start.0@.phase is CreatingSocket,
        start.1 matches ObserveAction::CreateSocket { path, permissions: asked } ==> Some(path)
            == observation_path && asked == permissions,
{
}

} // verus!
