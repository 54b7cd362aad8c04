//! Setting up the socket that observers connect to.

use vstd::prelude::*;
use vstd::string::StringExecFns;

verus! {

/// What the setup of a socket is waiting for.
pub enum SocketPhase {
    CheckingExistence,
    ReadingFileType,
    Removing,
    Binding,
    /// Whether the parent directory is missing; binding failed with this error.
    CheckingParent { bind_error: String },
    SettingPermissions,
    Finished,
}

/// How an operation on the path of the socket came out. `E` is what the operating
/// system says of a failure.
pub enum SocketEvent<E> {
    /// Whether something exists at the path.
    Exists(bool),
    /// Whether what exists there is a socket.
    FileType { is_socket: bool },
    /// What existed is gone.
    Removed,
    /// The socket is there.
    Bound,
    /// The socket could not be made; the error is given in words.
    BindFailed { error: String },
    /// Whether the path has a parent directory that does not exist.
    Parent { missing: bool },
    /// The permissions are set.
    PermissionsSet,
    /// Reading the file type, removing the file or setting the permissions
    /// failed.
    Failed(E),
}

/// What is to be done next.
pub enum SocketAction<E> {
    CheckExistence,
    ReadFileType,
    Remove,
    Bind,
    CheckParent,
    SetPermissions { permissions: u32 },
    /// The socket can be used.
    Ready,
    /// Give up with the error of the operating system.
    Fail(E),
    /// Give up for the reason given.
    Refuse { message: String },
}

/// The setup of a socket between two operations.
pub struct SocketSetup {
    path: String,
    permissions: u32,
    phase: SocketPhase,
}

/// The abstract value of a [`SocketPhase`].
pub enum SocketPhaseView {
    CheckingExistence,
    ReadingFileType,
    Removing,
    Binding,
    CheckingParent { bind_error: Seq<char> },
    SettingPermissions,
    Finished,
}

/// The abstract value of a [`SocketSetup`].
pub struct SocketSetupView {
    /// The path of the socket in words, as error messages show it.
    pub path: Seq<char>,
    /// The permissions that the socket gets.
    pub permissions: u32,
    pub phase: SocketPhaseView,
}

/// The abstract value of a [`SocketAction`].
pub enum SocketActionView<E> {
    CheckExistence,
    ReadFileType,
    Remove,
    Bind,
    CheckParent,
    SetPermissions { permissions: u32 },
    Ready,
    Fail(E),
    Refuse { message: Seq<char> },
}

impl View for SocketPhase {
    type V = SocketPhaseView;

    open spec fn view(&self) -> SocketPhaseView {
        match *self {
            SocketPhase::CheckingExistence => SocketPhaseView::CheckingExistence,
            SocketPhase::ReadingFileType => SocketPhaseView::ReadingFileType,
            SocketPhase::Removing => SocketPhaseView::Removing,
            SocketPhase::Binding => SocketPhaseView::Binding,
            SocketPhase::CheckingParent { bind_error } => {
                SocketPhaseView::CheckingParent { bind_error: bind_error@ }
            },
            SocketPhase::SettingPermissions => SocketPhaseView::SettingPermissions,
            SocketPhase::Finished => SocketPhaseView::Finished,
        }
    }
}

impl View for SocketSetup {
    type V = SocketSetupView;

    closed spec fn view(&self) -> SocketSetupView {
        SocketSetupView {
            path: self.path@,
            permissions: self.permissions,
            phase: self.phase@,
        }
    }
}

impl<E> View for SocketAction<E> {
    type V = SocketActionView<E>;

    open spec fn view(&self) -> SocketActionView<E> {
        match *self {
            SocketAction::CheckExistence => SocketActionView::CheckExistence,
            SocketAction::ReadFileType => SocketActionView::ReadFileType,
            SocketAction::Remove => SocketActionView::Remove,
            SocketAction::Bind => SocketActionView::Bind,
            SocketAction::CheckParent => SocketActionView::CheckParent,
            SocketAction::SetPermissions { permissions } => {
                SocketActionView::SetPermissions { permissions }
            },
            SocketAction::Ready => SocketActionView::Ready,
            SocketAction::Fail(error) => SocketActionView::Fail(error),
            SocketAction::Refuse { message } => SocketActionView::Refuse { message: message@ },
        }
    }
}

/// The refusal to replace something that is no socket.
pub open spec fn not_a_socket(path: Seq<char>) -> Seq<char> {
    "path "@ + path + " exists but is not a socket"@
}

/// The refusal to make a socket in a directory that does not exist.
pub open spec fn no_parent_directory(path: Seq<char>) -> Seq<char> {
    "Could not create observe socket at "@ + path
        + " because its parent directory does not exist"@
}

/// The report of any other reason for which a socket could not be made.
pub open spec fn bind_failed(path: Seq<char>, error: Seq<char>) -> Seq<char> {
    "Could not create observe socket at "@ + path + ": "@ + error
}

impl SocketSetupView {
    /// Whether an operation can come out this way now.
    pub open spec fn accepts<E>(self, event: SocketEvent<E>) -> bool {
        match event {
            SocketEvent::Exists(_) => self.phase is CheckingExistence,
            SocketEvent::FileType { .. } => self.phase is ReadingFileType,
            SocketEvent::Removed => self.phase is Removing,
            SocketEvent::Bound => self.phase is Binding,
            SocketEvent::BindFailed { .. } => self.phase is Binding,
            SocketEvent::Parent { .. } => self.phase is CheckingParent,
            SocketEvent::PermissionsSet => self.phase is SettingPermissions,
            SocketEvent::Failed(_) => {
                ||| self.phase is ReadingFileType
                ||| self.phase is Removing
                ||| self.phase is SettingPermissions
            },
        }
    }

    /// What is to be done about the outcome of an operation. A socket that is in
    /// the way is removed, anything else in the way is left alone.
    pub open spec fn action<E>(self, event: SocketEvent<E>) -> SocketActionView<E> {
        match event {
            SocketEvent::Exists(exists) => if exists {
                SocketActionView::ReadFileType
            } else {
                SocketActionView::Bind
            },
            SocketEvent::FileType { is_socket } => if is_socket {
                SocketActionView::Remove
            } else {
                SocketActionView::Refuse { message: not_a_socket(self.path) }
            },
            SocketEvent::Removed => SocketActionView::Bind,
            SocketEvent::Bound => SocketActionView::SetPermissions {
                permissions: self.permissions,
            },
            SocketEvent::BindFailed { .. } => SocketActionView::CheckParent,
            SocketEvent::Parent { missing } => SocketActionView::Refuse {
                message: if missing {
                    no_parent_directory(self.path)
                } else {
                    bind_failed(self.path, self.phase->bind_error)
                },
            },
            SocketEvent::PermissionsSet => SocketActionView::Ready,
            SocketEvent::Failed(error) => SocketActionView::Fail(error),
        }
    }

    /// The state after the outcome of an operation.
    pub open spec fn next<E>(self, event: SocketEvent<E>) -> SocketSetupView {
        let phase = match self.action(event) {
            SocketActionView::CheckExistence => SocketPhaseView::CheckingExistence,
            SocketActionView::ReadFileType => SocketPhaseView::ReadingFileType,
            SocketActionView::Remove => SocketPhaseView::Removing,
            SocketActionView::Bind => SocketPhaseView::Binding,
            SocketActionView::CheckParent => SocketPhaseView::CheckingParent {
                bind_error: event->error@,
            },
            SocketActionView::SetPermissions { .. } => SocketPhaseView::SettingPermissions,
            SocketActionView::Ready | SocketActionView::Fail(_)
            | SocketActionView::Refuse { .. } => SocketPhaseView::Finished,
        };
        SocketSetupView { phase, ..self }
    }
}

fn not_a_socket_message(path: &str) -> (message: String)
    ensures
        message@ == not_a_socket(path@),
{
    let mut message = "path ".to_owned();
    message.append(path);
    message.append(" exists but is not a socket");
    message
}

fn no_parent_directory_message(path: &str) -> (message: String)
    ensures
        message@ == no_parent_directory(path@),
{
    let mut message = "Could not create observe socket at ".to_owned();
    message.append(path);
    message.append(" because its parent directory does not exist");
    message
}

fn bind_failed_message(path: &str, error: &str) -> (message: String)
    ensures
        message@ == bind_failed(path@, error@),
{
    let mut message = "Could not create observe socket at ".to_owned();
    message.append(path);
    message.append(": ");
    message.append(error);
    message
}

/// Begins to set up a socket with the given permissions at a path, given in
/// words.
pub fn create_unix_socket_with_permissions<E>(path: String, permissions: u32) -> (start: (
    SocketSetup,
    SocketAction<E>,
))
    ensures
        start.0@ == (SocketSetupView {
            path: path@,
            permissions,
            phase: SocketPhaseView::CheckingExistence,
        }),
        start.1@ == SocketActionView::<E>::CheckExistence,
{
    (
        SocketSetup { path, permissions, phase: SocketPhase::CheckingExistence },
        SocketAction::CheckExistence,
    )
}

impl SocketSetup {
    /// Whether an operation can come out this way now; see
    /// [`SocketSetupView::accepts`].
    pub fn accepts<E>(&self, event: &SocketEvent<E>) -> (accepted: bool)
        ensures
            accepted == self@.accepts(*event),
    {
        match event {
            SocketEvent::Exists(_) => matches!(self.phase, SocketPhase::CheckingExistence),
            SocketEvent::FileType { .. } => matches!(self.phase, SocketPhase::ReadingFileType),
            SocketEvent::Removed => matches!(self.phase, SocketPhase::Removing),
            SocketEvent::Bound => matches!(self.phase, SocketPhase::Binding),
            SocketEvent::BindFailed { .. } => matches!(self.phase, SocketPhase::Binding),
            SocketEvent::Parent { .. } => matches!(self.phase, SocketPhase::CheckingParent { .. }),
            SocketEvent::PermissionsSet => matches!(self.phase, SocketPhase::SettingPermissions),
            SocketEvent::Failed(_) => matches!(
                self.phase,
                SocketPhase::ReadingFileType
                | SocketPhase::Removing
                | SocketPhase::SettingPermissions
            ),
        }
    }

    /// Moves the setup on by the outcome of one operation, and says what is to be
    /// done next.
    pub fn step<E>(&mut self, event: SocketEvent<E>) -> (action: SocketAction<E>)
        requires
            old(self)@.accepts(event),
        ensures
            final(self)@ == old(self)@.next(event),
            action@ == old(self)@.action(event),
    {
        match event {
            SocketEvent::Exists(exists) => if exists {
                self.phase = SocketPhase::ReadingFileType;
                SocketAction::ReadFileType
            } else {
                self.phase = SocketPhase::Binding;
                SocketAction::Bind
            },
            SocketEvent::FileType { is_socket } => if is_socket {
                self.phase = SocketPhase::Removing;
                SocketAction::Remove
            } else {
                self.phase = SocketPhase::Finished;
                SocketAction::Refuse { message: not_a_socket_message(self.path.as_str()) }
            },
            SocketEvent::Removed => {
                self.phase = SocketPhase::Binding;
                SocketAction::Bind
            },
            SocketEvent::Bound => {
                self.phase = SocketPhase::SettingPermissions;
                SocketAction::SetPermissions { permissions: self.permissions }
            },
            SocketEvent::BindFailed { error } => {
                self.phase = SocketPhase::CheckingParent { bind_error: error };
                SocketAction::CheckParent
            },
            SocketEvent::Parent { missing } => {
                let message = if missing {
                    no_parent_directory_message(self.path.as_str())
                } else {
                    match &self.phase {
                        SocketPhase::CheckingParent { bind_error } => {
                            bind_failed_message(self.path.as_str(), bind_error.as_str())
                        },
                        // No other phase asks about the parent directory.
                        _ => String::new(),
                    }
                };
                self.phase = SocketPhase::Finished;
                SocketAction::Refuse { message }
            },
            SocketEvent::PermissionsSet => {
                self.phase = SocketPhase::Finished;
                SocketAction::Ready
            },
            SocketEvent::Failed(error) => {
                self.phase = SocketPhase::Finished;
                SocketAction::Fail(error)
            },
        }
    }
}

/// Only sockets are ever removed: a file is removed if and only if its type was
/// just read and is that of a socket.
pub proof fn law_only_sockets_are_removed<E>(setup: SocketSetupView, event: SocketEvent<E>)
    ensures
        setup.action(event) is Remove <==> event == (SocketEvent::<E>::FileType {
            is_socket: true,
        }),
{
}

/// The setup after a number of operations on a path, in order.
pub open spec fn setup_after<E>(
    path: Seq<char>,
    permissions: u32,
    events: Seq<SocketEvent<E>>,
) -> SocketSetupView
    decreases events.len(),
{
    if events.len() == 0 {
        SocketSetupView { path, permissions, phase: SocketPhaseView::CheckingExistence }
    } else {
        setup_after(path, permissions, events.drop_last()).next(events.last())
    }
}

/// Whether operations on a path can come out this way, in order.
pub open spec fn possible<E>(
    path: Seq<char>,
    permissions: u32,
    events: Seq<SocketEvent<E>>,
) -> bool
    decreases events.len(),
{
    events.len() == 0 || {
        &&& possible(path, permissions, events.drop_last())
        &&& setup_after(path, permissions, events.drop_last()).accepts(events.last())
    }
}

/// Where the outcomes of the operations so far leave the setup of a socket.
pub open spec fn history<E>(
    path: Seq<char>,
    permissions: u32,
    events: Seq<SocketEvent<E>>,
) -> bool {
    let n = events.len();
    let free = n >= 1 && events[0] == SocketEvent::<E>::Exists(false);
    let cleared = n >= 3 && events[0] == SocketEvent::<E>::Exists(true) && events[1] == (
    SocketEvent::<E>::FileType { is_socket: true }) && events[2] is Removed;
    let base = if free {
        1int
    } else {
        3int
    };
    match setup_after(path, permissions, events).phase {
        SocketPhaseView::CheckingExistence => n == 0,
        SocketPhaseView::ReadingFileType => n == 1 && events[0] == SocketEvent::<E>::Exists(true),
        SocketPhaseView::Removing => n == 2 && events[0] == SocketEvent::<E>::Exists(true)
            && events[1] == (SocketEvent::<E>::FileType { is_socket: true }),
        SocketPhaseView::Binding => (free || cleared) && n == base,
        SocketPhaseView::CheckingParent { bind_error } => (free || cleared) && n == base + 1
            && events[base] is BindFailed && bind_error == events[base]->error@,
        SocketPhaseView::SettingPermissions => (free || cleared) && n == base + 1
            && events[base] is Bound,
        SocketPhaseView::Finished => n <= 5,
    }
}

/// The setup ends after five operations at most. It binds only at a path where
/// nothing was, or from which a socket was removed, and sets permissions only on
/// what it has bound itself.
pub proof fn law_setup_history<E>(
    path: Seq<char>,
    permissions: u32,
    events: Seq<SocketEvent<E>>,
)
    requires
        possible(path, permissions, events),
    ensures
        setup_after(path, permissions, events).path == path,
        setup_after(path, permissions, events).permissions == permissions,
        history(path, permissions, events),
    decreases events.len(),
{
    if events.len() > 0 {
        let earlier = events.drop_last();
        law_setup_history(path, permissions, earlier);
        assert(forall|i: int| 0 <= i < earlier.len() ==> earlier[i] == events[i]);
        assert(events.last() == events[events.len() - 1]);
    }
}

/// The permissions that the setup was begun with are those that it asks for, whenever
/// it asks for any; and it asks for them exactly when the socket was just bound.
pub proof fn law_permissions_as_given<E>(
    path: Seq<char>,
    permissions: u32,
    events: Seq<SocketEvent<E>>,
    event: SocketEvent<E>,
)
    requires
        possible(path, permissions, events),
        setup_after(path, permissions, events).accepts(event),
    ensures
        ({
            let action = setup_after(path, permissions, events).action(event);
            &&& (action is SetPermissions <==> event is Bound)
            &&& action is SetPermissions ==> action->SetPermissions_permissions == permissions
        }),
{
    law_setup_history(path, permissions, events);
}

/// Refusals name the path that the setup was begun with, and the error for which
/// binding failed, if that is the reason, in full.
pub proof fn law_refusals<E>(setup: SocketSetupView, bind_error: Seq<char>)
    ensures
        setup.action(SocketEvent::<E>::FileType { is_socket: false }) == (
        SocketActionView::<E>::Refuse {
            message: "path "@ + setup.path + " exists but is not a socket"@,
        }),
        setup.action(SocketEvent::<E>::Parent { missing: true }) == (
        SocketActionView::<E>::Refuse {
            message: "Could not create observe socket at "@ + setup.path
                + " because its parent directory does not exist"@,
        }),
        setup.phase == (SocketPhaseView::CheckingParent { bind_error }) ==> setup.action(
            SocketEvent::<E>::Parent { missing: false },
        ) == (SocketActionView::<E>::Refuse {
            message: "Could not create observe socket at "@ + setup.path + ": "@ + bind_error,
        }),
{
}

/// Each outcome leads to the one operation that comes next, and the setup then waits
/// for that operation; it neither forgets its path nor its permissions.
pub proof fn law_steps_of_a_setup<E>(setup: SocketSetupView, error: E, bind_error: String)
    ensures
        ({
            let event = SocketEvent::<E>::Exists(true);
            &&& setup.action(event) is ReadFileType
            &&& setup.next(event) == (SocketSetupView {
                phase: SocketPhaseView::ReadingFileType,
                ..setup
            })
        }),
        ({
            let event = SocketEvent::<E>::Exists(false);
            &&& setup.action(event) is Bind
            &&& setup.next(event) == (SocketSetupView {
                phase: SocketPhaseView::Binding,
                ..setup
            })
        }),
        ({
            let event = SocketEvent::<E>::FileType { is_socket: true };
            &&& setup.action(event) is Remove
            &&& setup.next(event) == (SocketSetupView {
                phase: SocketPhaseView::Removing,
                ..setup
            })
        }),
        ({
            let event = SocketEvent::<E>::Removed;
            &&& setup.action(event) is Bind
            &&& setup.next(event) == (SocketSetupView {
                phase: SocketPhaseView::Binding,
                ..setup
            })
        }),
        ({
            let event = SocketEvent::<E>::Bound;
            &&& setup.action(event) == (SocketActionView::<E>::SetPermissions {
                permissions: setup.permissions,
            })
            &&& setup.next(event) == (SocketSetupView {
                phase: SocketPhaseView::SettingPermissions,
                ..setup
            })
        }),
        ({
            let event = SocketEvent::<E>::BindFailed { error: bind_error };
            &&& setup.action(event) is CheckParent
            &&& setup.next(event) == (SocketSetupView {
                phase: SocketPhaseView::CheckingParent { bind_error: bind_error@ },
                ..setup
            })
        }),
        ({
            let event = SocketEvent::<E>::PermissionsSet;
            &&& setup.action(event) is Ready
            &&& setup.next(event) == (SocketSetupView {
                phase: SocketPhaseView::Finished,
                ..setup
            })
        }),
        ({
            let event = SocketEvent::<E>::Failed(error);
            &&& setup.action(event) == SocketActionView::<E>::Fail(error)
            &&& setup.next(event) == (SocketSetupView {
                phase: SocketPhaseView::Finished,
                ..setup
            })
        }),
        setup.next(SocketEvent::<E>::FileType { is_socket: false }) == (SocketSetupView {
            phase: SocketPhaseView::Finished,
            ..setup
        }),
        setup.next(SocketEvent::<E>::Parent { missing: true }) == (SocketSetupView {
            phase: SocketPhaseView::Finished,
            ..setup
        }),
        setup.next(SocketEvent::<E>::Parent { missing: false }) == (SocketSetupView {
            phase: SocketPhaseView::Finished,
            ..setup
        }),
{
}

/// An outcome can only be that of the operation that is under way. Looking for a file,
/// binding and looking for the parent directory have failures of their own, or none.
pub proof fn law_outcomes_by_phase<E>(setup: SocketSetupView, event: SocketEvent<E>)
    ensures
        setup.accepts(event) <==> match setup.phase {
            SocketPhaseView::CheckingExistence => event is Exists,
            SocketPhaseView::ReadingFileType => event is FileType || event is Failed,
            SocketPhaseView::Removing => event is Removed || event is Failed,
            SocketPhaseView::Binding => event is Bound || event is BindFailed,
            SocketPhaseView::CheckingParent { .. } => event is Parent,
            SocketPhaseView::SettingPermissions => event is PermissionsSet || event is Failed,
            SocketPhaseView::Finished => false,
        },
{
}

/// The abstract values of phases and actions hold what the concrete ones hold.
pub proof fn law_socket_views<E>(text: String, permissions: u32, error: E)
    ensures
        SocketPhase::CheckingExistence@ is CheckingExistence,
        SocketPhase::ReadingFileType@ is ReadingFileType,
        SocketPhase::Removing@ is Removing,
        SocketPhase::Binding@ is Binding,
        (SocketPhase::CheckingParent { bind_error: text })@ == (SocketPhaseView::CheckingParent {
            bind_error: text@,
        }),
        SocketPhase::SettingPermissions@ is SettingPermissions,
        SocketPhase::Finished@ is Finished,
        SocketAction::<E>::CheckExistence@ is CheckExistence,
        SocketAction::<E>::ReadFileType@ is ReadFileType,
        SocketAction::<E>::Remove@ is Remove,
        SocketAction::<E>::Bind@ is Bind,
        SocketAction::<E>::CheckParent@ is CheckParent,
        (SocketAction::<E>::SetPermissions { permissions })@ == (
        SocketActionView::<E>::SetPermissions { permissions }),
        SocketAction::<E>::Ready@ is Ready,
        SocketAction::<E>::Fail(error)@ == SocketActionView::<E>::Fail(error),
        (SocketAction::<E>::Refuse { message: text })@ == (SocketActionView::<E>::Refuse {
            message: text@,
        }),
{
}

/// A setup begins by looking for a file at the path, and has the path and the permissions
/// that it was given.
pub proof fn law_start_of_a_setup<E>(
    path: String,
    permissions: u32,
    start: (SocketSetup, SocketAction<E>),
)
    requires
        call_ensures(
            create_unix_socket_with_permissions::<E>,
            (path, permissions),
            start,
        ),
    ensures
        start.0@.path == path@,
        start.0@.permissions == permissions,
        start.0@.phase is CheckingExistence,
        start.1@ is CheckExistence,
{
}

} // verus!
