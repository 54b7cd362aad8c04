use statime::args::{Args, DEFAULT_CONFIG_FILE};
use statime::observer::json::{
    JsonObserver, ObservableState, ObserveAction, ObserveEvent, ObserveTask,
};
use statime::observer::socket::{
    create_unix_socket_with_permissions, SocketAction, SocketEvent, SocketSetup,
};

type Event = SocketEvent<i32>;
type Action = SocketAction<i32>;

fn setup() -> SocketSetup {
    let (setup, action): (SocketSetup, Action) =
        create_unix_socket_with_permissions("\"/run/observe\"".to_string(), 0o660);
    assert!(matches!(action, SocketAction::CheckExistence));
    setup
}

fn refusal(action: Action) -> String {
    match action {
        SocketAction::Refuse { message } => message,
        _ => panic!("the setup has to be refused"),
    }
}

#[test]
fn socket_at_a_free_path() {
    let mut setup = setup();
    assert!(matches!(setup.step(Event::Exists(false)), Action::Bind));
    assert!(matches!(
        setup.step(Event::Bound),
        Action::SetPermissions { permissions: 0o660 }
    ));
    assert!(matches!(setup.step(Event::PermissionsSet), Action::Ready));
}

#[test]
fn socket_in_the_way_is_removed() {
    let mut setup = setup();
    assert!(matches!(
        setup.step(Event::Exists(true)),
        Action::ReadFileType
    ));
    assert!(matches!(
        setup.step(Event::FileType { is_socket: true }),
        Action::Remove
    ));
    assert!(matches!(setup.step(Event::Removed), Action::Bind));
}

#[test]
fn anything_else_in_the_way_is_left_alone() {
    let mut setup = setup();
    setup.step(Event::Exists(true));
    assert_eq!(
        refusal(setup.step(Event::FileType { is_socket: false })),
        "path \"/run/observe\" exists but is not a socket"
    );
}

#[test]
fn missing_parent_directory_is_reported() {
    let mut setup = setup();
    setup.step(Event::Exists(false));
    assert!(matches!(
        setup.step(Event::BindFailed {
            error: "NotFound".to_string()
        }),
        Action::CheckParent
    ));
    assert_eq!(
        refusal(setup.step(Event::Parent { missing: true })),
        "Could not create observe socket at \"/run/observe\" because its parent directory does not exist"
    );
}

#[test]
fn other_reasons_are_reported_as_they_are() {
    let mut setup = setup();
    setup.step(Event::Exists(false));
    setup.step(Event::BindFailed {
        error: "PermissionDenied".to_string(),
    });
    assert_eq!(
        refusal(setup.step(Event::Parent { missing: false })),
        "Could not create observe socket at \"/run/observe\": PermissionDenied"
    );
}

#[test]
fn failures_are_handed_on() {
    let mut reading = setup();
    reading.step(Event::Exists(true));
    assert!(matches!(reading.step(Event::Failed(1)), Action::Fail(1)));

    let mut removing = setup();
    removing.step(Event::Exists(true));
    removing.step(Event::FileType { is_socket: true });
    assert!(matches!(removing.step(Event::Failed(2)), Action::Fail(2)));

    let mut permitting = setup();
    permitting.step(Event::Exists(false));
    permitting.step(Event::Bound);
    assert!(matches!(permitting.step(Event::Failed(3)), Action::Fail(3)));
}

#[test]
fn setup_knows_what_can_happen() {
    let mut setup = setup();
    assert!(setup.accepts(&Event::Exists(true)));
    assert!(!setup.accepts(&Event::Bound));
    assert!(!setup.accepts(&Event::Failed(1)));
    setup.step(Event::Exists(true));
    assert!(setup.accepts(&Event::FileType { is_socket: true }));
    assert!(setup.accepts(&Event::Failed(1)));
    setup.step(Event::FileType { is_socket: true });
    assert!(setup.accepts(&Event::Removed));
    setup.step(Event::Removed);
    let refused = Event::BindFailed {
        error: String::new(),
    };
    assert!(setup.accepts(&Event::Bound));
    assert!(setup.accepts(&refused));
    assert!(!setup.accepts(&Event::Failed(1)));
    setup.step(refused);
    assert!(setup.accepts(&Event::Parent { missing: true }));
    setup.step(Event::Parent { missing: true });
    assert!(!setup.accepts(&Event::PermissionsSet));
    assert!(!setup.accepts(&Event::Exists(true)));
}

type Observing = ObserveAction<&'static str, i32>;

#[test]
fn nothing_to_observe_without_a_path() {
    let (task, action): (ObserveTask, Observing) = ObserveTask::observe(None, 0o666, 0);
    assert!(matches!(action, ObserveAction::Stop));
    assert!(!task.accepts(&ObserveEvent::Failed(1)));
}

#[test]
fn clients_are_served_one_after_the_other() {
    let (mut task, action): (ObserveTask, Observing) =
        ObserveTask::observe(Some("/run/observe"), 0o666, 1000);
    match action {
        ObserveAction::CreateSocket { path, permissions } => {
            assert_eq!(path, "/run/observe");
            assert_eq!(permissions, 0o666);
        }
        _ => panic!("the socket comes first"),
    }
    let ready: ObserveEvent<i32> = ObserveEvent::SocketReady;
    assert!(task.accepts(&ready));
    let action: Observing = task.step(ready);
    assert!(matches!(action, ObserveAction::Accept));
    for i in 1..4 {
        let accepted: ObserveEvent<i32> = ObserveEvent::Accepted { now: 1000 + i };
        assert!(task.accepts(&accepted));
        let action: Observing = task.step(accepted);
        match action {
            ObserveAction::Publish { uptime } => assert_eq!(uptime, i),
            _ => panic!("the client waits"),
        }
        let again: ObserveEvent<i32> = ObserveEvent::Accepted { now: 1000 + i };
        assert!(!task.accepts(&again));
        let action: Observing = task.step(ObserveEvent::Written);
        assert!(matches!(action, ObserveAction::Accept));
    }
    let action: Observing = task.step(ObserveEvent::Failed(4));
    assert!(matches!(action, ObserveAction::Fail(4)));
}

#[test]
fn uptime_never_counts_backwards() {
    let (mut task, _): (ObserveTask, Observing) = ObserveTask::observe(Some("path"), 0, 1000);
    let _: Observing = task.step(ObserveEvent::SocketReady);
    let action: Observing = task.step(ObserveEvent::Accepted { now: 999 });
    assert!(matches!(action, ObserveAction::Publish { uptime: 0 }));
}

#[test]
fn shown_state_is_kept() {
    let mut observer = JsonObserver::new("initial");
    assert_eq!(
        *JsonObserver::get_state(Some(&observer), &"default"),
        "initial"
    );
    let ObservableState { uptime, instance } =
        JsonObserver::publish(Some(&mut observer), 7, "shown", "shown");
    assert_eq!(uptime, 7);
    assert_eq!(instance, "shown");
    assert_eq!(
        *JsonObserver::get_state(Some(&observer), &"default"),
        "shown"
    );
}

#[test]
fn newer_state_is_kept() {
    let mut observer = JsonObserver::new("initial");
    let shown = JsonObserver::publish(Some(&mut observer), 7, "shown", "newer");
    assert_eq!(shown.instance, "shown");
    assert_eq!(
        *JsonObserver::get_state(Some(&observer), &"default"),
        "newer"
    );
}

#[test]
fn observer_out_of_reach_keeps_nothing_and_gives_the_default() {
    let shown = JsonObserver::publish(None, 7, "shown", "latest");
    assert_eq!(shown.instance, "shown");
    assert_eq!(*JsonObserver::get_state(None, &"default"), "default");
}

#[test]
fn default_configuration_file() {
    assert_eq!(DEFAULT_CONFIG_FILE, "./statime.toml");
    assert_eq!(
        Args::new(None).config_file,
        Some("./statime.toml".to_string())
    );
    assert_eq!(
        Args::new(Some("other.toml".to_string())).config_file,
        Some("other.toml".to_string())
    );
}
