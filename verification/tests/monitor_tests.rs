use wpe_broadcast::monitor::{
    classify, AppStructure, MessageMonitor, MonitorOutcome, Notification, Reaction,
};
use wpe_broadcast::pipeline::LifecycleState;

fn runtime_error(path: Option<&str>, msg: &str, debug: Option<&str>) -> Notification {
    Notification::RuntimeError {
        src_path: path.map(String::from),
        message: String::from(msg),
        debug: debug.map(String::from),
    }
}

#[test]
fn runtime_error_terminates_with_both_texts() {
    let r = classify(&runtime_error(Some("X"), "Y", None));
    match r {
        Reaction::Terminate { diagnostic } => {
            assert!(diagnostic.contains("X"));
            assert!(diagnostic.contains("Y"));
        }
        _ => panic!("a runtime error must terminate"),
    }
}

#[test]
fn runtime_error_diagnostic_exact() {
    match classify(&runtime_error(Some("X"), "Y", None)) {
        Reaction::Terminate { diagnostic } => assert_eq!(diagnostic, "Error from X: Y"),
        _ => panic!("a runtime error must terminate"),
    }
    match classify(&runtime_error(Some("p"), "boom", Some("detail"))) {
        Reaction::Terminate { diagnostic } => assert_eq!(diagnostic, "Error from p: boom (detail)"),
        _ => panic!("a runtime error must terminate"),
    }
    match classify(&runtime_error(None, "boom", None)) {
        Reaction::Terminate { diagnostic } => assert_eq!(diagnostic, "Error from <unknown>: boom"),
        _ => panic!("a runtime error must terminate"),
    }
}

#[test]
fn warning_application_message_escalates() {
    let n = Notification::Application {
        structure: Some(AppStructure {
            name: String::from("warning"),
            text: Some(String::from("worker gave up")),
        }),
    };
    match classify(&n) {
        Reaction::Terminate { diagnostic } => assert_eq!(diagnostic, "worker gave up"),
        _ => panic!("a warning application message must terminate"),
    }
}

#[test]
fn other_application_messages_ignored() {
    let n = Notification::Application {
        structure: Some(AppStructure {
            name: String::from("progress"),
            text: Some(String::from("fine")),
        }),
    };
    assert!(matches!(classify(&n), Reaction::Ignore));
    let n = Notification::Application { structure: None };
    assert!(matches!(classify(&n), Reaction::Ignore));
}

#[test]
fn top_level_state_change_snapshots() {
    let n = Notification::StateChanged {
        from_top_level: true,
        old_state: LifecycleState::Ready,
        new_state: LifecycleState::Playing,
    };
    match classify(&n) {
        Reaction::Snapshot { filename } => {
            assert_eq!(filename, "gst-wpe-broadcast-demo-Ready_to_Playing")
        }
        _ => panic!("a top-level state change must snapshot"),
    }
}

#[test]
fn child_state_change_ignored() {
    let n = Notification::StateChanged {
        from_top_level: false,
        old_state: LifecycleState::Null,
        new_state: LifecycleState::Ready,
    };
    assert!(matches!(classify(&n), Reaction::Ignore));
}

#[test]
fn async_done_snapshots_fixed_name() {
    match classify(&Notification::AsyncDone) {
        Reaction::Snapshot { filename } => {
            assert_eq!(filename, "gst-wpe-broadcast-demo-async-done")
        }
        _ => panic!("a completed async transition must snapshot"),
    }
}

#[test]
fn unknown_notifications_ignored() {
    assert!(matches!(classify(&Notification::Other), Reaction::Ignore));
}

#[test]
fn live_owner_dispatches() {
    let mut m = MessageMonitor::new();
    let r = m.handle(true, &Notification::AsyncDone);
    assert!(matches!(r, MonitorOutcome::Reacted(Reaction::Snapshot { .. })));
    assert!(m.engaged);
}

#[test]
fn released_owner_disengages_permanently() {
    let mut m = MessageMonitor::new();
    assert!(matches!(
        m.handle(false, &Notification::AsyncDone),
        MonitorOutcome::Disengaged
    ));
    assert!(!m.engaged);
    // The owner is gone for good: even later notifications whose handle
    // would resolve again produce no dispatch.
    assert!(matches!(
        m.handle(true, &runtime_error_like()),
        MonitorOutcome::Disengaged
    ));
    assert!(matches!(
        m.handle(true, &Notification::AsyncDone),
        MonitorOutcome::Disengaged
    ));
    assert!(!m.engaged);
}

fn runtime_error_like() -> Notification {
    Notification::RuntimeError {
        src_path: Some(String::from("X")),
        message: String::from("Y"),
        debug: None,
    }
}
