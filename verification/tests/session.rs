use kdotool::context::SessionContext;
use kdotool::session::{
    advance, drain, record, script_path, store_script, summary, Action, Event, Invocation,
    Message, Output, Phase,
};

fn context(shortcut: &str, name: &str, kde5: bool) -> SessionContext {
    SessionContext {
        dbus_addr: ":1.5".to_string(),
        cmdline: "kdotool".to_string(),
        debug: false,
        kde5,
        marker: "kdotool-x".to_string(),
        script_name: name.to_string(),
        shortcut: shortcut.to_string(),
    }
}

fn play(invocation: Invocation, context: &SessionContext, id: i32) -> Vec<Action> {
    let mut actions = Vec::new();
    let mut phase = Phase::Begin;
    let mut event = Event::Begun;
    for _ in 0..20 {
        let (next, action) = advance(invocation, context, phase, event);
        phase = next;
        event = match action {
            Action::Load { .. } => Event::Loaded(id),
            _ => Event::Succeeded,
        };
        let last = matches!(action, Action::Exit | Action::Abort);
        actions.push(action);
        if last {
            break;
        }
    }
    actions
}

fn is_remote_call(action: &Action) -> bool {
    matches!(
        action,
        Action::Unload { .. } | Action::Load { .. } | Action::Run { .. } | Action::Stop { .. }
    )
}

#[test]
fn remove_makes_exactly_one_remote_call() {
    let invocation = Invocation { remove: true, dry_run: false };
    let actions = play(invocation, &context("", "foo", false), 1);
    assert_eq!(
        actions,
        vec![Action::Connect, Action::Unload { name: "foo".to_string() }, Action::Exit]
    );
    assert_eq!(actions.iter().filter(|a| is_remote_call(a)).count(), 1);
    assert!(!actions.contains(&Action::Store));
}

#[test]
fn remove_wins_over_dry_run() {
    let invocation = Invocation { remove: true, dry_run: true };
    let actions = play(invocation, &context("", "foo", false), 1);
    assert_eq!(
        actions,
        vec![Action::Connect, Action::Unload { name: "foo".to_string() }, Action::Exit]
    );
}

#[test]
fn dry_run_makes_no_remote_call() {
    let invocation = Invocation { remove: false, dry_run: true };
    let actions = play(invocation, &context("Meta+X", "n", false), 1);
    assert_eq!(
        actions,
        vec![
            Action::Connect,
            Action::OpenReceiver,
            Action::Store,
            Action::PrintScript,
            Action::Exit
        ]
    );
    assert_eq!(actions.iter().filter(|a| is_remote_call(a)).count(), 0);
}

#[test]
fn dry_run_stores_the_same_script_as_a_run() {
    let context = context("", "", false);
    let args = vec!["foo".to_string(), "windowactivate".to_string()];
    let dry = store_script(Invocation { remove: false, dry_run: true }, &context, &args, "search");
    let full = store_script(Invocation { remove: false, dry_run: false }, &context, &args, "search");
    assert!(dry.is_ok());
    assert_eq!(dry, full);
}

#[test]
fn run_stops_the_script_at_once() {
    let invocation = Invocation { remove: false, dry_run: false };
    let actions = play(invocation, &context("", "", false), 7);
    assert_eq!(
        actions,
        vec![
            Action::Connect,
            Action::OpenReceiver,
            Action::Store,
            Action::Load { name: "".to_string() },
            Action::Listen,
            Action::Run { path: "/Scripting/Script7".to_string() },
            Action::Stop { path: "/Scripting/Script7".to_string() },
            Action::Drain,
            Action::Exit,
        ]
    );
}

#[test]
fn shortcut_keeps_the_script_running() {
    let invocation = Invocation { remove: false, dry_run: false };
    let actions = play(invocation, &context("Meta+X", "mine", true), 12);
    assert_eq!(
        actions,
        vec![
            Action::Connect,
            Action::OpenReceiver,
            Action::Store,
            Action::Load { name: "mine".to_string() },
            Action::Listen,
            Action::Run { path: "/12".to_string() },
            Action::Drain,
            Action::Summarise { id: 12 },
            Action::Exit,
        ]
    );
}

#[test]
fn failure_ends_the_session() {
    let invocation = Invocation { remove: false, dry_run: false };
    let context = context("", "", false);
    for phase in [
        Phase::Begin,
        Phase::Connecting,
        Phase::Unloading,
        Phase::Addressing,
        Phase::Storing,
        Phase::Printing,
        Phase::Loading,
        Phase::Listening(1),
        Phase::Running(1),
        Phase::Stopping(1),
        Phase::Draining(1),
        Phase::Summarising(1),
        Phase::Finished,
        Phase::Aborted,
    ] {
        assert_eq!(
            advance(invocation, &context, phase, Event::Failed),
            (Phase::Aborted, Action::Abort)
        );
    }
}

#[test]
fn unexpected_event_ends_the_session() {
    let invocation = Invocation { remove: false, dry_run: false };
    let context = context("", "", false);
    assert_eq!(
        advance(invocation, &context, Phase::Loading, Event::Succeeded),
        (Phase::Aborted, Action::Abort)
    );
    assert_eq!(
        advance(invocation, &context, Phase::Finished, Event::Succeeded),
        (Phase::Aborted, Action::Abort)
    );
    assert_eq!(
        advance(invocation, &context, Phase::Running(3), Event::Loaded(4)),
        (Phase::Aborted, Action::Abort)
    );
}

#[test]
fn script_path_follows_the_host_version() {
    assert_eq!(script_path(true, 0), "/0");
    assert_eq!(script_path(false, 0), "/Scripting/Script0");
    assert_eq!(script_path(true, -3), "/-3");
    assert_eq!(script_path(false, 2147483647), "/Scripting/Script2147483647");
    assert_eq!(script_path(false, -2147483648), "/Scripting/Script-2147483648");
}

#[test]
fn messages_are_printed_in_arrival_order() {
    let mut log: Vec<Message> = Vec::new();
    record(&mut log, "result", "{1-2}");
    record(&mut log, "error", "no window");
    record(&mut log, "debug", "step 1");
    record(&mut log, "result", "");
    assert_eq!(
        log[1],
        Message { tag: "error".to_string(), payload: "no window".to_string() }
    );
    assert_eq!(
        drain(&log),
        vec![
            Output::Standard("{1-2}".to_string()),
            Output::Diagnostic("ERROR: no window".to_string()),
            Output::Standard("debug: step 1".to_string()),
            Output::Standard("".to_string()),
        ]
    );
    assert_eq!(drain(&Vec::new()), Vec::<Output>::new());
}

#[test]
fn summary_names_the_script_if_it_has_a_name() {
    assert_eq!(
        summary(&context("Meta+X", "mine", false), 4),
        vec!["Shortcut registered: Meta+X", "Script ID: 4", "Script name: mine"]
    );
    assert_eq!(
        summary(&context("Meta+X", "", false), -4),
        vec!["Shortcut registered: Meta+X", "Script ID: -4"]
    );
}

#[test]
fn context_is_persistent_with_a_shortcut() {
    assert!(context("a", "", false).persistent());
    assert!(!context("", "named", false).persistent());
}

#[test]
fn removal_never_stores_whatever_happens() {
    let invocation = Invocation { remove: true, dry_run: false };
    let context = context("Meta+X", "foo", false);
    let events = [Event::Begun, Event::Succeeded, Event::Loaded(3), Event::Failed];
    for a in events {
        for b in events {
            for c in events {
                for d in events {
                    let mut phase = Phase::Begin;
                    let mut calls = 0;
                    for event in [a, b, c, d] {
                        let (next, action) = advance(invocation, &context, phase, event);
                        phase = next;
                        assert!(matches!(
                            action,
                            Action::Connect | Action::Unload { .. } | Action::Exit | Action::Abort
                        ));
                        if let Action::Unload { name } = &action {
                            assert_eq!(name, "foo");
                            calls += 1;
                        }
                    }
                    assert!(calls <= 1);
                }
            }
        }
    }
}
