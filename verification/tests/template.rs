use kdotool::catalog::{Fragment, GlobalActionKind, WindowActionKind};
use kdotool::error::StepError;
use kdotool::template::{add_context, render, Binding, Bindings, Scalar};

#[test]
fn render_substitutes_bound_values() {
    let mut bindings = Bindings::new();
    add_context(&mut bindings, "step_name", Scalar::Text("save<1>".to_string()));
    add_context(&mut bindings, "name", Scalar::Text("a\"b".to_string()));
    assert_eq!(
        render(Fragment::SaveStack, &bindings),
        Ok("    output_debug(\"STEP save<1> a\"b\");\n    saved_stacks[\"a\"b\"] = window_stack.slice();\n"
            .to_string())
    );
    let bindings = Bindings::new().with_number("n", -7);
    assert_eq!(
        render(Fragment::GlobalAction(GlobalActionKind::SetDesktop), &bindings),
        Ok("    set_current_desktop(-7);\n".to_string())
    );
}

#[test]
fn render_follows_flags() {
    let base = Bindings::new().with_text("script_name", "mine");
    let at_once = base.with_text("shortcut", "");
    let text = render(Fragment::Footer, &at_once).unwrap();
    assert!(text.contains("\nrun();\n"));
    assert!(!text.contains("registerShortcut"));
    let behind = base.with_text("shortcut", "Meta+W");
    let text = render(Fragment::Footer, &behind).unwrap();
    assert!(text.contains("registerShortcut(\"mine\", \"mine\", \"Meta+W\", run);"));
    assert!(!text.contains("\nrun();\n"));
}

#[test]
fn render_refuses_unbound_placeholder() {
    match render(Fragment::GlobalAction(GlobalActionKind::SetDesktop), &Bindings::new()) {
        Err(StepError::Render(message)) => assert!(!message.is_empty()),
        other => panic!("expected a rendering error, got {:?}", other),
    }
    let without_name = Bindings::new().with_text("step_name", "savewindowstack");
    match render(Fragment::SaveStack, &without_name) {
        Err(error) => assert!(error.is_internal()),
        other => panic!("expected a rendering error, got {:?}", other),
    }
}

#[test]
fn render_needs_no_binding_for_a_plain_fragment() {
    assert_eq!(
        render(Fragment::WindowAction(WindowActionKind::Close), &Bindings::new()),
        Ok("        w.closeWindow();\n".to_string())
    );
}

#[test]
fn render_takes_the_last_binding_of_a_key() {
    let bindings = Bindings::new().with_number("n", 1).with_number("n", 2);
    assert_eq!(
        render(Fragment::GlobalAction(GlobalActionKind::SetNumDesktops), &bindings),
        Ok("    set_desktop_count(2);\n".to_string())
    );
}

#[test]
fn fragment_texts_are_those_of_the_catalog() {
    assert_eq!(Fragment::Header.text(), kdotool::fragments::SCRIPT_HEADER);
    assert_eq!(Fragment::OnStackAll.text(), kdotool::fragments::STEP_ACTION_ON_STACK_ALL);
    assert_eq!(
        Fragment::WindowAction(WindowActionKind::Move).text(),
        kdotool::fragments::ACTION_WINDOWMOVE
    );
    assert_eq!(
        Fragment::GlobalAction(GlobalActionKind::GetDesktop).text(),
        kdotool::fragments::ACTION_GET_DESKTOP
    );
}

#[test]
fn with_leaves_the_base_record_unchanged() {
    let base = Bindings::new().with_number("n", 1);
    let extended = base.with_text("t", "x");
    assert_eq!(
        base.entries,
        vec![Binding { key: "n".to_string(), value: Scalar::Number(1) }]
    );
    assert_eq!(
        extended.entries,
        vec![
            Binding { key: "n".to_string(), value: Scalar::Number(1) },
            Binding { key: "t".to_string(), value: Scalar::Text("x".to_string()) },
        ]
    );
    assert_eq!(base.duplicate(), base);
    assert_eq!(base.with_flag("f", true).entries.len(), 2);
}
