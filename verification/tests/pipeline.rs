use kdotool::catalog::{GlobalActionKind, WindowActionKind};
use kdotool::context::SessionContext;
use kdotool::directive::{Directive, WindowDetail};
use kdotool::error::{CompileError, StepError};
use kdotool::pipeline::{compile_pipeline, generate_script, GeneratedScript};
use kdotool::window::WindowReference;

fn context() -> SessionContext {
    SessionContext {
        dbus_addr: ":1.234".to_string(),
        cmdline: "kdotool test".to_string(),
        debug: false,
        kde5: false,
        marker: "kdotool-abc123".to_string(),
        script_name: "".to_string(),
        shortcut: "".to_string(),
    }
}

fn compile(first: &str, args: &[&str]) -> Result<GeneratedScript, CompileError> {
    let args: Vec<String> = args.iter().map(|s| s.to_string()).collect();
    compile_pipeline(&context(), &args, first)
}

#[test]
fn search_then_action_compiles_to_two_steps() {
    let script = compile("search", &["foo", "activatewindow"]).unwrap();
    assert_eq!(script.steps.len(), 2);
    assert_eq!(script.steps[0].command, "search");
    match &script.steps[0].directive {
        Directive::Search { term, .. } => assert_eq!(term, "foo"),
        other => panic!("expected a search, got {:?}", other),
    }
    assert_eq!(script.steps[0].next_arg, Some("activatewindow".to_string()));
    assert!(script.steps[0].is_query);
    assert_eq!(script.steps[1].command, "activatewindow");
    assert_eq!(
        script.steps[1].directive,
        Directive::Window {
            kind: WindowActionKind::Activate,
            target: WindowReference::StackIndex(1),
            detail: WindowDetail::Plain,
        }
    );
    assert!(!script.steps[1].is_query);
    assert_eq!(script.last_output, None);
}

#[test]
fn one_fragment_for_each_directive() {
    let script = compile(
        "search",
        &["--class", "term", "savewindowstack", "s", "getactivewindow", "windowclose", "%@", "get_desktop"],
    )
    .unwrap();
    let names: Vec<&str> = script.steps.iter().map(|s| s.command.as_str()).collect();
    assert_eq!(names, vec!["search", "savewindowstack", "getactivewindow", "windowclose", "get_desktop"]);
    let mut expected = script.header.clone();
    for step in &script.steps {
        expected.push_str(&step.script);
    }
    expected.push_str(&script.footer);
    assert_eq!(script.text(), expected);
}

#[test]
fn last_query_reports_its_result() {
    let script = compile("windowclose", &["getactivewindow"]).unwrap();
    assert_eq!(script.steps.len(), 2);
    let trailing = script.last_output.clone().expect("a trailing fragment");
    assert!(trailing.contains("output_result(window_stack[i].internalId)"));
    let text = script.text();
    assert_eq!(text.matches(trailing.as_str()).count(), 1);
    assert!(text.ends_with(&format!("{}{}", trailing, script.footer)));
}

#[test]
fn last_action_reports_nothing_more() {
    let script = compile("getactivewindow", &["windowclose"]).unwrap();
    assert_eq!(script.last_output, None);
    assert!(!script.text().contains("emit last result"));
    let script = compile("loadwindowstack", &["s"]).unwrap();
    assert!(script.last_output.is_some());
    let script = compile("savewindowstack", &["s"]).unwrap();
    assert_eq!(script.last_output, None);
}

#[test]
fn global_action_fragment_is_exact() {
    let script = compile("get_desktop", &[]).unwrap();
    assert_eq!(script.steps.len(), 1);
    assert_eq!(
        script.steps[0].directive,
        Directive::Global { kind: GlobalActionKind::GetDesktop, number: None }
    );
    assert_eq!(
        script.steps[0].script,
        "    output_debug(\"STEP get_desktop\");\n    output_result(get_current_desktop());\n"
    );
}

#[test]
fn set_desktop_fragment_embeds_the_number() {
    let script = compile("set_desktop", &["3"]).unwrap();
    assert_eq!(
        script.steps[0].script,
        "    output_debug(\"STEP set_desktop\");\n    set_current_desktop(3);\n"
    );
}

#[test]
fn window_action_is_wrapped_for_its_target() {
    let script = compile("windowclose", &["%2"]).unwrap();
    assert_eq!(
        script.steps[0].script,
        concat_lines(&[
            "    output_debug(\"STEP windowclose %2\");",
            "    (function () {",
            "        if (2 < 1 || window_stack.length < 2) {",
            "            output_error(\"no window %2 in the stack\");",
            "            return;",
            "        }",
            "        var w = window_stack[2 - 1];",
            "        w.closeWindow();",
            "    })();",
        ])
    );
    let script = compile("windowclose", &["%@"]).unwrap();
    assert_eq!(
        script.steps[0].script,
        concat_lines(&[
            "    output_debug(\"STEP windowclose %@\");",
            "    window_stack.forEach(function (w) {",
            "        w.closeWindow();",
            "    });",
        ])
    );
    let script = compile("windowclose", &["{ab-12}"]).unwrap();
    assert!(script.steps[0].script.contains("String(c.internalId) == \"{ab-12}\""));
    assert!(script.steps[0].script.contains("        w.closeWindow();\n"));
}

fn concat_lines(lines: &[&str]) -> String {
    let mut out = String::new();
    for line in lines {
        out.push_str(line);
        out.push('\n');
    }
    out
}

#[test]
fn windowstate_fragment_lists_the_mutations() {
    let script = compile("windowstate", &["--add", "maximized", "--toggle", "minimized"]).unwrap();
    assert!(script.steps[0]
        .script
        .contains("        w.maximized = true; w.minimized = !w.minimized; \n"));
    let script = compile("windowstate", &["--remove", "ABOVE"]).unwrap();
    assert!(script.steps[0].script.contains("        w.keepAbove = false; \n"));
}

#[test]
fn windowmove_fragment_sets_only_the_given_axes() {
    let script = compile("windowmove", &["x", "50%"]).unwrap();
    let text = &script.steps[0].script;
    assert!(!text.contains("            x = "));
    assert!(text.contains("            y = Math.round(area.height * (50) / 100);\n"));
    let script = compile("windowmove", &["--relative", "-100", "200"]).unwrap();
    let text = &script.steps[0].script;
    assert!(text.contains("            x = g.x + (-100);\n"));
    assert!(text.contains("            y = g.y + (200);\n"));
}

#[test]
fn search_fragment_follows_the_options() {
    let script = compile("search", &["--pid", "42", "--limit", "2", "fire.*fox"]).unwrap();
    let text = &script.steps[0].script;
    assert!(text.contains("new RegExp(String.raw`fire.*fox`, \"i\")"));
    assert!(text.contains("checks.push(w.pid == 42);"));
    assert!(text.contains("checks.push(pattern.test(w.caption));"));
    assert!(text.contains("if (found.length >= 2) { break; }"));
    assert!(text.contains("checks.some(Boolean)"));
    let script = compile("search", &["--name", "--all", "x"]).unwrap();
    let text = &script.steps[0].script;
    assert!(!text.contains("w.resourceClass"));
    assert!(!text.contains("found.length >="));
    assert!(text.contains("checks.every(Boolean)"));
}

#[test]
fn header_and_footer_follow_the_context() {
    let script = compile("getactivewindow", &[]).unwrap();
    assert!(script.header.starts_with("// kdotool test\n"));
    assert!(script.header.contains("var marker = \"kdotool-abc123\";"));
    assert!(script.header.contains("callDBus(\":1.234\", \"/\", \"\", \"result\", String(message));"));
    assert!(script.header.contains("workspace.windowList()"));
    assert!(!script.header.contains("DEBUG"));
    assert!(script.footer.contains("\nrun();\n"));
    assert!(!script.footer.contains("registerShortcut"));

    let mut context = context();
    context.debug = true;
    context.kde5 = true;
    context.shortcut = "Meta+W".to_string();
    context.script_name = "mine".to_string();
    let script = compile_pipeline(&context, &vec![], "getactivewindow").unwrap();
    assert!(script.header.contains("DEBUG"));
    assert!(script.header.contains("workspace.clientList()"));
    assert!(script.footer.contains("registerShortcut(\"mine\", \"mine\", \"Meta+W\", run);"));
    assert!(!script.footer.contains("\nrun();\n"));
}

#[test]
fn generate_script_is_the_text_of_the_pipeline() {
    let args = vec!["foo".to_string(), "getwindowname".to_string()];
    let script = compile_pipeline(&context(), &args, "search").unwrap();
    assert_eq!(generate_script(&context(), &args, "search"), Ok(script.text()));
    assert_eq!(
        generate_script(&context(), &args, "search"),
        generate_script(&context(), &args, "search")
    );
}

#[test]
fn step_error_is_reported_under_its_command() {
    let error = compile("search", &["foo", "windowmove", "abc", "5"]).unwrap_err();
    assert_eq!(
        error,
        CompileError::InCommand {
            command: "windowmove".to_string(),
            cause: StepError::InvalidNumber("abc".to_string()),
        }
    );
    assert_eq!(
        error.message(),
        "in command 'windowmove': cannot parse argument \"abc\": not a number in range"
    );
    assert_eq!(error.cause(), &StepError::InvalidNumber("abc".to_string()));
}

#[test]
fn unknown_command_ends_the_compilation() {
    assert_eq!(
        compile("search", &["foo", "windowdance"]),
        Err(CompileError::InCommand {
            command: "windowdance".to_string(),
            cause: StepError::UnknownCommand("windowdance".to_string()),
        })
    );
}

#[test]
fn option_where_a_command_is_due_is_an_error() {
    assert_eq!(
        compile("getactivewindow", &["--oops"]),
        Err(CompileError::InCommand {
            command: "getactivewindow".to_string(),
            cause: StepError::UnexpectedOption("--oops".to_string()),
        })
    );
    assert_eq!(
        compile("get_desktop", &["-v"]),
        Err(CompileError::InCommand {
            command: "get_desktop".to_string(),
            cause: StepError::UnexpectedOption("-v".to_string()),
        })
    );
}

#[test]
fn double_dash_holds_for_one_directive_only() {
    let script = compile("search", &["--", "--odd", "windowstate", "--add", "above"]).unwrap();
    assert_eq!(script.steps.len(), 2);
    match &script.steps[0].directive {
        Directive::Search { term, .. } => assert_eq!(term, "--odd"),
        other => panic!("expected a search, got {:?}", other),
    }
    assert!(script.steps[1].script.contains("w.keepAbove = true; "));
}

#[test]
fn error_messages_name_what_went_wrong() {
    assert_eq!(
        StepError::UnexpectedOption("--x".to_string()).message(),
        "invalid option '--x'"
    );
    assert_eq!(
        StepError::UnexpectedValue { option: "--all".to_string(), value: "1".to_string() }
            .message(),
        "unexpected argument for option '--all': \"1\""
    );
    assert_eq!(
        StepError::MissingValue { option: "--pid".to_string() }.message(),
        "missing argument for option '--pid'"
    );
    assert_eq!(StepError::MissingArgument("x".to_string()).message(), "missing argument 'x'");
    assert_eq!(
        StepError::UnknownCommand("zap".to_string()).message(),
        "Unknown command: zap"
    );
    assert_eq!(
        StepError::UnsupportedProperty("shiny".to_string()).message(),
        "unsupported property 'shiny'"
    );
    assert_eq!(
        StepError::Render("boom".to_string()).message(),
        "internal error while rendering: boom"
    );
    assert!(StepError::Render("boom".to_string()).is_internal());
    assert!(!StepError::UnknownCommand("zap".to_string()).is_internal());
    assert_eq!(
        CompileError::Frame(StepError::Render("boom".to_string())).message(),
        "internal error while rendering: boom"
    );
}

#[test]
fn every_command_of_the_tables_compiles() {
    for name in kdotool::usage::window_actions() {
        let args: &[&str] = match name {
            "windowmove" | "windowsize" => &["%1", "10", "20%"],
            "set_desktop_for_window" => &["%1", "2"],
            "windowstate" => &["--add", "above", "--remove", "below", "--toggle", "shaded"],
            _ => &[],
        };
        for target in ["%2", "%@", "{1-a}"] {
            let mut with_target: Vec<&str> = args.to_vec();
            if name != "windowstate" {
                if with_target.is_empty() {
                    with_target.push(target);
                } else {
                    with_target[0] = target;
                }
            } else {
                with_target.insert(0, target);
            }
            let script = compile(name, &with_target)
                .unwrap_or_else(|e| panic!("{} {:?}: {}", name, with_target, e.message()));
            assert_eq!(script.steps.len(), 1);
            assert_eq!(script.steps[0].command, name);
            assert_eq!(script.steps[0].next_arg, None);
        }
    }
    for name in kdotool::usage::global_actions() {
        let args: &[&str] = match name {
            "set_desktop" | "set_num_desktops" => &["2"],
            _ => &[],
        };
        let script = compile(name, args).unwrap();
        assert_eq!(script.steps.len(), 1);
        assert!(!script.steps[0].is_query);
    }
    for (name, args) in [
        ("search", vec!["--class", "--classname", "--role", "--name", "--pid", "1", "--desktop", "2", "--screen", "0", "--limit", "5", "--all", "x"]),
        ("getactivewindow", vec![]),
        ("savewindowstack", vec!["a"]),
        ("loadwindowstack", vec!["a"]),
    ] {
        let script = compile(name, &args).unwrap();
        assert_eq!(script.steps.len(), 1);
    }
}

#[test]
fn every_property_has_its_statement() {
    for (key, statement) in [
        ("above", "w.keepAbove = true; "),
        ("below", "w.keepBelow = true; "),
        ("skip_taskbar", "w.skipTaskbar = true; "),
        ("skip_pager", "w.skipPager = true; "),
        ("fullscreen", "w.fullScreen = true; "),
        ("shaded", "w.shade = true; "),
        ("demands_attention", "w.demandsAttention = true; "),
        ("no_border", "w.noBorder = true; "),
        ("minimized", "w.minimized = true; "),
        ("maximized", "w.maximized = true; "),
    ] {
        let script = compile("windowstate", &["--add", key]).unwrap();
        assert!(script.steps[0].script.contains(statement), "{}", key);
    }
}

#[test]
fn decimal_identifier_is_embedded_as_written() {
    let script = compile("windowsize", &["12345", "10", "20"]).unwrap();
    assert_eq!(script.steps.len(), 1);
    assert_eq!(script.steps[0].next_arg, None);
    let text = &script.steps[0].script;
    assert!(text.contains("String(c.internalId) == \"12345\""));
    assert!(text.contains("            width = (10);\n"));
    assert!(text.contains("            height = (20);\n"));
}
