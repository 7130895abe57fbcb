//! The usage text.

use vstd::prelude::*;

use crate::catalog::{global_action_of, window_action_of};
use crate::text::{framed, joined};

verus! {

/// The names of the window actions, in alphabetical order.
pub open spec fn window_action_names() -> Seq<Seq<char>> {
    seq![
        "activatewindow"@,
        "get_desktop_for_window"@,
        "getwindowclassname"@,
        "getwindowgeometry"@,
        "getwindowid"@,
        "getwindowname"@,
        "getwindowpid"@,
        "set_desktop_for_window"@,
        "windowactivate"@,
        "windowclose"@,
        "windowminimize"@,
        "windowmove"@,
        "windowraise"@,
        "windowsize"@,
        "windowstate"@,
    ]
}

/// The names of the global actions, in alphabetical order.
pub open spec fn global_action_names() -> Seq<Seq<char>> {
    seq![
        "get_desktop"@,
        "get_num_desktops"@,
        "set_desktop"@,
        "set_num_desktops"@,
    ]
}

/// The lines before the tables of actions. The last of them is the line of
/// `getactivewindow`; the window actions follow it at once.
pub open spec fn usage_head() -> Seq<Seq<char>> {
    seq![
        "Usage: kdotool [options] <command> [args...]"@,
        ""@,
        "Options:"@,
        "  -h, --help                 Show this help"@,
        "  -v, --version              Show program version"@,
        "  -d, --debug                Enable debug output"@,
        "  -n, --dry-run              Don't actually run the script. Just print it to stdout."@,
        "  --shortcut <shortcut>      Register a shortcut to run the script."@,
        "    --name <name>            Set a name for the shortcut, so you can remove it later."@,
        "  --remove <name>            Remove a previously registered shortcut."@,
        ""@,
        "Commands:"@,
        "  search <term>"@,
        "  getactivewindow"@,
    ]
}

/// The lines behind the tables of actions.
pub open spec fn usage_tail() -> Seq<Seq<char>> {
    seq![
        ""@,
        "Window can be specified as:"@,
        "  %1 - the first window in the stack (default)"@,
        "  %N - the Nth window in the stack"@,
        "  %@ - all windows in the stack"@,
        "  <window id> - the window with the given ID"@,
    ]
}

/// The line of a window action in the usage text.
pub open spec fn window_action_line(name: Seq<char>) -> Seq<char> {
    "  "@ + name + " <window>"@
}

/// The line of a global action in the usage text.
pub open spec fn global_action_line(name: Seq<char>) -> Seq<char> {
    "  "@ + name
}

/// The usage text, line by line: the options, `search` and
/// `getactivewindow`, then one line for each window action and one for each
/// global action, each table in alphabetical order, and the ways to address
/// a window.
pub open spec fn usage_lines() -> Seq<Seq<char>> {
    usage_head() + window_action_names().map_values(|n: Seq<char>| window_action_line(n))
        + global_action_names().map_values(|n: Seq<char>| global_action_line(n)) + usage_tail()
}

/// Every action that the usage text lists is in its table.
pub proof fn lemma_listed_actions_exist()
    ensures
        forall|i: int|
            0 <= i < window_action_names().len() ==> window_action_of(
                #[trigger] window_action_names()[i],
            ) is Some,
        forall|i: int|
            0 <= i < global_action_names().len() ==> global_action_of(
                #[trigger] global_action_names()[i],
            ) is Some,
{
}

/// Every name in the two tables of actions is listed in the usage text.
pub proof fn lemma_actions_are_listed(name: Seq<char>)
    ensures
        window_action_of(name) is Some ==> window_action_names().contains(name),
        global_action_of(name) is Some ==> global_action_names().contains(name),
{
    let windows = window_action_names();
    if window_action_of(name) is Some {
        assert(exists|i: int| 0 <= i < windows.len() && windows[i] == name) by {
            lemma_window_action_index(name);
        }
    }
    let globals = global_action_names();
    if global_action_of(name) is Some {
        assert(exists|i: int| 0 <= i < globals.len() && globals[i] == name) by {
            lemma_global_action_index(name);
        }
    }
}

/// A name of the table of window actions stands at some place of the list.
proof fn lemma_window_action_index(name: Seq<char>)
    requires
        window_action_of(name) is Some,
    ensures
        exists|i: int| 0 <= i < window_action_names().len() && window_action_names()[i] == name,
{
    let names = window_action_names();
    assert(names.len() == 15);
    if name == names[0] {
    } else if name == names[1] {
    } else if name == names[2] {
    } else if name == names[3] {
    } else if name == names[4] {
    } else if name == names[5] {
    } else if name == names[6] {
    } else if name == names[7] {
    } else if name == names[8] {
    } else if name == names[9] {
    } else if name == names[10] {
    } else if name == names[11] {
    } else if name == names[12] {
    } else if name == names[13] {
    } else {
        assert(name == names[14]);
    }
}

/// A name of the table of global actions stands at some place of the list.
proof fn lemma_global_action_index(name: Seq<char>)
    requires
        global_action_of(name) is Some,
    ensures
        exists|i: int| 0 <= i < global_action_names().len() && global_action_names()[i] == name,
{
    let names = global_action_names();
    assert(names.len() == 4);
    if name == names[0] {
    } else if name == names[1] {
    } else if name == names[2] {
    } else {
        assert(name == names[3]);
    }
}

/// The names of the window actions, in alphabetical order.
pub fn window_actions() -> (r: Vec<&'static str>)
    ensures
        r.deep_view() == window_action_names(),
{
    let mut names: Vec<&'static str> = Vec::new();
    names.push("activatewindow");
    names.push("get_desktop_for_window");
    names.push("getwindowclassname");
    names.push("getwindowgeometry");
    names.push("getwindowid");
    names.push("getwindowname");
    names.push("getwindowpid");
    names.push("set_desktop_for_window");
    names.push("windowactivate");
    names.push("windowclose");
    names.push("windowminimize");
    names.push("windowmove");
    names.push("windowraise");
    names.push("windowsize");
    names.push("windowstate");
    assert(names.deep_view() =~= window_action_names());
    names
}

/// The names of the global actions, in alphabetical order.
pub fn global_actions() -> (r: Vec<&'static str>)
    ensures
        r.deep_view() == global_action_names(),
{
    let mut names: Vec<&'static str> = Vec::new();
    names.push("get_desktop");
    names.push("get_num_desktops");
    names.push("set_desktop");
    names.push("set_num_desktops");
    assert(names.deep_view() =~= global_action_names());
    names
}

/// Appends one line for each name to `lines`.
fn list_actions(lines: &mut Vec<String>, names: &Vec<&'static str>, window: bool)
    ensures
        final(lines).deep_view() == old(lines).deep_view() + names.deep_view().map_values(
            |n: Seq<char>|
                if window {
                    window_action_line(n)
                } else {
                    global_action_line(n)
                },
        ),
{
    let n: usize = names.len();
    let mut i: usize = 0;
    let ghost mapped = names.deep_view().map_values(
        |n: Seq<char>|
            if window {
                window_action_line(n)
            } else {
                global_action_line(n)
            },
    );
    assert(lines.deep_view() =~= old(lines).deep_view() + mapped.subrange(0, 0));
    while i < n
        invariant
            0 <= i <= n,
            n == names@.len(),
            mapped == names.deep_view().map_values(
                |n: Seq<char>|
                    if window {
                        window_action_line(n)
                    } else {
                        global_action_line(n)
                    },
            ),
            lines.deep_view() == old(lines).deep_view() + mapped.subrange(0, i as int),
        decreases n - i,
    {
        let ghost before = lines.deep_view();
        let line = if window {
            framed("  ", names[i], " <window>")
        } else {
            joined("  ", names[i])
        };
        assert(names.deep_view()[i as int] == names@[i as int]@);
        assert(line@ == mapped[i as int]);
        lines.push(line);
        assert(lines.deep_view() =~= before.push(line@));
        assert(lines.deep_view() =~= old(lines).deep_view() + mapped.subrange(0, i + 1));
        i += 1;
    }
    assert(mapped.subrange(0, n as int) =~= mapped);
}

/// The usage text, line by line.
pub fn help() -> (r: Vec<String>)
    ensures
        r.deep_view() == usage_lines(),
{
    let mut lines: Vec<String> = Vec::new();
    lines.push("Usage: kdotool [options] <command> [args...]".to_owned());
    lines.push("".to_owned());
    lines.push("Options:".to_owned());
    lines.push("  -h, --help                 Show this help".to_owned());
    lines.push("  -v, --version              Show program version".to_owned());
    lines.push("  -d, --debug                Enable debug output".to_owned());
    lines.push("  -n, --dry-run              Don't actually run the script. Just print it to stdout.".to_owned());
    lines.push("  --shortcut <shortcut>      Register a shortcut to run the script.".to_owned());
    lines.push("    --name <name>            Set a name for the shortcut, so you can remove it later.".to_owned());
    lines.push("  --remove <name>            Remove a previously registered shortcut.".to_owned());
    lines.push("".to_owned());
    lines.push("Commands:".to_owned());
    lines.push("  search <term>".to_owned());
    lines.push("  getactivewindow".to_owned());
    assert(lines.deep_view() =~= usage_head());
    let windows = window_actions();
    list_actions(&mut lines, &windows, true);
    let globals = global_actions();
    list_actions(&mut lines, &globals, false);
    let ghost listed = lines.deep_view();
    lines.push("".to_owned());
    lines.push("Window can be specified as:".to_owned());
    lines.push("  %1 - the first window in the stack (default)".to_owned());
    lines.push("  %N - the Nth window in the stack".to_owned());
    lines.push("  %@ - all windows in the stack".to_owned());
    lines.push("  <window id> - the window with the given ID".to_owned());
    assert(lines.deep_view() =~= listed + usage_tail());
    assert(window_action_names().map_values(|n: Seq<char>| window_action_line(n))
        =~= window_action_names().map_values(
        |n: Seq<char>|
            if true {
                window_action_line(n)
            } else {
                global_action_line(n)
            },
    ));
    assert(global_action_names().map_values(|n: Seq<char>| global_action_line(n))
        =~= global_action_names().map_values(
        |n: Seq<char>|
            if false {
                window_action_line(n)
            } else {
                global_action_line(n)
            },
    ));
    lines
}

} // verus!
