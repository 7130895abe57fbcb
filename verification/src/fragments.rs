//! The closed catalog of script fragments.
//!
//! Each fragment is a `handlebars` template in the scripting host's language.
//! A placeholder in two braces is escaped for markup, so values that must
//! arrive unchanged stand in three.

use vstd::prelude::*;

verus! {

/// Opens the script: the reporting functions, the host-version shims, and the
/// head of the function that holds the steps.
pub const SCRIPT_HEADER: &'static str = r#"// {{{cmdline}}}
(function () {
var marker = "{{{marker}}}";
function output_debug(message) {
{{#if debug}}    print(marker + " DEBUG " + message);
{{/if}}}
function output_error(message) {
    print(marker + " ERROR " + message);
    callDBus("{{{dbus_addr}}}", "/", "", "error", String(message));
}
function output_result(message) {
    output_debug("RESULT " + message);
    callDBus("{{{dbus_addr}}}", "/", "", "result", String(message));
}
{{#if kde5}}
function all_windows() { return workspace.clientList(); }
function active_window() { return workspace.activeClient; }
function activate_window(w) { workspace.activeClient = w; }
function raise_window(w) { output_error("windowraise needs a newer host"); }
function get_geometry(w) { return w.geometry; }
function set_geometry(w, g) { w.geometry = g; }
function get_window_desktop(w) { return w.desktop; }
function set_window_desktop(w, n) { w.desktop = n; }
function get_current_desktop() { return workspace.currentDesktop; }
function set_current_desktop(n) { workspace.currentDesktop = n; }
function get_desktop_count() { return workspace.desktops; }
function set_desktop_count(n) { workspace.desktops = n; }
{{else}}
function all_windows() { return workspace.windowList(); }
function active_window() { return workspace.activeWindow; }
function activate_window(w) { workspace.activeWindow = w; }
function raise_window(w) { workspace.raiseWindow(w); }
function get_geometry(w) { return w.frameGeometry; }
function set_geometry(w, g) { w.frameGeometry = g; }
function get_window_desktop(w) {
    return w.desktops.length > 0 ? w.desktops[0].x11DesktopNumber : -1;
}
function set_window_desktop(w, n) {
    var hits = workspace.desktops.filter(function (d) { return d.x11DesktopNumber == n; });
    if (hits.length > 0) { w.desktops = [hits[0]]; } else { output_error("no desktop " + n); }
}
function get_current_desktop() { return workspace.currentDesktop.x11DesktopNumber; }
function set_current_desktop(n) {
    var hits = workspace.desktops.filter(function (d) { return d.x11DesktopNumber == n; });
    if (hits.length > 0) { workspace.currentDesktop = hits[0]; } else { output_error("no desktop " + n); }
}
function get_desktop_count() { return workspace.desktops.length; }
function set_desktop_count(n) { output_error("set_num_desktops needs an older host"); }
{{/if}}
var saved_stacks = {};
function run() {
    var window_stack = [];
"#;

/// Closes the script: runs the steps at once, or binds them to a shortcut.
pub const SCRIPT_FOOTER: &'static str = r#"}
{{#if shortcut}}
registerShortcut("{{{script_name}}}", "{{{script_name}}}", "{{{shortcut}}}", run);
{{else}}
run();
{{/if}}
})();
"#;

/// Reports the identifiers of the windows that the last query left.
pub const STEP_LAST_OUTPUT: &'static str = r#"    output_debug("STEP emit last result");
    for (var i = 0; i < window_stack.length; i++) {
        output_result(window_stack[i].internalId);
    }
"#;

/// Fills the stack with the windows that match the search.
pub const STEP_SEARCH: &'static str = r#"    output_debug("STEP {{{step_name}}} {{{search_term}}}");
    (function () {
        var pattern = new RegExp(String.raw`{{{search_term}}}`, "i");
        var candidates = all_windows();
        var found = [];
        for (var i = 0; i < candidates.length; i++) {
            var w = candidates[i];
            var checks = [];
{{#if match_class}}            checks.push(pattern.test(w.resourceClass));
{{/if}}{{#if match_classname}}            checks.push(pattern.test(w.resourceName));
{{/if}}{{#if match_role}}            checks.push(pattern.test(w.windowRole));
{{/if}}{{#if match_name}}            checks.push(pattern.test(w.caption));
{{/if}}{{#if match_pid}}            checks.push(w.pid == {{pid}});
{{/if}}{{#if match_desktop}}            checks.push(get_window_desktop(w) == {{desktop}});
{{/if}}{{#if match_screen}}            checks.push(w.screen == {{screen}});
{{/if}}{{#if match_all}}            var hit = checks.every(Boolean);
{{else}}            var hit = checks.some(Boolean);
{{/if}}            if (hit) { found.push(w); }
{{#if limit}}            if (found.length >= {{limit}}) { break; }
{{/if}}        }
        window_stack = found;
    })();
"#;

/// Makes the active window the only entry of the stack.
pub const STEP_GETACTIVEWINDOW: &'static str = r#"    output_debug("STEP {{{step_name}}}");
    window_stack = [active_window()];
"#;

/// Keeps a copy of the stack under a name.
pub const STEP_SAVEWINDOWSTACK: &'static str = r#"    output_debug("STEP {{{step_name}}} {{{name}}}");
    saved_stacks["{{{name}}}"] = window_stack.slice();
"#;

/// Brings back the stack kept under a name.
pub const STEP_LOADWINDOWSTACK: &'static str = r#"    output_debug("STEP {{{step_name}}} {{{name}}}");
    if (saved_stacks.hasOwnProperty("{{{name}}}")) {
        window_stack = saved_stacks["{{{name}}}"].slice();
    } else {
        output_error("no window stack named {{{name}}}");
        window_stack = [];
    }
"#;

/// Applies an action to the window with an explicit identifier.
pub const STEP_ACTION_ON_WINDOW_ID: &'static str = r#"    output_debug("STEP {{{step_name}}} {{{window_id}}}");
    (function () {
        var hits = all_windows().filter(function (c) {
            return String(c.internalId) == "{{{window_id}}}";
        });
        if (hits.length == 0) {
            output_error("no window {{{window_id}}}");
            return;
        }
        var w = hits[0];
{{{action}}}    })();
"#;

/// Applies an action to one numbered entry of the stack.
pub const STEP_ACTION_ON_STACK_ITEM: &'static str = r#"    output_debug("STEP {{{step_name}}} %{{item_index}}");
    (function () {
        if ({{item_index}} < 1 || window_stack.length < {{item_index}}) {
            output_error("no window %{{item_index}} in the stack");
            return;
        }
        var w = window_stack[{{item_index}} - 1];
{{{action}}}    })();
"#;

/// Applies an action to every entry of the stack.
pub const STEP_ACTION_ON_STACK_ALL: &'static str = r#"    output_debug("STEP {{{step_name}}} %@");
    window_stack.forEach(function (w) {
{{{action}}}    });
"#;

/// Holds an action that addresses no window.
pub const STEP_GLOBAL_ACTION: &'static str = r#"    output_debug("STEP {{{step_name}}}");
{{{action}}}"#;

pub const ACTION_WINDOWACTIVATE: &'static str = r#"        activate_window(w);
"#;

pub const ACTION_WINDOWCLOSE: &'static str = r#"        w.closeWindow();
"#;

pub const ACTION_WINDOWMINIMIZE: &'static str = r#"        w.minimized = true;
"#;

pub const ACTION_WINDOWRAISE: &'static str = r#"        raise_window(w);
"#;

pub const ACTION_GETWINDOWNAME: &'static str = r#"        output_result(w.caption);
"#;

pub const ACTION_GETWINDOWCLASSNAME: &'static str = r#"        output_result(w.resourceClass);
"#;

pub const ACTION_GETWINDOWPID: &'static str = r#"        output_result(w.pid);
"#;

pub const ACTION_GETWINDOWID: &'static str = r#"        output_result(w.internalId);
"#;

pub const ACTION_GETWINDOWGEOMETRY: &'static str = r#"        (function () {
            var g = get_geometry(w);
            output_result("Window " + w.internalId);
            output_result("  Position: " + g.x + "," + g.y);
            output_result("  Geometry: " + g.width + "x" + g.height);
        })();
"#;

pub const ACTION_GET_DESKTOP_FOR_WINDOW: &'static str = r#"        output_result(get_window_desktop(w));
"#;

pub const ACTION_SET_DESKTOP_FOR_WINDOW: &'static str = r#"        set_window_desktop(w, {{desktop_id}});
"#;

pub const ACTION_WINDOWSTATE: &'static str = r#"        {{{windowstate}}}
"#;

pub const ACTION_WINDOWMOVE: &'static str = r#"        (function () {
            var g = get_geometry(w);
            var area = workspace.clientArea(0, w);
            var x = g.x;
            var y = g.y;
{{#if x}}            x = {{#if relative}}g.x + {{/if}}({{{x}}});
{{/if}}{{#if x_percent}}            x = {{#if relative}}g.x + {{/if}}Math.round(area.width * ({{{x_percent}}}) / 100);
{{/if}}{{#if y}}            y = {{#if relative}}g.y + {{/if}}({{{y}}});
{{/if}}{{#if y_percent}}            y = {{#if relative}}g.y + {{/if}}Math.round(area.height * ({{{y_percent}}}) / 100);
{{/if}}            set_geometry(w, { x: x, y: y, width: g.width, height: g.height });
        })();
"#;

pub const ACTION_WINDOWSIZE: &'static str = r#"        (function () {
            var g = get_geometry(w);
            var area = workspace.clientArea(0, w);
            var width = g.width;
            var height = g.height;
{{#if x}}            width = ({{{x}}});
{{/if}}{{#if x_percent}}            width = Math.round(area.width * ({{{x_percent}}}) / 100);
{{/if}}{{#if y}}            height = ({{{y}}});
{{/if}}{{#if y_percent}}            height = Math.round(area.height * ({{{y_percent}}}) / 100);
{{/if}}            set_geometry(w, { x: g.x, y: g.y, width: width, height: height });
        })();
"#;

pub const ACTION_GET_DESKTOP: &'static str = r#"    output_result(get_current_desktop());
"#;

pub const ACTION_SET_DESKTOP: &'static str = r#"    set_current_desktop({{n}});
"#;

pub const ACTION_GET_NUM_DESKTOPS: &'static str = r#"    output_result(get_desktop_count());
"#;

pub const ACTION_SET_NUM_DESKTOPS: &'static str = r#"    set_desktop_count({{n}});
"#;

} // verus!
