//! The closed tables of commands and window properties.

use vstd::prelude::*;
use vstd::string::*;

use crate::fragments::{
    ACTION_GETWINDOWCLASSNAME, ACTION_GETWINDOWGEOMETRY, ACTION_GETWINDOWID,
    ACTION_GETWINDOWNAME, ACTION_GETWINDOWPID, ACTION_GET_DESKTOP,
    ACTION_GET_DESKTOP_FOR_WINDOW, ACTION_GET_NUM_DESKTOPS, ACTION_SET_DESKTOP,
    ACTION_SET_DESKTOP_FOR_WINDOW, ACTION_SET_NUM_DESKTOPS, ACTION_WINDOWACTIVATE,
    ACTION_WINDOWCLOSE, ACTION_WINDOWMINIMIZE, ACTION_WINDOWMOVE, ACTION_WINDOWRAISE,
    ACTION_WINDOWSIZE, ACTION_WINDOWSTATE, SCRIPT_FOOTER, SCRIPT_HEADER,
    STEP_ACTION_ON_STACK_ALL, STEP_ACTION_ON_STACK_ITEM, STEP_ACTION_ON_WINDOW_ID,
    STEP_GETACTIVEWINDOW, STEP_GLOBAL_ACTION, STEP_LAST_OUTPUT, STEP_LOADWINDOWSTACK,
    STEP_SAVEWINDOWSTACK, STEP_SEARCH,
};
use crate::text::same_text;

verus! {

/// An action on one window or on the windows of the stack.
#[derive(Clone, Copy, Debug, PartialEq, Eq)]
pub enum WindowActionKind {
    /// Gives the window the focus.
    Activate,
    /// Closes the window.
    Close,
    /// Reports the window's class.
    GetClassName,
    /// Reports the desktop that the window is on.
    GetDesktop,
    /// Reports the window's position and size.
    GetGeometry,
    /// Reports the window's identifier.
    GetId,
    /// Reports the window's title.
    GetName,
    /// Reports the process that owns the window.
    GetPid,
    /// Minimizes the window.
    Minimize,
    /// Moves the window.
    Move,
    /// Raises the window above the others.
    Raise,
    /// Sends the window to a desktop.
    SetDesktop,
    /// Resizes the window.
    Size,
    /// Changes properties of the window.
    State,
}

/// An action that addresses no window.
#[derive(Clone, Copy, Debug, PartialEq, Eq)]
pub enum GlobalActionKind {
    /// Reports the current desktop.
    GetDesktop,
    /// Reports the number of desktops.
    GetNumDesktops,
    /// Switches to a desktop.
    SetDesktop,
    /// Sets the number of desktops.
    SetNumDesktops,
}

/// What a command name stands for.
#[derive(Clone, Copy, Debug, PartialEq, Eq)]
pub enum Command {
    Search,
    ActiveWindow,
    SaveStack,
    LoadStack,
    Window(WindowActionKind),
    Global(GlobalActionKind),
}

/// The window action that a name stands for.
pub open spec fn window_action_of(name: Seq<char>) -> Option<WindowActionKind> {
    if name == "windowactivate"@ || name == "activatewindow"@ {
        Some(WindowActionKind::Activate)
    } else if name == "windowclose"@ {
        Some(WindowActionKind::Close)
    } else if name == "getwindowclassname"@ {
        Some(WindowActionKind::GetClassName)
    } else if name == "get_desktop_for_window"@ {
        Some(WindowActionKind::GetDesktop)
    } else if name == "getwindowgeometry"@ {
        Some(WindowActionKind::GetGeometry)
    } else if name == "getwindowid"@ {
        Some(WindowActionKind::GetId)
    } else if name == "getwindowname"@ {
        Some(WindowActionKind::GetName)
    } else if name == "getwindowpid"@ {
        Some(WindowActionKind::GetPid)
    } else if name == "windowminimize"@ {
        Some(WindowActionKind::Minimize)
    } else if name == "windowmove"@ {
        Some(WindowActionKind::Move)
    } else if name == "windowraise"@ {
        Some(WindowActionKind::Raise)
    } else if name == "set_desktop_for_window"@ {
        Some(WindowActionKind::SetDesktop)
    } else if name == "windowsize"@ {
        Some(WindowActionKind::Size)
    } else if name == "windowstate"@ {
        Some(WindowActionKind::State)
    } else {
        None
    }
}

/// The global action that a name stands for.
pub open spec fn global_action_of(name: Seq<char>) -> Option<GlobalActionKind> {
    if name == "get_desktop"@ {
        Some(GlobalActionKind::GetDesktop)
    } else if name == "get_num_desktops"@ {
        Some(GlobalActionKind::GetNumDesktops)
    } else if name == "set_desktop"@ {
        Some(GlobalActionKind::SetDesktop)
    } else if name == "set_num_desktops"@ {
        Some(GlobalActionKind::SetNumDesktops)
    } else {
        None
    }
}

/// The command that a name stands for: the four built-in directives first,
/// then the table of window actions, then that of global actions.
pub open spec fn command_of(name: Seq<char>) -> Option<Command> {
    if name == "search"@ {
        Some(Command::Search)
    } else if name == "getactivewindow"@ {
        Some(Command::ActiveWindow)
    } else if name == "savewindowstack"@ {
        Some(Command::SaveStack)
    } else if name == "loadwindowstack"@ {
        Some(Command::LoadStack)
    } else {
        match window_action_of(name) {
            Some(kind) => Some(Command::Window(kind)),
            None => match global_action_of(name) {
                Some(kind) => Some(Command::Global(kind)),
                None => None,
            },
        }
    }
}

/// Looks a name up in the table of window actions.
pub fn window_action(name: &str) -> (r: Option<WindowActionKind>)
    ensures
        r == window_action_of(name@),
{
    if same_text(name, "windowactivate") || same_text(name, "activatewindow") {
        Some(WindowActionKind::Activate)
    } else if same_text(name, "windowclose") {
        Some(WindowActionKind::Close)
    } else if same_text(name, "getwindowclassname") {
        Some(WindowActionKind::GetClassName)
    } else if same_text(name, "get_desktop_for_window") {
        Some(WindowActionKind::GetDesktop)
    } else if same_text(name, "getwindowgeometry") {
        Some(WindowActionKind::GetGeometry)
    } else if same_text(name, "getwindowid") {
        Some(WindowActionKind::GetId)
    } else if same_text(name, "getwindowname") {
        Some(WindowActionKind::GetName)
    } else if same_text(name, "getwindowpid") {
        Some(WindowActionKind::GetPid)
    } else if same_text(name, "windowminimize") {
        Some(WindowActionKind::Minimize)
    } else if same_text(name, "windowmove") {
        Some(WindowActionKind::Move)
    } else if same_text(name, "windowraise") {
        Some(WindowActionKind::Raise)
    } else if same_text(name, "set_desktop_for_window") {
        Some(WindowActionKind::SetDesktop)
    } else if same_text(name, "windowsize") {
        Some(WindowActionKind::Size)
    } else if same_text(name, "windowstate") {
        Some(WindowActionKind::State)
    } else {
        None
    }
}

/// Looks a name up in the table of global actions.
pub fn global_action(name: &str) -> (r: Option<GlobalActionKind>)
    ensures
        r == global_action_of(name@),
{
    if same_text(name, "get_desktop") {
        Some(GlobalActionKind::GetDesktop)
    } else if same_text(name, "get_num_desktops") {
        Some(GlobalActionKind::GetNumDesktops)
    } else if same_text(name, "set_desktop") {
        Some(GlobalActionKind::SetDesktop)
    } else if same_text(name, "set_num_desktops") {
        Some(GlobalActionKind::SetNumDesktops)
    } else {
        None
    }
}

impl Command {
    /// Looks a command name up. `None` for a name in none of the tables.
    pub fn from_name(name: &str) -> (r: Option<Command>)
        ensures
            r == command_of(name@),
    {
        if same_text(name, "search") {
            Some(Command::Search)
        } else if same_text(name, "getactivewindow") {
            Some(Command::ActiveWindow)
        } else if same_text(name, "savewindowstack") {
            Some(Command::SaveStack)
        } else if same_text(name, "loadwindowstack") {
            Some(Command::LoadStack)
        } else {
            match window_action(name) {
                Some(kind) => Some(Command::Window(kind)),
                None => match global_action(name) {
                    Some(kind) => Some(Command::Global(kind)),
                    None => None,
                },
            }
        }
    }

    /// Whether the directive leaves a set of windows behind for later
    /// fragments to read.
    pub open spec fn is_query(self) -> bool {
        self is Search || self is ActiveWindow || self is LoadStack
    }

    /// Whether the directive reads arguments at all.
    pub open spec fn reads_arguments(self) -> bool {
        match self {
            Command::ActiveWindow => false,
            Command::Global(kind) => kind is SetDesktop || kind is SetNumDesktops,
            _ => true,
        }
    }

    /// Whether an argument such as `-5` is a number to the directive, where
    /// other directives would see an option.
    pub open spec fn reads_numbers(self) -> bool {
        match self {
            Command::Window(kind) => !(kind is State),
            Command::Global(kind) => kind is SetDesktop || kind is SetNumDesktops,
            _ => false,
        }
    }

    /// Whether the directive leaves a set of windows behind.
    pub fn query(self) -> (r: bool)
        ensures
            r == self.is_query(),
    {
        match self {
            Command::Search => true,
            Command::ActiveWindow => true,
            Command::LoadStack => true,
            _ => false,
        }
    }

    /// Whether the directive reads arguments at all.
    pub fn takes_arguments(self) -> (r: bool)
        ensures
            r == self.reads_arguments(),
    {
        match self {
            Command::ActiveWindow => false,
            Command::Global(GlobalActionKind::SetDesktop) => true,
            Command::Global(GlobalActionKind::SetNumDesktops) => true,
            Command::Global(_) => false,
            _ => true,
        }
    }

    /// Whether an argument such as `-5` is a number to the directive.
    pub fn takes_numbers(self) -> (r: bool)
        ensures
            r == self.reads_numbers(),
    {
        match self {
            Command::Window(WindowActionKind::State) => false,
            Command::Window(_) => true,
            Command::Global(GlobalActionKind::SetDesktop) => true,
            Command::Global(GlobalActionKind::SetNumDesktops) => true,
            _ => false,
        }
    }
}

impl WindowActionKind {
    /// The body fragment of the action.
    pub open spec fn template(self) -> Seq<char> {
        match self {
            WindowActionKind::Activate => ACTION_WINDOWACTIVATE@,
            WindowActionKind::Close => ACTION_WINDOWCLOSE@,
            WindowActionKind::GetClassName => ACTION_GETWINDOWCLASSNAME@,
            WindowActionKind::GetDesktop => ACTION_GET_DESKTOP_FOR_WINDOW@,
            WindowActionKind::GetGeometry => ACTION_GETWINDOWGEOMETRY@,
            WindowActionKind::GetId => ACTION_GETWINDOWID@,
            WindowActionKind::GetName => ACTION_GETWINDOWNAME@,
            WindowActionKind::GetPid => ACTION_GETWINDOWPID@,
            WindowActionKind::Minimize => ACTION_WINDOWMINIMIZE@,
            WindowActionKind::Move => ACTION_WINDOWMOVE@,
            WindowActionKind::Raise => ACTION_WINDOWRAISE@,
            WindowActionKind::SetDesktop => ACTION_SET_DESKTOP_FOR_WINDOW@,
            WindowActionKind::Size => ACTION_WINDOWSIZE@,
            WindowActionKind::State => ACTION_WINDOWSTATE@,
        }
    }

    /// The body fragment of the action.
    pub fn fragment(self) -> (r: &'static str)
        ensures
            r@ == self.template(),
    {
        match self {
            WindowActionKind::Activate => ACTION_WINDOWACTIVATE,
            WindowActionKind::Close => ACTION_WINDOWCLOSE,
            WindowActionKind::GetClassName => ACTION_GETWINDOWCLASSNAME,
            WindowActionKind::GetDesktop => ACTION_GET_DESKTOP_FOR_WINDOW,
            WindowActionKind::GetGeometry => ACTION_GETWINDOWGEOMETRY,
            WindowActionKind::GetId => ACTION_GETWINDOWID,
            WindowActionKind::GetName => ACTION_GETWINDOWNAME,
            WindowActionKind::GetPid => ACTION_GETWINDOWPID,
            WindowActionKind::Minimize => ACTION_WINDOWMINIMIZE,
            WindowActionKind::Move => ACTION_WINDOWMOVE,
            WindowActionKind::Raise => ACTION_WINDOWRAISE,
            WindowActionKind::SetDesktop => ACTION_SET_DESKTOP_FOR_WINDOW,
            WindowActionKind::Size => ACTION_WINDOWSIZE,
            WindowActionKind::State => ACTION_WINDOWSTATE,
        }
    }
}

impl GlobalActionKind {
    /// The body fragment of the action.
    pub open spec fn template(self) -> Seq<char> {
        match self {
            GlobalActionKind::GetDesktop => ACTION_GET_DESKTOP@,
            GlobalActionKind::GetNumDesktops => ACTION_GET_NUM_DESKTOPS@,
            GlobalActionKind::SetDesktop => ACTION_SET_DESKTOP@,
            GlobalActionKind::SetNumDesktops => ACTION_SET_NUM_DESKTOPS@,
        }
    }

    /// The body fragment of the action.
    pub fn fragment(self) -> (r: &'static str)
        ensures
            r@ == self.template(),
    {
        match self {
            GlobalActionKind::GetDesktop => ACTION_GET_DESKTOP,
            GlobalActionKind::GetNumDesktops => ACTION_GET_NUM_DESKTOPS,
            GlobalActionKind::SetDesktop => ACTION_SET_DESKTOP,
            GlobalActionKind::SetNumDesktops => ACTION_SET_NUM_DESKTOPS,
        }
    }
}

/// A fragment of the catalog. Nothing else is ever handed to the renderer.
#[derive(Clone, Copy, Debug, PartialEq, Eq)]
pub enum Fragment {
    /// Opens the script.
    Header,
    /// Closes the script.
    Footer,
    /// Reports the last result.
    LastOutput,
    /// The body of `search`.
    Search,
    /// The body of `getactivewindow`.
    ActiveWindow,
    /// The body of `savewindowstack`.
    SaveStack,
    /// The body of `loadwindowstack`.
    LoadStack,
    /// Wraps an action for the window with an explicit identifier.
    OnWindowId,
    /// Wraps an action for one numbered entry of the stack.
    OnStackItem,
    /// Wraps an action for every entry of the stack.
    OnStackAll,
    /// Wraps an action that addresses no window.
    OnDesktop,
    /// The body of a window action.
    WindowAction(WindowActionKind),
    /// The body of a global action.
    GlobalAction(GlobalActionKind),
}

impl Fragment {
    /// The template text of the fragment.
    pub open spec fn template(self) -> Seq<char> {
        match self {
            Fragment::Header => SCRIPT_HEADER@,
            Fragment::Footer => SCRIPT_FOOTER@,
            Fragment::LastOutput => STEP_LAST_OUTPUT@,
            Fragment::Search => STEP_SEARCH@,
            Fragment::ActiveWindow => STEP_GETACTIVEWINDOW@,
            Fragment::SaveStack => STEP_SAVEWINDOWSTACK@,
            Fragment::LoadStack => STEP_LOADWINDOWSTACK@,
            Fragment::OnWindowId => STEP_ACTION_ON_WINDOW_ID@,
            Fragment::OnStackItem => STEP_ACTION_ON_STACK_ITEM@,
            Fragment::OnStackAll => STEP_ACTION_ON_STACK_ALL@,
            Fragment::OnDesktop => STEP_GLOBAL_ACTION@,
            Fragment::WindowAction(kind) => kind.template(),
            Fragment::GlobalAction(kind) => kind.template(),
        }
    }

    /// The template text of the fragment.
    pub fn text(self) -> (r: &'static str)
        ensures
            r@ == self.template(),
    {
        match self {
            Fragment::Header => SCRIPT_HEADER,
            Fragment::Footer => SCRIPT_FOOTER,
            Fragment::LastOutput => STEP_LAST_OUTPUT,
            Fragment::Search => STEP_SEARCH,
            Fragment::ActiveWindow => STEP_GETACTIVEWINDOW,
            Fragment::SaveStack => STEP_SAVEWINDOWSTACK,
            Fragment::LoadStack => STEP_LOADWINDOWSTACK,
            Fragment::OnWindowId => STEP_ACTION_ON_WINDOW_ID,
            Fragment::OnStackItem => STEP_ACTION_ON_STACK_ITEM,
            Fragment::OnStackAll => STEP_ACTION_ON_STACK_ALL,
            Fragment::OnDesktop => STEP_GLOBAL_ACTION,
            Fragment::WindowAction(kind) => kind.fragment(),
            Fragment::GlobalAction(kind) => kind.fragment(),
        }
    }
}

/// Whether a text is the template of a fragment of the catalog.
pub open spec fn is_fragment(template: Seq<char>) -> bool {
    exists|fragment: Fragment| template == #[trigger] fragment.template()
}

/// A property of a window that `windowstate` can change.
#[derive(Clone, Copy, Debug, PartialEq, Eq)]
pub enum WindowProperty {
    Above,
    Below,
    SkipTaskbar,
    SkipPager,
    FullScreen,
    Shaded,
    DemandsAttention,
    NoBorder,
    Minimized,
    Maximized,
}

/// How `windowstate` changes a property.
#[derive(Clone, Copy, Debug, PartialEq, Eq)]
pub enum Change {
    /// Switches the property on.
    Add,
    /// Switches the property off.
    Remove,
    /// Switches the property over.
    Toggle,
}

/// One change of one property.
#[derive(Clone, Copy, Debug, PartialEq, Eq)]
pub struct PropertyMutation {
    pub change: Change,
    pub property: WindowProperty,
}

/// The property that a key names. Keys are in lower case.
pub open spec fn property_of(key: Seq<char>) -> Option<WindowProperty> {
    if key == "above"@ {
        Some(WindowProperty::Above)
    } else if key == "below"@ {
        Some(WindowProperty::Below)
    } else if key == "skip_taskbar"@ {
        Some(WindowProperty::SkipTaskbar)
    } else if key == "skip_pager"@ {
        Some(WindowProperty::SkipPager)
    } else if key == "fullscreen"@ {
        Some(WindowProperty::FullScreen)
    } else if key == "shaded"@ {
        Some(WindowProperty::Shaded)
    } else if key == "demands_attention"@ {
        Some(WindowProperty::DemandsAttention)
    } else if key == "no_border"@ {
        Some(WindowProperty::NoBorder)
    } else if key == "minimized"@ {
        Some(WindowProperty::Minimized)
    } else if key == "maximized"@ {
        Some(WindowProperty::Maximized)
    } else {
        None
    }
}

/// The change that a `windowstate` option asks for.
pub open spec fn change_of(option: Seq<char>) -> Option<Change> {
    if option == "add"@ {
        Some(Change::Add)
    } else if option == "remove"@ {
        Some(Change::Remove)
    } else if option == "toggle"@ {
        Some(Change::Toggle)
    } else {
        None
    }
}

/// Looks a key up in the table of properties.
pub fn property(key: &str) -> (r: Option<WindowProperty>)
    ensures
        r == property_of(key@),
{
    if same_text(key, "above") {
        Some(WindowProperty::Above)
    } else if same_text(key, "below") {
        Some(WindowProperty::Below)
    } else if same_text(key, "skip_taskbar") {
        Some(WindowProperty::SkipTaskbar)
    } else if same_text(key, "skip_pager") {
        Some(WindowProperty::SkipPager)
    } else if same_text(key, "fullscreen") {
        Some(WindowProperty::FullScreen)
    } else if same_text(key, "shaded") {
        Some(WindowProperty::Shaded)
    } else if same_text(key, "demands_attention") {
        Some(WindowProperty::DemandsAttention)
    } else if same_text(key, "no_border") {
        Some(WindowProperty::NoBorder)
    } else if same_text(key, "minimized") {
        Some(WindowProperty::Minimized)
    } else if same_text(key, "maximized") {
        Some(WindowProperty::Maximized)
    } else {
        None
    }
}

/// Looks up the change that a `windowstate` option asks for.
pub fn change(option: &str) -> (r: Option<Change>)
    ensures
        r == change_of(option@),
{
    if same_text(option, "add") {
        Some(Change::Add)
    } else if same_text(option, "remove") {
        Some(Change::Remove)
    } else if same_text(option, "toggle") {
        Some(Change::Toggle)
    } else {
        None
    }
}

impl WindowProperty {
    /// The property's name in the scripting host.
    pub open spec fn host_name(self) -> Seq<char> {
        match self {
            WindowProperty::Above => "keepAbove"@,
            WindowProperty::Below => "keepBelow"@,
            WindowProperty::SkipTaskbar => "skipTaskbar"@,
            WindowProperty::SkipPager => "skipPager"@,
            WindowProperty::FullScreen => "fullScreen"@,
            WindowProperty::Shaded => "shade"@,
            WindowProperty::DemandsAttention => "demandsAttention"@,
            WindowProperty::NoBorder => "noBorder"@,
            WindowProperty::Minimized => "minimized"@,
            WindowProperty::Maximized => "maximized"@,
        }
    }

    /// The property's name in the scripting host.
    pub fn script_name(self) -> (r: &'static str)
        ensures
            r@ == self.host_name(),
    {
        match self {
            WindowProperty::Above => "keepAbove",
            WindowProperty::Below => "keepBelow",
            WindowProperty::SkipTaskbar => "skipTaskbar",
            WindowProperty::SkipPager => "skipPager",
            WindowProperty::FullScreen => "fullScreen",
            WindowProperty::Shaded => "shade",
            WindowProperty::DemandsAttention => "demandsAttention",
            WindowProperty::NoBorder => "noBorder",
            WindowProperty::Minimized => "minimized",
            WindowProperty::Maximized => "maximized",
        }
    }
}

impl PropertyMutation {
    /// The statement that carries the change out on the window `w`.
    pub open spec fn statement(self) -> Seq<char> {
        let name = self.property.host_name();
        match self.change {
            Change::Add => "w."@ + name + " = true; "@,
            Change::Remove => "w."@ + name + " = false; "@,
            Change::Toggle => "w."@ + name + " = !w."@ + name + "; "@,
        }
    }

    /// Appends the statement that carries the change out to `script`.
    pub fn append_to(self, script: &mut String)
        ensures
            final(script)@ == old(script)@ + self.statement(),
    {
        let name = self.property.script_name();
        let ghost before = script@;
        script.append("w.");
        script.append(name);
        match self.change {
            Change::Add => {
                script.append(" = true; ");
                assert(script@ =~= before + ("w."@ + name@ + " = true; "@));
            },
            Change::Remove => {
                script.append(" = false; ");
                assert(script@ =~= before + ("w."@ + name@ + " = false; "@));
            },
            Change::Toggle => {
                script.append(" = !w.");
                script.append(name);
                script.append("; ");
                assert(script@ =~= before + ("w."@ + name@ + " = !w."@ + name@ + "; "@));
            },
        }
    }
}

/// The statements of a list of changes, in the order of the list.
pub open spec fn statements(changes: Seq<PropertyMutation>) -> Seq<char>
    decreases changes.len(),
{
    if changes.len() == 0 {
        Seq::empty()
    } else {
        statements(changes.drop_last()) + changes.last().statement()
    }
}

/// Writes out the statements of a list of changes, in the order of the list.
pub fn mutation_script(changes: &Vec<PropertyMutation>) -> (r: String)
    ensures
        r@ == statements(changes@),
{
    let mut script = String::new();
    let n: usize = changes.len();
    let mut i: usize = 0;
    while i < n
        invariant
            0 <= i <= n,
            n == changes@.len(),
            script@ == statements(changes@.subrange(0, i as int)),
        decreases n - i,
    {
        let m = changes[i];
        m.append_to(&mut script);
        proof {
            let upto = changes@.subrange(0, i + 1);
            assert(upto.drop_last() =~= changes@.subrange(0, i as int));
            assert(upto.last() == m);
        }
        i += 1;
    }
    proof {
        assert(changes@.subrange(0, n as int) =~= changes@);
    }
    script
}

} // verus!
