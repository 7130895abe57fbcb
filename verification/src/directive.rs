//! Directives: what one command of a pipeline asks for, once parsed.

use vstd::prelude::*;
use vstd::string::*;

use crate::catalog::{Command, GlobalActionKind, PropertyMutation, WindowActionKind};
use crate::error::{StepError, StepErrorView};
use crate::text::{i32_of_text, is_digit, parse_i32};
use crate::window::{WindowReference, WindowReferenceView};

verus! {

/// What `search` matches windows against.
#[derive(Clone, Copy, Debug, PartialEq, Eq)]
pub struct SearchOptions {
    pub match_class: bool,
    pub match_classname: bool,
    pub match_role: bool,
    pub match_name: bool,
    pub match_pid: bool,
    pub pid: i32,
    pub match_desktop: bool,
    pub desktop: i32,
    pub match_screen: bool,
    pub screen: i32,
    pub limit: u32,
    pub match_all: bool,
}

impl SearchOptions {
    /// Nothing asked for yet.
    pub open spec fn blank() -> SearchOptions {
        SearchOptions {
            match_class: false,
            match_classname: false,
            match_role: false,
            match_name: false,
            match_pid: false,
            pid: 0,
            match_desktop: false,
            desktop: 0,
            match_screen: false,
            screen: 0,
            limit: 0,
            match_all: false,
        }
    }

    /// Whether one of the four text attributes was asked for.
    pub open spec fn names_attribute(self) -> bool {
        self.match_class || self.match_classname || self.match_role || self.match_name
    }

    /// The options with the default filled in: where no text attribute was
    /// asked for, all four are matched. Nothing else changes.
    pub open spec fn with_defaults(self) -> SearchOptions {
        if self.names_attribute() {
            self
        } else {
            SearchOptions {
                match_class: true,
                match_classname: true,
                match_role: true,
                match_name: true,
                ..self
            }
        }
    }

    /// After the defaults are filled in, a text attribute is always matched,
    /// and nothing but the four attribute flags has changed.
    pub proof fn lemma_defaults(self)
        ensures
            self.with_defaults().names_attribute(),
            self.names_attribute() ==> self.with_defaults() == self,
            self.with_defaults().with_defaults() == self.with_defaults(),
            self.with_defaults().match_pid == self.match_pid,
            self.with_defaults().pid == self.pid,
            self.with_defaults().match_desktop == self.match_desktop,
            self.with_defaults().desktop == self.desktop,
            self.with_defaults().match_screen == self.match_screen,
            self.with_defaults().screen == self.screen,
            self.with_defaults().limit == self.limit,
            self.with_defaults().match_all == self.match_all,
    {
    }

    /// Nothing asked for yet.
    pub fn new() -> (r: SearchOptions)
        ensures
            r == SearchOptions::blank(),
    {
        SearchOptions {
            match_class: false,
            match_classname: false,
            match_role: false,
            match_name: false,
            match_pid: false,
            pid: 0,
            match_desktop: false,
            desktop: 0,
            match_screen: false,
            screen: 0,
            limit: 0,
            match_all: false,
        }
    }

    /// Fills in the default: where no text attribute was asked for, all four
    /// are matched.
    pub fn defaulted(self) -> (r: SearchOptions)
        ensures
            r == self.with_defaults(),
    {
        if self.match_class || self.match_classname || self.match_role || self.match_name {
            self
        } else {
            SearchOptions {
                match_class: true,
                match_classname: true,
                match_role: true,
                match_name: true,
                ..self
            }
        }
    }
}

/// One coordinate of `windowmove`, or one extent of `windowsize`.
#[derive(Debug, PartialEq, Eq)]
pub enum Axis {
    /// Left as it is: the axis was given as its own letter.
    Unset,
    /// An absolute number, as written.
    Absolute(String),
    /// A share of the screen in hundredths, as written without the `%`.
    Percent(String),
}

/// The mathematical content of an [`Axis`].
pub enum AxisView {
    Unset,
    Absolute(Seq<char>),
    Percent(Seq<char>),
}

impl View for Axis {
    type V = AxisView;

    open spec fn view(&self) -> AxisView {
        match self {
            Axis::Unset => AxisView::Unset,
            Axis::Absolute(t) => AxisView::Absolute(t@),
            Axis::Percent(t) => AxisView::Percent(t@),
        }
    }
}

/// What an axis argument means. `letter` is the axis's own letter, which
/// leaves it unset. Any other text must write a signed 32-bit number, with or
/// without a trailing `%`.
pub open spec fn axis_of(text: Seq<char>, letter: char) -> Result<AxisView, StepErrorView> {
    if text.len() == 1 && text[0] == letter {
        Ok(AxisView::Unset)
    } else if text.len() >= 1 && text.last() == '%' {
        if i32_of_text(text.drop_last()) is Some {
            Ok(AxisView::Percent(text.drop_last()))
        } else {
            Err(StepErrorView::InvalidNumber(text.drop_last()))
        }
    } else if i32_of_text(text) is Some {
        Ok(AxisView::Absolute(text))
    } else {
        Err(StepErrorView::InvalidNumber(text))
    }
}

/// A text that writes a number is an absolute axis value, as written.
pub proof fn lemma_number_is_absolute(text: Seq<char>, letter: char)
    requires
        i32_of_text(text) is Some,
        letter == 'x' || letter == 'y',
    ensures
        axis_of(text, letter) == Ok::<AxisView, StepErrorView>(AxisView::Absolute(text)),
{
    let last = text.len() - 1;
    if text[0] == '-' || text[0] == '+' {
        let body = text.subrange(1, text.len() as int);
        assert(body.len() > 0);
        assert(is_digit(body[body.len() - 1]));
        assert(body[body.len() - 1] == text[last]);
    } else {
        assert(is_digit(text[last]));
        assert(is_digit(text[0]));
    }
}

/// The view of an axis or the error in its place.
pub open spec fn axis_view(r: Result<Axis, StepError>) -> Result<AxisView, StepErrorView> {
    match r {
        Ok(a) => Ok(a@),
        Err(e) => Err(e@),
    }
}

/// Reads one axis argument.
pub fn parse_axis(text: &str, letter: char) -> (r: Result<Axis, StepError>)
    ensures
        axis_view(r) == axis_of(text@, letter),
{
    let n: usize = text.unicode_len();
    if n == 1 && text.get_char(0) == letter {
        Ok(Axis::Unset)
    } else if n >= 1 && text.get_char(n - 1) == '%' {
        let body = text.substring_char(0, n - 1);
        assert(body@ =~= text@.drop_last());
        match parse_i32(body) {
            Some(_) => Ok(Axis::Percent(body.to_owned())),
            None => Err(StepError::InvalidNumber(body.to_owned())),
        }
    } else {
        match parse_i32(text) {
            Some(_) => Ok(Axis::Absolute(text.to_owned())),
            None => Err(StepError::InvalidNumber(text.to_owned())),
        }
    }
}

/// What a window action needs besides its target.
#[derive(Debug, PartialEq, Eq)]
pub enum WindowDetail {
    /// Nothing.
    Plain,
    /// The property changes of `windowstate`, in the order given.
    State(Vec<PropertyMutation>),
    /// The two axes of `windowmove` or `windowsize`.
    Geometry { relative: bool, x: Axis, y: Axis },
    /// The desktop of `set_desktop_for_window`.
    Desktop(i32),
}

/// The mathematical content of a [`WindowDetail`].
pub enum WindowDetailView {
    Plain,
    State(Seq<PropertyMutation>),
    Geometry { relative: bool, x: AxisView, y: AxisView },
    Desktop(i32),
}

impl View for WindowDetail {
    type V = WindowDetailView;

    open spec fn view(&self) -> WindowDetailView {
        match self {
            WindowDetail::Plain => WindowDetailView::Plain,
            WindowDetail::State(changes) => WindowDetailView::State(changes@),
            WindowDetail::Geometry { relative, x, y } => WindowDetailView::Geometry {
                relative: *relative,
                x: x@,
                y: y@,
            },
            WindowDetail::Desktop(n) => WindowDetailView::Desktop(*n),
        }
    }
}

/// One parsed command of a pipeline.
#[allow(inconsistent_fields)]
#[derive(Debug, PartialEq, Eq)]
pub enum Directive {
    /// Fill the stack with the windows that match.
    Search { options: SearchOptions, term: String },
    /// Make the active window the stack.
    ActiveWindow,
    /// Keep the stack under a name.
    SaveStack { name: String },
    /// Bring back the stack kept under a name.
    LoadStack { name: String },
    /// Act on a window, or on the windows of the stack.
    Window { kind: WindowActionKind, target: WindowReference, detail: WindowDetail },
    /// Act on the desktop as a whole.
    Global { kind: GlobalActionKind, number: Option<i32> },
}

/// The mathematical content of a [`Directive`].
#[allow(inconsistent_fields)]
pub enum DirectiveView {
    Search { options: SearchOptions, term: Seq<char> },
    ActiveWindow,
    SaveStack { name: Seq<char> },
    LoadStack { name: Seq<char> },
    Window { kind: WindowActionKind, target: WindowReferenceView, detail: WindowDetailView },
    Global { kind: GlobalActionKind, number: Option<i32> },
}

impl View for Directive {
    type V = DirectiveView;

    open spec fn view(&self) -> DirectiveView {
        match self {
            Directive::Search { options, term } => DirectiveView::Search {
                options: *options,
                term: term@,
            },
            Directive::ActiveWindow => DirectiveView::ActiveWindow,
            Directive::SaveStack { name } => DirectiveView::SaveStack { name: name@ },
            Directive::LoadStack { name } => DirectiveView::LoadStack { name: name@ },
            Directive::Window { kind, target, detail } => DirectiveView::Window {
                kind: *kind,
                target: target@,
                detail: detail@,
            },
            Directive::Global { kind, number } => DirectiveView::Global {
                kind: *kind,
                number: *number,
            },
        }
    }
}

impl DirectiveView {
    /// The command that the directive is an instance of.
    pub open spec fn command(self) -> Command {
        match self {
            DirectiveView::Search { .. } => Command::Search,
            DirectiveView::ActiveWindow => Command::ActiveWindow,
            DirectiveView::SaveStack { .. } => Command::SaveStack,
            DirectiveView::LoadStack { .. } => Command::LoadStack,
            DirectiveView::Window { kind, .. } => Command::Window(kind),
            DirectiveView::Global { kind, .. } => Command::Global(kind),
        }
    }

    /// Whether the directive leaves a set of windows behind.
    pub open spec fn is_query(self) -> bool {
        self.command().is_query()
    }
}

impl Directive {
    /// The command that the directive is an instance of.
    pub fn command(&self) -> (r: Command)
        ensures
            r == self@.command(),
    {
        match self {
            Directive::Search { .. } => Command::Search,
            Directive::ActiveWindow => Command::ActiveWindow,
            Directive::SaveStack { .. } => Command::SaveStack,
            Directive::LoadStack { .. } => Command::LoadStack,
            Directive::Window { kind, .. } => Command::Window(*kind),
            Directive::Global { kind, .. } => Command::Global(*kind),
        }
    }

    /// Whether the directive leaves a set of windows behind.
    pub fn is_query(&self) -> (r: bool)
        ensures
            r == self@.is_query(),
    {
        self.command().query()
    }
}

} // verus!
