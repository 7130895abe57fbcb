//! The grammars of the directives: what each does with an option, with an
//! option's value and with a free-standing argument, and what it comes to when
//! its arguments are read.

use vstd::prelude::*;
use vstd::string::*;

use crate::catalog::{
    Change, Command, GlobalActionKind, PropertyMutation, WindowActionKind, change, change_of,
    property, property_of,
};
use crate::directive::{
    AxisView, Directive, DirectiveView, SearchOptions, WindowDetail, WindowDetailView, axis_of,
    lemma_number_is_absolute, parse_axis,
};
use crate::error::{StepError, StepErrorView};
use crate::text::{
    i32_of_text, is_digit, lowercased, parse_i32, parse_u32, same_text, text_view,
    to_lowercase, u32_of_text,
};
use crate::window::{
    WindowReference, WindowReferenceView, classified, decimal_id, is_decimal_id,
    is_window_token, to_window_id,
};

verus! {

/// Whether a window action reads numbers of its own behind the window
/// reference, so that a leading decimal number may be one of them.
pub open spec fn reads_own_numbers(kind: WindowActionKind) -> bool {
    kind is Move || kind is Size || kind is SetDesktop
}

/// What a long option means to a directive.
#[derive(Clone, Copy, Debug, PartialEq, Eq)]
pub enum Flag {
    /// The directive has no such option.
    Unknown,
    Class,
    ClassName,
    Role,
    Name,
    All,
    Any,
    Relative,
    Pid,
    Desktop,
    Screen,
    Limit,
    Change(Change),
}

impl Flag {
    /// Whether the option is followed by a value.
    pub open spec fn takes_value(self) -> bool {
        self is Pid || self is Desktop || self is Screen || self is Limit || self is Change
    }

    /// Whether the option is one of the four text attributes of `search`.
    pub open spec fn is_attribute(self) -> bool {
        self is Class || self is ClassName || self is Role || self is Name
    }

    /// Whether the option is followed by a value.
    pub fn has_value(self) -> (r: bool)
        ensures
            r == self.takes_value(),
    {
        match self {
            Flag::Pid => true,
            Flag::Desktop => true,
            Flag::Screen => true,
            Flag::Limit => true,
            Flag::Change(_) => true,
            _ => false,
        }
    }
}

/// The options of `search`.
pub open spec fn search_flag_of(name: Seq<char>) -> Flag {
    if name == "class"@ {
        Flag::Class
    } else if name == "classname"@ {
        Flag::ClassName
    } else if name == "role"@ {
        Flag::Role
    } else if name == "name"@ {
        Flag::Name
    } else if name == "pid"@ {
        Flag::Pid
    } else if name == "desktop"@ {
        Flag::Desktop
    } else if name == "screen"@ {
        Flag::Screen
    } else if name == "limit"@ {
        Flag::Limit
    } else if name == "all"@ {
        Flag::All
    } else if name == "any"@ {
        Flag::Any
    } else {
        Flag::Unknown
    }
}

/// What the long option `name` means to `command`. Only `search`,
/// `windowstate` and `windowmove` have options.
pub open spec fn flag_of(command: Command, name: Seq<char>) -> Flag {
    match command {
        Command::Search => search_flag_of(name),
        Command::Window(WindowActionKind::State) => match change_of(name) {
            Some(c) => Flag::Change(c),
            None => Flag::Unknown,
        },
        Command::Window(WindowActionKind::Move) => if name == "relative"@ {
            Flag::Relative
        } else {
            Flag::Unknown
        },
        _ => Flag::Unknown,
    }
}

fn search_flag(name: &str) -> (r: Flag)
    ensures
        r == search_flag_of(name@),
{
    if same_text(name, "class") {
        Flag::Class
    } else if same_text(name, "classname") {
        Flag::ClassName
    } else if same_text(name, "role") {
        Flag::Role
    } else if same_text(name, "name") {
        Flag::Name
    } else if same_text(name, "pid") {
        Flag::Pid
    } else if same_text(name, "desktop") {
        Flag::Desktop
    } else if same_text(name, "screen") {
        Flag::Screen
    } else if same_text(name, "limit") {
        Flag::Limit
    } else if same_text(name, "all") {
        Flag::All
    } else if same_text(name, "any") {
        Flag::Any
    } else {
        Flag::Unknown
    }
}

/// Looks up what the long option `name` means to `command`.
pub fn flag(command: Command, name: &str) -> (r: Flag)
    ensures
        r == flag_of(command, name@),
{
    match command {
        Command::Search => search_flag(name),
        Command::Window(WindowActionKind::State) => match change(name) {
            Some(c) => Flag::Change(c),
            None => Flag::Unknown,
        },
        Command::Window(WindowActionKind::Move) => if same_text(name, "relative") {
            Flag::Relative
        } else {
            Flag::Unknown
        },
        _ => Flag::Unknown,
    }
}

/// A directive while its arguments are read: every slot that some grammar
/// fills, empty until it is filled.
pub struct Draft {
    pub command: Command,
    pub options: SearchOptions,
    /// The search term; the slot is open while it is empty.
    pub term: String,
    /// The name of a window stack.
    pub name: Option<String>,
    /// The window reference, as written.
    pub target: Option<String>,
    /// A leading decimal number of `windowmove`, `windowsize` or
    /// `set_desktop_for_window`, as written. Whether it is the window's
    /// identifier or the first number of the action is open until the
    /// arguments are read.
    pub lead: Option<String>,
    pub changes: Vec<PropertyMutation>,
    pub relative: bool,
    pub x: Option<String>,
    pub y: Option<String>,
    /// A desktop number or a count.
    pub number: Option<i32>,
}

/// The mathematical content of a [`Draft`].
pub struct DraftView {
    pub command: Command,
    pub options: SearchOptions,
    pub term: Seq<char>,
    pub name: Option<Seq<char>>,
    pub target: Option<Seq<char>>,
    pub lead: Option<Seq<char>>,
    pub changes: Seq<PropertyMutation>,
    pub relative: bool,
    pub x: Option<Seq<char>>,
    pub y: Option<Seq<char>>,
    pub number: Option<i32>,
}

impl View for Draft {
    type V = DraftView;

    open spec fn view(&self) -> DraftView {
        DraftView {
            command: self.command,
            options: self.options,
            term: self.term@,
            name: text_view(self.name),
            target: text_view(self.target),
            lead: text_view(self.lead),
            changes: self.changes@,
            relative: self.relative,
            x: text_view(self.x),
            y: text_view(self.y),
            number: self.number,
        }
    }
}

/// Whether two drafts of `search` agree in what the attribute flags and the
/// term make up. The other options may differ.
pub open spec fn same_search(a: DraftView, b: DraftView) -> bool {
    &&& a.command is Search
    &&& b.command is Search
    &&& a.options.match_class == b.options.match_class
    &&& a.options.match_classname == b.options.match_classname
    &&& a.options.match_role == b.options.match_role
    &&& a.options.match_name == b.options.match_name
    &&& a.term == b.term
}

/// An option of `search` that is none of the four attribute flags leaves the
/// attribute flags and the term as they are, with its value or without.
pub proof fn lemma_other_options_keep_search(draft: DraftView, flag: Flag, text: Seq<char>)
    requires
        draft.command is Search,
        !flag.is_attribute(),
    ensures
        same_search(draft, draft.with_switch(flag)),
        draft.with_option(flag, text) matches Ok(next) ==> same_search(draft, next),
{
}

/// Two drafts of `search` that agree in attribute flags and term still agree
/// in them after the same option without a value has been read into both.
pub proof fn lemma_switch_keeps_agreement(a: DraftView, b: DraftView, flag: Flag)
    requires
        same_search(a, b),
    ensures
        same_search(a.with_switch(flag), b.with_switch(flag)),
{
    match flag {
        Flag::Class => {},
        Flag::ClassName => {},
        Flag::Role => {},
        Flag::Name => {},
        Flag::All => {},
        Flag::Any => {},
        Flag::Relative => {},
        _ => {},
    }
}

/// Two drafts of `search` that agree in attribute flags and term still agree
/// in them after the same option has been read into both with its value, and
/// the value is refused for both or for neither, with the same error.
pub proof fn lemma_option_keeps_agreement(a: DraftView, b: DraftView, flag: Flag, text: Seq<char>)
    requires
        same_search(a, b),
        !(flag is Change),
    ensures
        match a.with_option(flag, text) {
            Ok(x) => b.with_option(flag, text) matches Ok(y) && same_search(x, y),
            Err(e) => b.with_option(flag, text) == Err::<DraftView, StepErrorView>(e),
        },
{
    match flag {
        Flag::Pid => {
            if i32_of_text(text) is Some {
                assert(a.with_option(flag, text) is Ok);
                assert(b.with_option(flag, text) is Ok);
            }
        },
        Flag::Desktop => {
            if i32_of_text(text) is Some {
                assert(a.with_option(flag, text) is Ok);
                assert(b.with_option(flag, text) is Ok);
            }
        },
        Flag::Screen => {
            if i32_of_text(text) is Some {
                assert(a.with_option(flag, text) is Ok);
                assert(b.with_option(flag, text) is Ok);
            }
        },
        Flag::Limit => {
            if u32_of_text(text) is Some {
                assert(a.with_option(flag, text) is Ok);
                assert(b.with_option(flag, text) is Ok);
            }
        },
        _ => {
            assert(a.with_option(flag, text) == Ok::<DraftView, StepErrorView>(a));
            assert(b.with_option(flag, text) == Ok::<DraftView, StepErrorView>(b));
        },
    }
}

/// Two drafts of `search` that agree in attribute flags and term do the same
/// with a free-standing argument, and still agree if they keep it.
pub proof fn lemma_absorb_keeps_agreement(a: DraftView, b: DraftView, text: Seq<char>)
    requires
        same_search(a, b),
    ensures
        match a.absorb(text) {
            AbsorbedView::Kept(x) => b.absorb(text) matches AbsorbedView::Kept(y) && same_search(
                x,
                y,
            ),
            AbsorbedView::Pushback(t) => b.absorb(text) == AbsorbedView::Pushback(t),
            AbsorbedView::Failed(e) => b.absorb(text) == AbsorbedView::Failed(e),
        },
{
}

/// What a directive does with a free-standing argument.
pub enum AbsorbedView {
    /// It fills a slot; the draft after that.
    Kept(DraftView),
    /// Every slot is filled, or the argument fits none: it names the next
    /// directive.
    Pushback(Seq<char>),
    /// It fits its slot's kind but cannot be read.
    Failed(StepErrorView),
}

/// What [`Draft::absorb`] did with a free-standing argument.
pub enum Absorb {
    Kept,
    Pushback(String),
    Failed(StepError),
}

impl DraftView {
    /// A draft of `command` with every slot empty.
    pub open spec fn blank(command: Command) -> DraftView {
        DraftView {
            command,
            options: SearchOptions::blank(),
            term: Seq::empty(),
            name: None,
            target: None,
            lead: None,
            changes: Seq::empty(),
            relative: false,
            x: None,
            y: None,
            number: None,
        }
    }

    /// The draft after an option that takes no value. An option that takes one
    /// leaves the draft as it is.
    pub open spec fn with_switch(self, flag: Flag) -> DraftView {
        match flag {
            Flag::Class => DraftView {
                options: SearchOptions { match_class: true, ..self.options },
                ..self
            },
            Flag::ClassName => DraftView {
                options: SearchOptions { match_classname: true, ..self.options },
                ..self
            },
            Flag::Role => DraftView {
                options: SearchOptions { match_role: true, ..self.options },
                ..self
            },
            Flag::Name => DraftView {
                options: SearchOptions { match_name: true, ..self.options },
                ..self
            },
            Flag::All => DraftView {
                options: SearchOptions { match_all: true, ..self.options },
                ..self
            },
            Flag::Any => DraftView {
                options: SearchOptions { match_all: false, ..self.options },
                ..self
            },
            Flag::Relative => DraftView { relative: true, ..self },
            _ => self,
        }
    }

    /// The draft after an option with its value, or the error where the value
    /// cannot be read: a number that is none, a property that is not in the
    /// table. Property names are looked up in lower case.
    pub open spec fn with_option(self, flag: Flag, text: Seq<char>) -> Result<
        DraftView,
        StepErrorView,
    > {
        match flag {
            Flag::Pid => match i32_of_text(text) {
                Some(n) => Ok(
                    DraftView {
                        options: SearchOptions { match_pid: true, pid: n, ..self.options },
                        ..self
                    },
                ),
                None => Err(StepErrorView::InvalidNumber(text)),
            },
            Flag::Desktop => match i32_of_text(text) {
                Some(n) => Ok(
                    DraftView {
                        options: SearchOptions { match_desktop: true, desktop: n, ..self.options },
                        ..self
                    },
                ),
                None => Err(StepErrorView::InvalidNumber(text)),
            },
            Flag::Screen => match i32_of_text(text) {
                Some(n) => Ok(
                    DraftView {
                        options: SearchOptions { match_screen: true, screen: n, ..self.options },
                        ..self
                    },
                ),
                None => Err(StepErrorView::InvalidNumber(text)),
            },
            Flag::Limit => match u32_of_text(text) {
                Some(n) => Ok(
                    DraftView { options: SearchOptions { limit: n, ..self.options }, ..self },
                ),
                None => Err(StepErrorView::InvalidNumber(text)),
            },
            Flag::Change(c) => match property_of(lowercased(text)) {
                Some(p) => Ok(
                    DraftView {
                        changes: self.changes.push(PropertyMutation { change: c, property: p }),
                        ..self
                    },
                ),
                None => Err(StepErrorView::UnsupportedProperty(lowercased(text))),
            },
            _ => Ok(self),
        }
    }

    /// Whether the slot for the window reference is still open: no reference
    /// and no other positional argument has been read.
    pub open spec fn window_slot_open(self) -> bool {
        self.target is None && self.lead is None && self.x is None && self.number is None
    }

    /// The draft with a number read from `text` in its number slot.
    pub open spec fn with_number(self, text: Seq<char>) -> AbsorbedView {
        match i32_of_text(text) {
            Some(n) => AbsorbedView::Kept(DraftView { number: Some(n), ..self }),
            None => AbsorbedView::Failed(StepErrorView::InvalidNumber(text)),
        }
    }

    /// What the directive does with the free-standing argument `text`.
    ///
    /// A window action first offers it to the window slot, while that is open
    /// and the text is a window reference. A decimal number there is held as
    /// the lead where the action reads numbers of its own: it is the window's
    /// identifier if the action's numbers follow it in full, and the first of
    /// them if not. So behind a lead the last slot takes only what can stand in
    /// it, and hands anything else back. After that each grammar fills its own
    /// slots in order. With every slot filled the argument is handed back as the
    /// name of the next directive.
    pub open spec fn absorb(self, text: Seq<char>) -> AbsorbedView {
        match self.command {
            Command::Search => if self.term.len() == 0 {
                AbsorbedView::Kept(DraftView { term: text, ..self })
            } else {
                AbsorbedView::Pushback(text)
            },
            Command::SaveStack | Command::LoadStack => if self.name is None {
                AbsorbedView::Kept(DraftView { name: Some(text), ..self })
            } else {
                AbsorbedView::Pushback(text)
            },
            Command::Window(kind) => if self.window_slot_open() && is_window_token(text) {
                if reads_own_numbers(kind) && is_decimal_id(text) {
                    AbsorbedView::Kept(DraftView { lead: Some(text), ..self })
                } else {
                    AbsorbedView::Kept(DraftView { target: Some(text), ..self })
                }
            } else {
                match kind {
                    WindowActionKind::Move | WindowActionKind::Size => if self.x is None {
                        AbsorbedView::Kept(DraftView { x: Some(text), ..self })
                    } else if self.y is None {
                        if self.lead is Some && axis_of(text, 'y') is Err {
                            AbsorbedView::Pushback(text)
                        } else {
                            AbsorbedView::Kept(DraftView { y: Some(text), ..self })
                        }
                    } else {
                        AbsorbedView::Pushback(text)
                    },
                    WindowActionKind::SetDesktop => if self.number is None {
                        if self.lead is Some && i32_of_text(text) is None {
                            AbsorbedView::Pushback(text)
                        } else {
                            self.with_number(text)
                        }
                    } else {
                        AbsorbedView::Pushback(text)
                    },
                    _ => AbsorbedView::Pushback(text),
                }
            },
            Command::Global(kind) => if self.number is None && (kind is SetDesktop || kind
                is SetNumDesktops) {
                self.with_number(text)
            } else {
                AbsorbedView::Pushback(text)
            },
            Command::ActiveWindow => AbsorbedView::Pushback(text),
        }
    }

    /// The draft with its lead settled, for a window action of kind `kind`.
    ///
    /// Behind a lead, `windowmove` and `windowsize` have read both axes or
    /// not. If they have, the lead is the window's identifier; if not, the lead
    /// is the x axis and what stood as x is the y axis. For
    /// `set_desktop_for_window` the lead is the window's identifier if a
    /// desktop number follows it, and the desktop number itself if none does.
    pub open spec fn lead_settled(self, kind: WindowActionKind) -> DraftView {
        match self.lead {
            None => self,
            Some(lead) => match kind {
                WindowActionKind::Move | WindowActionKind::Size => if self.y is Some {
                    DraftView { target: Some(lead), lead: None, ..self }
                } else {
                    DraftView { x: Some(lead), y: self.x, lead: None, ..self }
                },
                WindowActionKind::SetDesktop => if self.number is Some {
                    DraftView { target: Some(lead), lead: None, ..self }
                } else {
                    match i32_of_text(lead) {
                        Some(n) => DraftView { number: Some(n), lead: None, ..self },
                        None => self,
                    }
                },
                _ => self,
            },
        }
    }

    /// The detail of a window action whose lead is settled, or the error for
    /// what is missing or cannot be read. The x axis is judged before the y
    /// axis. A lead that is left over is a desktop number too large to read.
    pub open spec fn detail(self, kind: WindowActionKind) -> Result<
        WindowDetailView,
        StepErrorView,
    > {
        match kind {
            WindowActionKind::State => Ok(WindowDetailView::State(self.changes)),
            WindowActionKind::Move | WindowActionKind::Size => match self.x {
                None => Err(StepErrorView::MissingArgument("x"@)),
                Some(xt) => match axis_of(xt, 'x') {
                    Err(e) => Err(e),
                    Ok(x) => match self.y {
                        None => Err(StepErrorView::MissingArgument("y"@)),
                        Some(yt) => match axis_of(yt, 'y') {
                            Err(e) => Err(e),
                            Ok(y) => Ok(
                                WindowDetailView::Geometry { relative: self.relative, x, y },
                            ),
                        },
                    },
                },
            },
            WindowActionKind::SetDesktop => match self.number {
                Some(n) => Ok(WindowDetailView::Desktop(n)),
                None => match self.lead {
                    Some(lead) => Err(StepErrorView::InvalidNumber(lead)),
                    None => Err(StepErrorView::MissingArgument("desktop_id"@)),
                },
            },
            _ => Ok(WindowDetailView::Plain),
        }
    }

    /// The directive that the draft comes to when its arguments are read, or
    /// the error for a required argument that is missing or unreadable. For a
    /// window action the lead is settled first, then the detail is judged
    /// before the target; a target that was not given is the first entry of
    /// the stack. For `search`, the default attributes are filled in.
    pub open spec fn finished(self) -> Result<DirectiveView, StepErrorView> {
        match self.command {
            Command::Search => Ok(
                DirectiveView::Search { options: self.options.with_defaults(), term: self.term },
            ),
            Command::ActiveWindow => Ok(DirectiveView::ActiveWindow),
            Command::SaveStack => match self.name {
                Some(name) => Ok(DirectiveView::SaveStack { name }),
                None => Err(StepErrorView::MissingArgument("name"@)),
            },
            Command::LoadStack => match self.name {
                Some(name) => Ok(DirectiveView::LoadStack { name }),
                None => Err(StepErrorView::MissingArgument("name"@)),
            },
            Command::Window(kind) => match self.lead_settled(kind).detail(kind) {
                Err(e) => Err(e),
                Ok(detail) => match classified(self.lead_settled(kind).target) {
                    Err(e) => Err(e),
                    Ok(target) => Ok(DirectiveView::Window { kind, target, detail }),
                },
            },
            Command::Global(kind) => match kind {
                GlobalActionKind::SetDesktop => match self.number {
                    Some(n) => Ok(DirectiveView::Global { kind, number: Some(n) }),
                    None => Err(StepErrorView::MissingArgument("desktop_id"@)),
                },
                GlobalActionKind::SetNumDesktops => match self.number {
                    Some(n) => Ok(DirectiveView::Global { kind, number: Some(n) }),
                    None => Err(StepErrorView::MissingArgument("num"@)),
                },
                _ => Ok(DirectiveView::Global { kind, number: None }),
            },
        }
    }
}

/// How `windowmove` and `windowsize` read a leading decimal number `first`
/// that numbers follow: with two numbers behind it, it is the window's
/// identifier and they are the axes, and whatever comes next is handed back;
/// with one, it is the x axis itself, that one is the y axis, and the window
/// is the first entry of the stack.
pub proof fn lemma_leading_number_on_axes(
    kind: WindowActionKind,
    first: Seq<char>,
    second: Seq<char>,
    third: Seq<char>,
)
    requires
        kind is Move || kind is Size,
        is_decimal_id(first),
        i32_of_text(second) is Some,
        i32_of_text(third) is Some,
    ensures
        ({
            let blank = DraftView::blank(Command::Window(kind));
            let one = DraftView { lead: Some(first), ..blank };
            let two = DraftView { x: Some(second), ..one };
            let three = DraftView { y: Some(third), ..two };
            &&& blank.absorb(first) == AbsorbedView::Kept(one)
            &&& one.absorb(second) == AbsorbedView::Kept(two)
            &&& two.absorb(third) == AbsorbedView::Kept(three)
            &&& forall|next: Seq<char>| #[trigger] three.absorb(next) == AbsorbedView::Pushback(next)
            &&& three.finished() == Ok::<DirectiveView, StepErrorView>(
                DirectiveView::Window {
                    kind,
                    target: WindowReferenceView::ExplicitId(first),
                    detail: WindowDetailView::Geometry {
                        relative: false,
                        x: AxisView::Absolute(second),
                        y: AxisView::Absolute(third),
                    },
                },
            )
            &&& i32_of_text(first) is Some ==> two.finished() == Ok::<
                DirectiveView,
                StepErrorView,
            >(
                DirectiveView::Window {
                    kind,
                    target: WindowReferenceView::StackIndex(1),
                    detail: WindowDetailView::Geometry {
                        relative: false,
                        x: AxisView::Absolute(first),
                        y: AxisView::Absolute(second),
                    },
                },
            )
        }),
{
    lemma_number_is_absolute(second, 'x');
    lemma_number_is_absolute(second, 'y');
    lemma_number_is_absolute(third, 'y');
    assert(is_digit(first[0]));
    if i32_of_text(first) is Some {
        lemma_number_is_absolute(first, 'x');
    }
}

/// How `set_desktop_for_window` reads a leading decimal number `first`: with
/// a number behind it, it is the window's identifier and the number is the
/// desktop; alone, it is the desktop, and the window is the first entry of the
/// stack.
pub proof fn lemma_leading_number_on_desktop(first: Seq<char>, second: Seq<char>)
    requires
        is_decimal_id(first),
        i32_of_text(second) is Some,
    ensures
        ({
            let kind = WindowActionKind::SetDesktop;
            let blank = DraftView::blank(Command::Window(kind));
            let one = DraftView { lead: Some(first), ..blank };
            let two = DraftView { number: i32_of_text(second), ..one };
            &&& blank.absorb(first) == AbsorbedView::Kept(one)
            &&& one.absorb(second) == AbsorbedView::Kept(two)
            &&& forall|next: Seq<char>| #[trigger] two.absorb(next) == AbsorbedView::Pushback(next)
            &&& two.finished() == Ok::<DirectiveView, StepErrorView>(
                DirectiveView::Window {
                    kind,
                    target: WindowReferenceView::ExplicitId(first),
                    detail: WindowDetailView::Desktop(i32_of_text(second)->0),
                },
            )
            &&& i32_of_text(first) matches Some(n) ==> one.finished() == Ok::<
                DirectiveView,
                StepErrorView,
            >(
                DirectiveView::Window {
                    kind,
                    target: WindowReferenceView::StackIndex(1),
                    detail: WindowDetailView::Desktop(n),
                },
            )
        }),
{
    assert(is_digit(first[0]));
}

/// Reading an option or a free-standing argument into a draft leaves its
/// command as it is.
pub proof fn lemma_draft_keeps_command(draft: DraftView, flag: Flag, text: Seq<char>)
    ensures
        draft.with_switch(flag).command == draft.command,
        draft.with_option(flag, text) matches Ok(next) ==> next.command == draft.command,
        draft.absorb(text) matches AbsorbedView::Kept(next) ==> next.command == draft.command,
{
    match flag {
        Flag::Pid => {},
        Flag::Desktop => {},
        Flag::Screen => {},
        Flag::Limit => {},
        Flag::Change(_) => {},
        _ => {},
    }
    match draft.command {
        Command::Window(_) => {},
        _ => {},
    }
}

/// A free-standing argument is refused only as a number that cannot be read.
pub proof fn lemma_absorb_fails_on_numbers(draft: DraftView, text: Seq<char>)
    ensures
        draft.absorb(text) matches AbsorbedView::Failed(e) ==> e is InvalidNumber,
{
    match draft.command {
        Command::Window(_) => {},
        _ => {},
    }
}

/// An option's value is refused only as a number that cannot be read or as a
/// property that is not in the table.
pub proof fn lemma_option_fails_on_values(draft: DraftView, flag: Flag, text: Seq<char>)
    ensures
        draft.with_option(flag, text) matches Err(e) ==> e is InvalidNumber || e
            is UnsupportedProperty,
{
    match flag {
        Flag::Pid => {},
        Flag::Desktop => {},
        Flag::Screen => {},
        Flag::Limit => {},
        Flag::Change(_) => {},
        _ => {},
    }
}

/// What a draft comes to is a directive of the draft's command, and the only
/// errors are a missing argument and a number that cannot be read.
pub proof fn lemma_finished_keeps_command(draft: DraftView)
    ensures
        draft.finished() matches Ok(directive) ==> directive.command() == draft.command,
        draft.finished() matches Err(e) ==> e is MissingArgument || e is InvalidNumber,
{
    match draft.command {
        Command::Window(kind) => {
            let settled = draft.lead_settled(kind);
            match kind {
                WindowActionKind::Move | WindowActionKind::Size => {},
                _ => {},
            }
        },
        _ => {},
    }
}

/// The view of a parsed directive or the error in its place.
pub open spec fn directive_view(r: Result<Directive, StepError>) -> Result<
    DirectiveView,
    StepErrorView,
> {
    match r {
        Ok(d) => Ok(d@),
        Err(e) => Err(e@),
    }
}

/// The view of a window detail or the error in its place.
pub open spec fn detail_view(r: Result<WindowDetail, StepError>) -> Result<
    WindowDetailView,
    StepErrorView,
> {
    match r {
        Ok(d) => Ok(d@),
        Err(e) => Err(e@),
    }
}

impl Draft {
    /// A draft of `command` with every slot empty.
    pub fn new(command: Command) -> (r: Draft)
        ensures
            r@ == DraftView::blank(command),
    {
        let r = Draft {
            command,
            options: SearchOptions::new(),
            term: String::new(),
            name: None,
            target: None,
            lead: None,
            changes: Vec::new(),
            relative: false,
            x: None,
            y: None,
            number: None,
        };
        assert(r@.changes =~= Seq::<PropertyMutation>::empty());
        r
    }

    /// Takes in an option that has no value.
    pub fn switch(&mut self, flag: Flag)
        ensures
            final(self)@ == old(self)@.with_switch(flag),
    {
        match flag {
            Flag::Class => {
                self.options.match_class = true;
            },
            Flag::ClassName => {
                self.options.match_classname = true;
            },
            Flag::Role => {
                self.options.match_role = true;
            },
            Flag::Name => {
                self.options.match_name = true;
            },
            Flag::All => {
                self.options.match_all = true;
            },
            Flag::Any => {
                self.options.match_all = false;
            },
            Flag::Relative => {
                self.relative = true;
            },
            _ => {},
        }
    }

    /// Takes in an option with its value.
    pub fn option(&mut self, flag: Flag, text: &str) -> (r: Result<(), StepError>)
        ensures
            match old(self)@.with_option(flag, text@) {
                Ok(d) => r is Ok && final(self)@ == d,
                Err(e) => r matches Err(x) && x@ == e,
            },
    {
        match flag {
            Flag::Pid => match parse_i32(text) {
                Some(n) => {
                    self.options.match_pid = true;
                    self.options.pid = n;
                    Ok(())
                },
                None => Err(StepError::InvalidNumber(text.to_owned())),
            },
            Flag::Desktop => match parse_i32(text) {
                Some(n) => {
                    self.options.match_desktop = true;
                    self.options.desktop = n;
                    Ok(())
                },
                None => Err(StepError::InvalidNumber(text.to_owned())),
            },
            Flag::Screen => match parse_i32(text) {
                Some(n) => {
                    self.options.match_screen = true;
                    self.options.screen = n;
                    Ok(())
                },
                None => Err(StepError::InvalidNumber(text.to_owned())),
            },
            Flag::Limit => match parse_u32(text) {
                Some(n) => {
                    self.options.limit = n;
                    Ok(())
                },
                None => Err(StepError::InvalidNumber(text.to_owned())),
            },
            Flag::Change(c) => {
                let key = to_lowercase(text);
                match property(key.as_str()) {
                    Some(p) => {
                        self.changes.push(PropertyMutation { change: c, property: p });
                        Ok(())
                    },
                    None => Err(StepError::UnsupportedProperty(key)),
                }
            },
            _ => Ok(()),
        }
    }

    /// Reads a number into the number slot.
    fn number_from(&mut self, text: String) -> (r: Absorb)
        ensures
            match old(self)@.with_number(text@) {
                AbsorbedView::Kept(d) => r is Kept && final(self)@ == d,
                AbsorbedView::Pushback(t) => r matches Absorb::Pushback(p) && p@ == t
                    && final(self)@ == old(self)@,
                AbsorbedView::Failed(e) => r matches Absorb::Failed(x) && x@ == e,
            },
    {
        match parse_i32(text.as_str()) {
            Some(n) => {
                self.number = Some(n);
                Absorb::Kept
            },
            None => Absorb::Failed(StepError::InvalidNumber(text)),
        }
    }

    /// Takes in a free-standing argument, or hands it back.
    pub fn absorb(&mut self, text: String) -> (r: Absorb)
        ensures
            match old(self)@.absorb(text@) {
                AbsorbedView::Kept(d) => r is Kept && final(self)@ == d,
                AbsorbedView::Pushback(t) => r matches Absorb::Pushback(p) && p@ == t
                    && final(self)@ == old(self)@,
                AbsorbedView::Failed(e) => r matches Absorb::Failed(x) && x@ == e,
            },
    {
        match self.command {
            Command::Search => {
                if self.term.as_str().unicode_len() == 0 {
                    self.term = text;
                    Absorb::Kept
                } else {
                    Absorb::Pushback(text)
                }
            },
            Command::SaveStack | Command::LoadStack => {
                if self.name.is_none() {
                    self.name = Some(text);
                    Absorb::Kept
                } else {
                    Absorb::Pushback(text)
                }
            },
            Command::Window(kind) => {
                let own_numbers = match kind {
                    WindowActionKind::Move => true,
                    WindowActionKind::Size => true,
                    WindowActionKind::SetDesktop => true,
                    _ => false,
                };
                if self.target.is_none() && self.lead.is_none() && self.x.is_none()
                    && self.number.is_none() && to_window_id(text.as_str()) {
                    if own_numbers && decimal_id(text.as_str()) {
                        self.lead = Some(text);
                    } else {
                        self.target = Some(text);
                    }
                    Absorb::Kept
                } else {
                    match kind {
                        WindowActionKind::Move | WindowActionKind::Size => {
                            if self.x.is_none() {
                                self.x = Some(text);
                                Absorb::Kept
                            } else if self.y.is_none() {
                                if self.lead.is_some() && parse_axis(text.as_str(), 'y').is_err() {
                                    Absorb::Pushback(text)
                                } else {
                                    self.y = Some(text);
                                    Absorb::Kept
                                }
                            } else {
                                Absorb::Pushback(text)
                            }
                        },
                        WindowActionKind::SetDesktop => {
                            if self.number.is_none() {
                                if self.lead.is_some() && parse_i32(text.as_str()).is_none() {
                                    Absorb::Pushback(text)
                                } else {
                                    self.number_from(text)
                                }
                            } else {
                                Absorb::Pushback(text)
                            }
                        },
                        _ => Absorb::Pushback(text),
                    }
                }
            },
            Command::Global(kind) => {
                let counted = match kind {
                    GlobalActionKind::SetDesktop => true,
                    GlobalActionKind::SetNumDesktops => true,
                    _ => false,
                };
                if self.number.is_none() && counted {
                    self.number_from(text)
                } else {
                    Absorb::Pushback(text)
                }
            },
            Command::ActiveWindow => Absorb::Pushback(text),
        }
    }

    /// The detail of a window action of kind `kind`, from the slots of a draft
    /// whose lead is settled.
    fn detail(
        kind: WindowActionKind,
        changes: Vec<PropertyMutation>,
        relative: bool,
        lead: Option<String>,
        x: Option<String>,
        y: Option<String>,
        number: Option<i32>,
    ) -> (r: Result<WindowDetail, StepError>)
        ensures
            forall|d: DraftView|
                d.changes == changes@ && d.relative == relative && d.lead == text_view(lead)
                    && d.x == text_view(x) && d.y == text_view(y) && d.number == number
                    ==> detail_view(r) == #[trigger] d.detail(kind),
    {
        match kind {
            WindowActionKind::State => Ok(WindowDetail::State(changes)),
            WindowActionKind::Move | WindowActionKind::Size => match x {
                None => Err(StepError::MissingArgument("x".to_owned())),
                Some(xt) => match parse_axis(xt.as_str(), 'x') {
                    Err(e) => Err(e),
                    Ok(xa) => match y {
                        None => Err(StepError::MissingArgument("y".to_owned())),
                        Some(yt) => match parse_axis(yt.as_str(), 'y') {
                            Err(e) => Err(e),
                            Ok(ya) => Ok(WindowDetail::Geometry { relative, x: xa, y: ya }),
                        },
                    },
                },
            },
            WindowActionKind::SetDesktop => match number {
                Some(n) => Ok(WindowDetail::Desktop(n)),
                None => match lead {
                    Some(lead) => Err(StepError::InvalidNumber(lead)),
                    None => Err(StepError::MissingArgument("desktop_id".to_owned())),
                },
            },
            _ => Ok(WindowDetail::Plain),
        }
    }

    /// Closes the draft: the directive it comes to, or the error for a
    /// required argument that is missing or cannot be read.
    pub fn finish(self) -> (r: Result<Directive, StepError>)
        ensures
            directive_view(r) == self@.finished(),
    {
        let ghost view = self@;
        let Draft {
            command,
            options,
            term,
            name,
            target,
            lead,
            changes,
            relative,
            x,
            y,
            number,
        } = self;
        match command {
            Command::Search => Ok(Directive::Search { options: options.defaulted(), term }),
            Command::ActiveWindow => Ok(Directive::ActiveWindow),
            Command::SaveStack => match name {
                Some(name) => Ok(Directive::SaveStack { name }),
                None => Err(StepError::MissingArgument("name".to_owned())),
            },
            Command::LoadStack => match name {
                Some(name) => Ok(Directive::LoadStack { name }),
                None => Err(StepError::MissingArgument("name".to_owned())),
            },
            Command::Window(kind) => {
                let (target, lead, x, y, number) = match lead {
                    None => (target, None, x, y, number),
                    Some(first) => match kind {
                        WindowActionKind::Move | WindowActionKind::Size => {
                            if y.is_some() {
                                (Some(first), None, x, y, number)
                            } else {
                                (target, None, Some(first), x, number)
                            }
                        },
                        WindowActionKind::SetDesktop => {
                            if number.is_some() {
                                (Some(first), None, x, y, number)
                            } else {
                                match parse_i32(first.as_str()) {
                                    Some(n) => (target, None, x, y, Some(n)),
                                    None => (target, Some(first), x, y, number),
                                }
                            }
                        },
                        _ => (target, Some(first), x, y, number),
                    },
                };
                let ghost settled = view.lead_settled(kind);
                assert(settled.target == text_view(target) && settled.lead == text_view(lead)
                    && settled.x == text_view(x) && settled.y == text_view(y) && settled.number
                    == number);
                let token = match &target {
                    Some(t) => Some(t.as_str()),
                    None => None,
                };
                let detail = Draft::detail(kind, changes, relative, lead, x, y, number);
                assert(detail_view(detail) == settled.detail(kind));
                match detail {
                    Err(e) => Err(e),
                    Ok(detail) => match WindowReference::of_token(token) {
                        Err(e) => Err(e),
                        Ok(target) => Ok(Directive::Window { kind, target, detail }),
                    },
                }
            },
            Command::Global(kind) => match kind {
                GlobalActionKind::SetDesktop => match number {
                    Some(n) => Ok(Directive::Global { kind, number: Some(n) }),
                    None => Err(StepError::MissingArgument("desktop_id".to_owned())),
                },
                GlobalActionKind::SetNumDesktops => match number {
                    Some(n) => Ok(Directive::Global { kind, number: Some(n) }),
                    None => Err(StepError::MissingArgument("num".to_owned())),
                },
                _ => Ok(Directive::Global { kind, number: None }),
            },
        }
    }
}

} // verus!
