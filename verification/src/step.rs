//! From a parsed directive to its script fragment.
//!
//! Every fragment is rendered against a record of its own: the session's base
//! bindings, the name of the step, and what the directive adds. A record is
//! always built as an extended copy; none is changed once it is shared.

use vstd::prelude::*;

use crate::catalog::{Fragment, command_of, mutation_script, statements};
use crate::directive::{
    Axis, AxisView, Directive, DirectiveView, SearchOptions, WindowDetail, WindowDetailView,
};
use crate::error::{StepError, StepErrorView};
use crate::fragments::{
    STEP_ACTION_ON_STACK_ALL, STEP_ACTION_ON_STACK_ITEM, STEP_ACTION_ON_WINDOW_ID,
    STEP_GETACTIVEWINDOW, STEP_GLOBAL_ACTION, STEP_LOADWINDOWSTACK, STEP_SAVEWINDOWSTACK,
    STEP_SEARCH,
};
use crate::lexer::{ArgCursor, CursorView, is_rest_of};
use crate::parser::{
    ParsedStep, ScanView, lemma_parse_keeps_command, lemma_parse_progress, parse_directive,
    parse_of,
};
use crate::template::{Bindings, Scalar, ScalarView, fragment_view, render, render_outcome};
use crate::text::text_view;
use crate::window::{WindowReference, WindowReferenceView};

verus! {

/// A record of bindings, as a sequence of names and values.
pub type Record = Seq<(Seq<char>, ScalarView)>;

/// The record of a step: the base record and the step's name.
pub open spec fn step_record(base: Record, command: Seq<char>) -> Record {
    base.push(("step_name"@, ScalarView::Text(command)))
}

/// The record of a `search` step.
pub open spec fn search_record(record: Record, options: SearchOptions, term: Seq<char>) -> Record {
    record.push(("match_class"@, ScalarView::Flag(options.match_class))).push(
        ("match_classname"@, ScalarView::Flag(options.match_classname)),
    ).push(("match_role"@, ScalarView::Flag(options.match_role))).push(
        ("match_name"@, ScalarView::Flag(options.match_name)),
    ).push(("match_pid"@, ScalarView::Flag(options.match_pid))).push(
        ("pid"@, ScalarView::Number(options.pid as i64)),
    ).push(("match_desktop"@, ScalarView::Flag(options.match_desktop))).push(
        ("desktop"@, ScalarView::Number(options.desktop as i64)),
    ).push(("match_screen"@, ScalarView::Flag(options.match_screen))).push(
        ("screen"@, ScalarView::Number(options.screen as i64)),
    ).push(("limit"@, ScalarView::Number(options.limit as i64))).push(
        ("match_all"@, ScalarView::Flag(options.match_all)),
    ).push(("search_term"@, ScalarView::Text(term)))
}

impl AxisView {
    /// The absolute number of the axis as written, empty if it has none.
    pub open spec fn absolute(self) -> Seq<char> {
        match self {
            AxisView::Absolute(t) => t,
            _ => Seq::empty(),
        }
    }

    /// The hundredths of the axis as written, empty if it has none.
    pub open spec fn percent(self) -> Seq<char> {
        match self {
            AxisView::Percent(t) => t,
            _ => Seq::empty(),
        }
    }
}

/// The record of the body of a window action: what the detail adds.
pub open spec fn detail_record(record: Record, detail: WindowDetailView) -> Record {
    match detail {
        WindowDetailView::Plain => record,
        WindowDetailView::State(changes) => record.push(
            ("windowstate"@, ScalarView::Text(statements(changes))),
        ),
        WindowDetailView::Geometry { relative, x, y } => record.push(
            ("relative"@, ScalarView::Flag(relative)),
        ).push(("x"@, ScalarView::Text(x.absolute()))).push(
            ("y"@, ScalarView::Text(y.absolute())),
        ).push(("x_percent"@, ScalarView::Text(x.percent()))).push(
            ("y_percent"@, ScalarView::Text(y.percent())),
        ),
        WindowDetailView::Desktop(n) => record.push(("desktop_id"@, ScalarView::Number(n as i64))),
    }
}

/// The wrapper fragment that applies an action to `target`: one for each kind
/// of window reference.
pub open spec fn target_template(target: WindowReferenceView) -> Seq<char> {
    match target {
        WindowReferenceView::ExplicitId(_) => STEP_ACTION_ON_WINDOW_ID@,
        WindowReferenceView::StackIndex(_) => STEP_ACTION_ON_STACK_ITEM@,
        WindowReferenceView::AllStack => STEP_ACTION_ON_STACK_ALL@,
    }
}

/// The record of the wrapper fragment: the rendered action, and the
/// identifier or the position that the wrapper embeds.
pub open spec fn target_record(
    record: Record,
    action: Seq<char>,
    target: WindowReferenceView,
) -> Record {
    let with_action = record.push(("action"@, ScalarView::Text(action)));
    match target {
        WindowReferenceView::ExplicitId(id) => with_action.push(
            ("window_id"@, ScalarView::Text(id)),
        ),
        WindowReferenceView::StackIndex(n) => with_action.push(
            ("item_index"@, ScalarView::Number(n as i64)),
        ),
        WindowReferenceView::AllStack => with_action,
    }
}

/// The record of the body of a global action.
pub open spec fn global_record(record: Record, number: Option<i32>) -> Record {
    match number {
        Some(n) => record.push(("n"@, ScalarView::Number(n as i64))),
        None => record,
    }
}

/// The fragment of one directive, rendered against the base record `base`
/// under the step name `command`; or the renderer's refusal.
///
/// A window action is rendered in two stages: its body, then the wrapper for
/// its target around the body. So is a global action.
pub open spec fn step_text(base: Record, command: Seq<char>, directive: DirectiveView) -> Result<
    Seq<char>,
    StepErrorView,
> {
    let record = step_record(base, command);
    match directive {
        DirectiveView::Search { options, term } => render_outcome(
            STEP_SEARCH@,
            search_record(record, options, term),
        ),
        DirectiveView::ActiveWindow => render_outcome(STEP_GETACTIVEWINDOW@, record),
        DirectiveView::SaveStack { name } => render_outcome(
            STEP_SAVEWINDOWSTACK@,
            record.push(("name"@, ScalarView::Text(name))),
        ),
        DirectiveView::LoadStack { name } => render_outcome(
            STEP_LOADWINDOWSTACK@,
            record.push(("name"@, ScalarView::Text(name))),
        ),
        DirectiveView::Window { kind, target, detail } => match render_outcome(
            kind.template(),
            detail_record(record, detail),
        ) {
            Err(e) => Err(e),
            Ok(action) => render_outcome(
                target_template(target),
                target_record(record, action, target),
            ),
        },
        DirectiveView::Global { kind, number } => match render_outcome(
            kind.template(),
            global_record(record, number),
        ) {
            Err(e) => Err(e),
            Ok(action) => render_outcome(
                STEP_GLOBAL_ACTION@,
                record.push(("action"@, ScalarView::Text(action))),
            ),
        },
    }
}

/// A fragment fails only with the renderer's error.
pub proof fn lemma_step_text_fails_on_rendering(
    base: Record,
    command: Seq<char>,
    directive: DirectiveView,
)
    ensures
        step_text(base, command, directive) matches Err(e) ==> e is Render,
{
}

/// A step keeps the command that its name stands for, so the name alone
/// decides whether it is a query; and a name that stands for a command never
/// fails as an unknown command.
pub proof fn lemma_step_keeps_command(base: Record, command: Seq<char>, cursor: CursorView)
    ensures
        step_of(base, command, cursor) matches StepOutcome::Compiled { step, .. } ==> {
            &&& command_of(command) == Some(step.directive.command())
            &&& step.is_query == command_of(command)->0.is_query()
        },
        step_of(base, command, cursor) matches StepOutcome::Failed(e) ==> (e is UnknownCommand
            <==> command_of(command) is None),
{
    lemma_parse_keeps_command(command, cursor);
    match parse_of(command, cursor) {
        ScanView::Parsed { directive, .. } => {
            lemma_step_text_fails_on_rendering(base, command, directive);
        },
        ScanView::Failed(_) => {},
    }
}

/// Builds the record of a `search` step.
pub fn search_bindings(record: &Bindings, options: SearchOptions, term: &str) -> (r: Bindings)
    ensures
        r@ == search_record(record@, options, term@),
{
    let mut r = record.duplicate();
    r.bind("match_class", Scalar::Flag(options.match_class));
    r.bind("match_classname", Scalar::Flag(options.match_classname));
    r.bind("match_role", Scalar::Flag(options.match_role));
    r.bind("match_name", Scalar::Flag(options.match_name));
    r.bind("match_pid", Scalar::Flag(options.match_pid));
    r.bind("pid", Scalar::Number(options.pid as i64));
    r.bind("match_desktop", Scalar::Flag(options.match_desktop));
    r.bind("desktop", Scalar::Number(options.desktop as i64));
    r.bind("match_screen", Scalar::Flag(options.match_screen));
    r.bind("screen", Scalar::Number(options.screen as i64));
    r.bind("limit", Scalar::Number(options.limit as i64));
    r.bind("match_all", Scalar::Flag(options.match_all));
    r.bind("search_term", Scalar::Text(term.to_owned()));
    r
}

impl Axis {
    /// The absolute number of the axis as written, empty if it has none.
    pub fn absolute(&self) -> (r: String)
        ensures
            r@ == self@.absolute(),
    {
        match self {
            Axis::Absolute(t) => t.clone(),
            _ => String::new(),
        }
    }

    /// The hundredths of the axis as written, empty if it has none.
    pub fn percent(&self) -> (r: String)
        ensures
            r@ == self@.percent(),
    {
        match self {
            Axis::Percent(t) => t.clone(),
            _ => String::new(),
        }
    }
}

/// Builds the record of the body of a window action.
pub fn detail_bindings(record: &Bindings, detail: &WindowDetail) -> (r: Bindings)
    ensures
        r@ == detail_record(record@, detail@),
{
    match detail {
        WindowDetail::Plain => record.duplicate(),
        WindowDetail::State(changes) => record.with(
            "windowstate",
            Scalar::Text(mutation_script(changes)),
        ),
        WindowDetail::Geometry { relative, x, y } => {
            let mut r = record.duplicate();
            r.bind("relative", Scalar::Flag(*relative));
            r.bind("x", Scalar::Text(x.absolute()));
            r.bind("y", Scalar::Text(y.absolute()));
            r.bind("x_percent", Scalar::Text(x.percent()));
            r.bind("y_percent", Scalar::Text(y.percent()));
            r
        },
        WindowDetail::Desktop(n) => record.with_number("desktop_id", *n as i64),
    }
}

/// Picks the wrapper fragment for a target.
pub fn target_fragment(target: &WindowReference) -> (r: Fragment)
    ensures
        r.template() == target_template(target@),
{
    match target {
        WindowReference::ExplicitId(_) => Fragment::OnWindowId,
        WindowReference::StackIndex(_) => Fragment::OnStackItem,
        WindowReference::AllStack => Fragment::OnStackAll,
    }
}

/// Builds the record of the wrapper fragment around a rendered action.
pub fn target_bindings(record: &Bindings, action: String, target: &WindowReference) -> (r:
    Bindings)
    ensures
        r@ == target_record(record@, action@, target@),
{
    let mut r = record.duplicate();
    r.bind("action", Scalar::Text(action));
    match target {
        WindowReference::ExplicitId(id) => {
            r.bind("window_id", Scalar::Text(id.clone()));
        },
        WindowReference::StackIndex(n) => {
            r.bind("item_index", Scalar::Number(*n as i64));
        },
        WindowReference::AllStack => {},
    }
    r
}

/// Builds the record of the body of a global action.
pub fn global_bindings(record: &Bindings, number: Option<i32>) -> (r: Bindings)
    ensures
        r@ == global_record(record@, number),
{
    match number {
        Some(n) => record.with_number("n", n as i64),
        None => record.duplicate(),
    }
}

/// Renders the fragment of one directive against the base record `base`,
/// under the step name `command`.
pub fn render_directive(command: &str, directive: &Directive, base: &Bindings) -> (r: Result<
    String,
    StepError,
>)
    ensures
        fragment_view(r) == step_text(base@, command@, directive@),
{
    let record = base.with_text("step_name", command);
    match directive {
        Directive::Search { options, term } => {
            let bound = search_bindings(&record, *options, term.as_str());
            render(Fragment::Search, &bound)
        },
        Directive::ActiveWindow => render(Fragment::ActiveWindow, &record),
        Directive::SaveStack { name } => {
            let bound = record.with_text("name", name.as_str());
            render(Fragment::SaveStack, &bound)
        },
        Directive::LoadStack { name } => {
            let bound = record.with_text("name", name.as_str());
            render(Fragment::LoadStack, &bound)
        },
        Directive::Window { kind, target, detail } => {
            let body = detail_bindings(&record, detail);
            match render(Fragment::WindowAction(*kind), &body) {
                Err(e) => Err(e),
                Ok(action) => {
                    let bound = target_bindings(&record, action, target);
                    render(target_fragment(target), &bound)
                },
            }
        },
        Directive::Global { kind, number } => {
            let body = global_bindings(&record, *number);
            match render(Fragment::GlobalAction(*kind), &body) {
                Err(e) => Err(e),
                Ok(action) => {
                    let bound = record.with("action", Scalar::Text(action));
                    render(Fragment::OnDesktop, &bound)
                },
            }
        },
    }
}

/// One compiled directive.
#[derive(Debug, PartialEq, Eq)]
pub struct StepResult {
    /// The name that the directive was given under.
    pub command: String,
    /// The directive that was parsed.
    pub directive: Directive,
    /// Its fragment.
    pub script: String,
    /// Whether it leaves a set of windows behind for later fragments.
    pub is_query: bool,
    /// The argument that it read and did not take: the next directive's name.
    pub next_arg: Option<String>,
}

/// The mathematical content of a [`StepResult`].
pub struct StepView {
    pub command: Seq<char>,
    pub directive: DirectiveView,
    pub script: Seq<char>,
    pub is_query: bool,
    pub next_arg: Option<Seq<char>>,
}

impl View for StepResult {
    type V = StepView;

    open spec fn view(&self) -> StepView {
        StepView {
            command: self.command@,
            directive: self.directive@,
            script: self.script@,
            is_query: self.is_query,
            next_arg: text_view(self.next_arg),
        }
    }
}

/// What compiling one directive comes to.
pub enum StepOutcome {
    /// The step, and the cursor behind its arguments.
    Compiled { step: StepView, rest: CursorView },
    /// The error that ended it.
    Failed(StepErrorView),
}

/// A compiled step has taken its arguments off the front of what was unread,
/// has left the cursor between two arguments, and has read at least the
/// argument that it hands back, if it hands one back. Its fragment is the one
/// that its directive renders to.
pub proof fn lemma_step_progress(base: Record, command: Seq<char>, cursor: CursorView)
    requires
        cursor.settled(),
    ensures
        step_of(base, command, cursor) matches StepOutcome::Compiled { step, rest } ==> {
            &&& rest.settled()
            &&& is_rest_of(rest.unread, cursor.unread)
            &&& (step.next_arg is Some ==> rest.unread.len() < cursor.unread.len())
            &&& step.command == command
            &&& step.is_query == step.directive.is_query()
            &&& step_text(base, command, step.directive) == Ok::<Seq<char>, StepErrorView>(
                step.script,
            )
        },
{
    lemma_parse_progress(command, cursor);
}

/// Compiling the directive named `command`: parsing its arguments off
/// `cursor`, then rendering its fragment against `base`.
pub open spec fn step_of(base: Record, command: Seq<char>, cursor: CursorView) -> StepOutcome {
    match parse_of(command, cursor) {
        ScanView::Failed(e) => StepOutcome::Failed(e),
        ScanView::Parsed { directive, pushback, rest } => match step_text(
            base,
            command,
            directive,
        ) {
            Err(e) => StepOutcome::Failed(e),
            Ok(script) => StepOutcome::Compiled {
                step: StepView {
                    command,
                    directive,
                    script,
                    is_query: directive.is_query(),
                    next_arg: pushback,
                },
                rest,
            },
        },
    }
}

/// Whether a result of [`generate_step`] is the one that [`step_of`] gives.
pub open spec fn compiled_as(
    r: Result<StepResult, StepError>,
    after: CursorView,
    expected: StepOutcome,
) -> bool {
    match expected {
        StepOutcome::Compiled { step, rest } => r matches Ok(s) && s@ == step && after == rest,
        StepOutcome::Failed(e) => r matches Err(x) && x@ == e,
    }
}

/// Compiles the directive named `command`: reads its arguments off the cursor
/// and renders its fragment. For a name in none of the tables nothing is read
/// and nothing is rendered.
pub fn generate_step(command: &str, cursor: &mut ArgCursor, base: &Bindings) -> (r: Result<
    StepResult,
    StepError,
>)
    requires
        old(cursor)@.settled(),
    ensures
        compiled_as(r, final(cursor)@, step_of(base@, command@, old(cursor)@)),
        r is Ok ==> final(cursor)@.settled(),
        command_of(command@) is None ==> final(cursor)@ == old(cursor)@,
{
    match parse_directive(command, cursor) {
        Err(e) => Err(e),
        Ok(parsed) => {
            let ParsedStep { directive, pushback } = parsed;
            match render_directive(command, &directive, base) {
                Err(e) => Err(e),
                Ok(script) => {
                    let is_query = directive.is_query();
                    Ok(
                        StepResult {
                            command: command.to_owned(),
                            directive,
                            script,
                            is_query,
                            next_arg: pushback,
                        },
                    )
                },
            }
        },
    }
}

} // verus!
