//! The pipeline compiler: directive after directive, between a header and a
//! footer.

use vstd::prelude::*;
use vstd::string::*;

use crate::catalog::{Fragment, command_of};
use crate::context::SessionContext;
use crate::directive::DirectiveView;
use crate::error::{CompileError, CompileErrorView, StepError, StepErrorView};
use crate::fragments::{SCRIPT_FOOTER, SCRIPT_HEADER, STEP_LAST_OUTPUT};
use crate::lexer::{ArgCursor, CursorView, Token, TokenView};
use crate::parser::{ScanView, lemma_parse_progress, long_option, parse_of, short_option};
use crate::step::{
    Record, StepOutcome, StepResult, StepView, generate_step, lemma_step_keeps_command,
    lemma_step_progress, step_of, step_text,
};
use crate::template::{Bindings, render, render_outcome};
use crate::text::{joined, text_view};

verus! {

/// A compiled pipeline, fragment by fragment.
#[derive(Debug, PartialEq, Eq)]
pub struct GeneratedScript {
    pub header: String,
    /// One step for each directive, in the order of the command line.
    pub steps: Vec<StepResult>,
    /// The fragment that reports the last result, present exactly if the last
    /// directive is a query.
    pub last_output: Option<String>,
    pub footer: String,
}

/// The mathematical content of a [`GeneratedScript`].
pub struct ScriptView {
    pub header: Seq<char>,
    pub steps: Seq<StepView>,
    pub last_output: Option<Seq<char>>,
    pub footer: Seq<char>,
}

/// The views of a sequence of steps.
pub open spec fn step_views(steps: Seq<StepResult>) -> Seq<StepView> {
    Seq::new(steps.len(), |i: int| steps[i]@)
}

impl View for GeneratedScript {
    type V = ScriptView;

    open spec fn view(&self) -> ScriptView {
        ScriptView {
            header: self.header@,
            steps: step_views(self.steps@),
            last_output: text_view(self.last_output),
            footer: self.footer@,
        }
    }
}

/// The fragments of a sequence of steps, one after the other.
pub open spec fn fragments(steps: Seq<StepView>) -> Seq<char>
    decreases steps.len(),
{
    if steps.len() == 0 {
        Seq::empty()
    } else {
        fragments(steps.drop_last()) + steps.last().script
    }
}

impl ScriptView {
    /// The fragment that reports the last result, empty where there is none.
    pub open spec fn trailing(self) -> Seq<char> {
        match self.last_output {
            Some(t) => t,
            None => Seq::empty(),
        }
    }

    /// The script as one text: header, steps, report of the last result,
    /// footer.
    pub open spec fn text(self) -> Seq<char> {
        self.header + fragments(self.steps) + self.trailing() + self.footer
    }
}

/// The error of a directive, under its name.
pub open spec fn in_command(command: Seq<char>, cause: StepErrorView) -> CompileErrorView {
    CompileErrorView::InCommand { command, cause }
}

/// `first` before what `rest` comes to.
pub open spec fn preceded<A, E>(first: A, rest: Result<Seq<A>, E>) -> Result<Seq<A>, E> {
    match rest {
        Ok(more) => Ok(seq![first] + more),
        Err(e) => Err(e),
    }
}

/// The steps of the pipeline that starts with the directive named `command`
/// and goes on with what `cursor` has unread.
///
/// Each directive starts afresh on the unread arguments. The next directive's
/// name is the argument that the step handed back, if it handed one back;
/// else the next token, which must be a value; else the pipeline is at its
/// end. The first error ends the compilation, under the name of the directive
/// that was being compiled.
pub open spec fn steps_of(base: Record, cursor: CursorView, command: Seq<char>) -> Result<
    Seq<StepView>,
    CompileErrorView,
>
    decreases cursor.unread.len(),
{
    match step_of(base, command, cursor.restarted()) {
        StepOutcome::Failed(e) => Err(in_command(command, e)),
        StepOutcome::Compiled { step, rest } => {
            proof {
                lemma_step_progress(base, command, cursor.restarted());
            }
            match step.next_arg {
                Some(next) => preceded(step, steps_of(base, rest, next)),
                None => match rest.next_token() {
                    None => Ok(seq![step]),
                    Some(TokenView::Value(next)) => preceded(
                        step,
                        steps_of(base, rest.after_next(), next),
                    ),
                    Some(TokenView::Long(name)) => Err(
                        in_command(command, StepErrorView::UnexpectedOption(long_option(name))),
                    ),
                    Some(TokenView::Short(c)) => Err(
                        in_command(command, StepErrorView::UnexpectedOption(short_option(c))),
                    ),
                },
            }
        },
    }
}

/// The fragment that reports the last result: rendered exactly if the last
/// step is a query.
pub open spec fn last_output_of(base: Record, steps: Seq<StepView>) -> Result<
    Option<Seq<char>>,
    StepErrorView,
> {
    if steps.len() > 0 && steps.last().is_query {
        match render_outcome(STEP_LAST_OUTPUT@, base) {
            Ok(t) => Ok(Some(t)),
            Err(e) => Err(e),
        }
    } else {
        Ok(None)
    }
}

/// The script that the pipeline `first args...` compiles to against the base
/// record `base`. The header is rendered first, then the steps, then the
/// report of the last result, then the footer; the first error ends it.
pub open spec fn compile_of(base: Record, args: Seq<Seq<char>>, first: Seq<char>) -> Result<
    ScriptView,
    CompileErrorView,
> {
    match render_outcome(SCRIPT_HEADER@, base) {
        Err(e) => Err(CompileErrorView::Frame(e)),
        Ok(header) => match steps_of(base, CursorView::start(args), first) {
            Err(e) => Err(e),
            Ok(steps) => match last_output_of(base, steps) {
                Err(e) => Err(CompileErrorView::Frame(e)),
                Ok(last_output) => match render_outcome(SCRIPT_FOOTER@, base) {
                    Err(e) => Err(CompileErrorView::Frame(e)),
                    Ok(footer) => Ok(ScriptView { header, steps, last_output, footer }),
                },
            },
        },
    }
}

/// A directive of a pipeline, under the name it was given.
pub struct NamedDirective {
    pub command: Seq<char>,
    pub directive: DirectiveView,
}

/// The directives of the pipeline that starts with the directive named
/// `command` and goes on with what `cursor` has unread: what the compiler
/// reads, with nothing rendered.
pub open spec fn directives_of(cursor: CursorView, command: Seq<char>) -> Result<
    Seq<NamedDirective>,
    CompileErrorView,
>
    decreases cursor.unread.len(),
{
    match parse_of(command, cursor.restarted()) {
        ScanView::Failed(e) => Err(in_command(command, e)),
        ScanView::Parsed { directive, pushback, rest } => {
            proof {
                lemma_parse_progress(command, cursor.restarted());
            }
            let head = NamedDirective { command, directive };
            match pushback {
                Some(next) => preceded(head, directives_of(rest, next)),
                None => match rest.next_token() {
                    None => Ok(seq![head]),
                    Some(TokenView::Value(next)) => preceded(
                        head,
                        directives_of(rest.after_next(), next),
                    ),
                    Some(TokenView::Long(name)) => Err(
                        in_command(command, StepErrorView::UnexpectedOption(long_option(name))),
                    ),
                    Some(TokenView::Short(c)) => Err(
                        in_command(command, StepErrorView::UnexpectedOption(short_option(c))),
                    ),
                },
            }
        },
    }
}

/// Whether `steps` are the compiled forms of `directives`, one for one and in
/// order: each step holds its directive, under the same name, with the
/// fragment that the directive renders to against `base`.
pub open spec fn steps_match(
    base: Record,
    steps: Seq<StepView>,
    directives: Seq<NamedDirective>,
) -> bool {
    &&& steps.len() == directives.len()
    &&& forall|i: int|
        0 <= i < steps.len() ==> {
            &&& (#[trigger] steps[i]).command == directives[i].command
            &&& steps[i].directive == directives[i].directive
            &&& steps[i].is_query == directives[i].directive.is_query()
            &&& step_text(base, directives[i].command, directives[i].directive) == Ok::<
                Seq<char>,
                StepErrorView,
            >(steps[i].script)
        }
}

/// Where the steps of a pipeline compile, its directives parse, and there is
/// exactly one step for each directive, in order. Where the directives do not
/// parse, the steps do not compile.
pub proof fn lemma_steps_follow_directives(base: Record, cursor: CursorView, command: Seq<char>)
    ensures
        steps_of(base, cursor, command) matches Ok(steps) ==> directives_of(cursor, command)
            matches Ok(directives) && directives.len() >= 1 && steps_match(base, steps, directives),
        directives_of(cursor, command) is Err ==> steps_of(base, cursor, command) is Err,
    decreases cursor.unread.len(),
{
    let start = cursor.restarted();
    lemma_step_progress(base, command, start);
    lemma_parse_progress(command, start);
    match parse_of(command, start) {
        ScanView::Failed(_) => {},
        ScanView::Parsed { directive, pushback, rest } => {
            let head = NamedDirective { command, directive };
            match step_of(base, command, start) {
                StepOutcome::Failed(_) => {},
                StepOutcome::Compiled { step, rest: _ } => {
                    match pushback {
                        Some(next) => {
                            lemma_steps_follow_directives(base, rest, next);
                            lemma_preceded_match(
                                base,
                                step,
                                head,
                                steps_of(base, rest, next),
                                directives_of(rest, next),
                            );
                        },
                        None => match rest.next_token() {
                            None => {},
                            Some(TokenView::Value(next)) => {
                                lemma_steps_follow_directives(base, rest.after_next(), next);
                                lemma_preceded_match(
                                    base,
                                    step,
                                    head,
                                    steps_of(base, rest.after_next(), next),
                                    directives_of(rest.after_next(), next),
                                );
                            },
                            _ => {},
                        },
                    }
                },
            }
        },
    }
}

/// Whether every directive of `directives` renders against `base`.
pub open spec fn all_render(base: Record, directives: Seq<NamedDirective>) -> bool {
    forall|i: int|
        0 <= i < directives.len() ==> step_text(
            base,
            (#[trigger] directives[i]).command,
            directives[i].directive,
        ) is Ok
}

/// Where the directives of a pipeline parse and each of them renders, the
/// steps compile.
pub proof fn lemma_directives_that_render_compile(
    base: Record,
    cursor: CursorView,
    command: Seq<char>,
)
    ensures
        directives_of(cursor, command) matches Ok(directives) ==> (all_render(base, directives)
            ==> steps_of(base, cursor, command) is Ok),
    decreases cursor.unread.len(),
{
    let start = cursor.restarted();
    lemma_parse_progress(command, start);
    match (directives_of(cursor, command), parse_of(command, start)) {
        (Ok(directives), ScanView::Parsed { directive, pushback, rest }) => {
            if all_render(base, directives) {
                let head = NamedDirective { command, directive };
                assert(directives[0] == head);
                assert(step_text(base, head.command, head.directive) is Ok);
                match pushback {
                    Some(next) => {
                        lemma_rest_renders(base, head, directives_of(rest, next));
                        lemma_directives_that_render_compile(base, rest, next);
                    },
                    None => match rest.next_token() {
                        Some(TokenView::Value(next)) => {
                            lemma_rest_renders(base, head, directives_of(rest.after_next(), next));
                            lemma_directives_that_render_compile(base, rest.after_next(), next);
                        },
                        _ => {},
                    },
                }
            }
        },
        _ => {},
    }
}

/// Where a sequence of directives renders, so does what follows its first.
proof fn lemma_rest_renders(
    base: Record,
    head: NamedDirective,
    rest: Result<Seq<NamedDirective>, CompileErrorView>,
)
    ensures
        preceded(head, rest) matches Ok(all) ==> (all_render(base, all) ==> (rest matches Ok(
            more,
        ) && all_render(base, more) && all[0] == head)),
{
    match rest {
        Ok(more) => {
            let all = seq![head] + more;
            if all_render(base, all) {
                assert forall|i: int| 0 <= i < more.len() implies step_text(
                    base,
                    (#[trigger] more[i]).command,
                    more[i].directive,
                ) is Ok by {
                    assert(all[i + 1] == more[i]);
                }
            }
        },
        Err(_) => {},
    }
}

/// Every error of a pipeline's steps names the directive that was being
/// compiled. That directive fails as an unknown command exactly if its name
/// stands for none.
pub proof fn lemma_step_errors_name_their_command(
    base: Record,
    cursor: CursorView,
    command: Seq<char>,
)
    ensures
        steps_of(base, cursor, command) matches Err(e) ==> e is InCommand,
        steps_of(base, cursor, command) matches Err(
            CompileErrorView::InCommand { command: failed, cause },
        ) ==> (cause is UnknownCommand ==> (command_of(failed) is None && cause
            == StepErrorView::UnknownCommand(failed))),
    decreases cursor.unread.len(),
{
    let start = cursor.restarted();
    lemma_step_progress(base, command, start);
    lemma_step_keeps_command(base, command, start);
    match step_of(base, command, start) {
        StepOutcome::Failed(e) => {
            if e is UnknownCommand {
                assert(parse_of(command, start) == ScanView::Failed(e));
            }
        },
        StepOutcome::Compiled { step, rest } => {
            match step.next_arg {
                Some(next) => {
                    lemma_step_errors_name_their_command(base, rest, next);
                },
                None => match rest.next_token() {
                    Some(TokenView::Value(next)) => {
                        lemma_step_errors_name_their_command(base, rest.after_next(), next);
                    },
                    _ => {},
                },
            }
        },
    }
}

/// Matching sequences still match with a matching pair put before them.
proof fn lemma_preceded_match(
    base: Record,
    step: StepView,
    head: NamedDirective,
    steps: Result<Seq<StepView>, CompileErrorView>,
    directives: Result<Seq<NamedDirective>, CompileErrorView>,
)
    requires
        steps_match(base, seq![step], seq![head]),
        steps matches Ok(s) ==> directives matches Ok(d) && steps_match(base, s, d),
    ensures
        preceded(step, steps) matches Ok(s) ==> preceded(head, directives) matches Ok(d)
            && steps_match(base, s, d),
{
    match steps {
        Ok(s) => {
            let d = directives->Ok_0;
            let all = seq![step] + s;
            let named = seq![head] + d;
            assert forall|i: int| 0 <= i < all.len() implies {
                &&& (#[trigger] all[i]).command == named[i].command
                &&& all[i].directive == named[i].directive
                &&& all[i].is_query == named[i].directive.is_query()
                &&& step_text(base, named[i].command, named[i].directive) == Ok::<
                    Seq<char>,
                    StepErrorView,
                >(all[i].script)
            } by {
                if i == 0 {
                    assert(all[0] == seq![step][0]);
                    assert(named[0] == seq![head][0]);
                } else {
                    assert(all[i] == s[i - 1]);
                    assert(named[i] == d[i - 1]);
                }
            }
        },
        Err(_) => {},
    }
}

/// A pipeline of N directives compiles to a script with exactly N fragments
/// between its header and its footer, the i-th being the fragment of the i-th
/// directive; behind them stands the report of the last result exactly if
/// the last directive is a query, and nothing else.
pub proof fn lemma_one_fragment_per_directive(base: Record, args: Seq<Seq<char>>, first: Seq<char>)
    ensures
        compile_of(base, args, first) matches Ok(script) ==> {
            &&& directives_of(CursorView::start(args), first) matches Ok(directives)
            &&& directives.len() >= 1
            &&& steps_match(base, script.steps, directives)
            &&& (script.last_output is Some <==> directives.last().directive.is_query())
            &&& script.text() == script.header + fragments(script.steps) + script.trailing()
                + script.footer
        },
{
    lemma_steps_follow_directives(base, CursorView::start(args), first);
}

/// The script ends with the report of the last result exactly if the last
/// step is a query; the report is the one fragment for that purpose, rendered
/// against the base record.
pub proof fn lemma_last_output_iff_query(base: Record, args: Seq<Seq<char>>, first: Seq<char>)
    ensures
        compile_of(base, args, first) matches Ok(script) ==> {
            &&& script.steps.len() >= 1
            &&& (script.last_output is Some <==> script.steps.last().is_query)
            &&& (script.last_output matches Some(t) ==> render_outcome(STEP_LAST_OUTPUT@, base)
                == Ok::<Seq<char>, StepErrorView>(t))
            &&& (script.last_output is None ==> script.text() == script.header + fragments(
                script.steps,
            ) + script.footer)
        },
{
    lemma_steps_follow_directives(base, CursorView::start(args), first);
    match compile_of(base, args, first) {
        Ok(script) => {
            if script.last_output is None {
                assert(script.header + fragments(script.steps) + Seq::<char>::empty()
                    =~= script.header + fragments(script.steps));
            }
        },
        Err(_) => {},
    }
}

/// The view of a compiled script or the error in its place.
pub open spec fn script_view(r: Result<GeneratedScript, CompileError>) -> Result<
    ScriptView,
    CompileErrorView,
> {
    match r {
        Ok(s) => Ok(s@),
        Err(e) => Err(e@),
    }
}

/// The view of a list of steps or the error in its place.
pub open spec fn steps_view(r: Result<Vec<StepResult>, CompileError>) -> Result<
    Seq<StepView>,
    CompileErrorView,
> {
    match r {
        Ok(s) => Ok(step_views(s@)),
        Err(e) => Err(e@),
    }
}

/// `done`, then what `rest` comes to.
pub open spec fn continued<A, E>(done: Seq<A>, rest: Result<Seq<A>, E>) -> Result<Seq<A>, E> {
    match rest {
        Ok(more) => Ok(done + more),
        Err(e) => Err(e),
    }
}

/// Compiles the steps of the pipeline that starts with the directive named
/// `first` and goes on with what the cursor has unread.
#[verifier::loop_isolation(false)]
pub fn compile_steps(base: &Bindings, cursor: &mut ArgCursor, first: &str) -> (r: Result<
    Vec<StepResult>,
    CompileError,
>)
    requires
        old(cursor)@.settled(),
    ensures
        steps_view(r) == steps_of(base@, old(cursor)@, first@),
{
    let ghost goal = steps_of(base@, cursor@, first@);
    let mut steps: Vec<StepResult> = Vec::new();
    let mut command: String = first.to_owned();
    assert(step_views(steps@) =~= Seq::<StepView>::empty());
    assert(continued(step_views(steps@), steps_of(base@, cursor@, command@)) == goal) by {
        match steps_of(base@, cursor@, command@) {
            Ok(more) => {
                assert(step_views(steps@) + more =~= more);
            },
            Err(_) => {},
        }
    }
    loop
        invariant
            cursor@.settled(),
            continued(step_views(steps@), steps_of(base@, cursor@, command@)) == goal,
        decreases cursor@.unread.len(),
    {
        let ghost before = cursor@;
        let ghost done = step_views(steps@);
        cursor.restart();
        proof {
            lemma_step_progress(base@, command@, before.restarted());
        }
        let step = match generate_step(command.as_str(), cursor, base) {
            Ok(step) => step,
            Err(cause) => {
                return Err(CompileError::InCommand { command, cause });
            },
        };
        let ghost view = step@;
        let ghost rest = cursor@;
        let next = match &step.next_arg {
            Some(next) => Some(next.clone()),
            None => None,
        };
        steps.push(step);
        assert(step_views(steps@) =~= done.push(view));
        match next {
            Some(next) => {
                proof {
                    match steps_of(base@, rest, next@) {
                        Ok(more) => {
                            assert(done.push(view) + more =~= done + (seq![view] + more));
                        },
                        Err(_) => {},
                    }
                }
                command = next;
            },
            None => {
                match cursor.next() {
                    None => {
                        assert(done.push(view) =~= done + seq![view]);
                        return Ok(steps);
                    },
                    Some(Token::Value(next)) => {
                        proof {
                            match steps_of(base@, rest.after_next(), next@) {
                                Ok(more) => {
                                    assert(done.push(view) + more =~= done + (seq![view] + more));
                                },
                                Err(_) => {},
                            }
                        }
                        command = next;
                    },
                    Some(Token::Long(name)) => {
                        let option = joined("--", name.as_str());
                        return Err(
                            CompileError::InCommand {
                                command,
                                cause: StepError::UnexpectedOption(option),
                            },
                        );
                    },
                    Some(Token::Short(c)) => {
                        let mut option = "-".to_owned();
                        option.push(c);
                        assert(option@ =~= short_option(c));
                        return Err(
                            CompileError::InCommand {
                                command,
                                cause: StepError::UnexpectedOption(option),
                            },
                        );
                    },
                }
            },
        }
    }
}

impl GeneratedScript {
    /// The script as one text.
    pub fn text(&self) -> (r: String)
        ensures
            r@ == self@.text(),
    {
        let mut out = self.header.clone();
        let n: usize = self.steps.len();
        let mut i: usize = 0;
        assert(step_views(self.steps@).subrange(0, 0) =~= Seq::<StepView>::empty());
        assert(out@ =~= self.header@ + fragments(Seq::<StepView>::empty()));
        while i < n
            invariant
                0 <= i <= n,
                n == self.steps@.len(),
                out@ == self.header@ + fragments(step_views(self.steps@).subrange(0, i as int)),
            decreases n - i,
        {
            out.append(self.steps[i].script.as_str());
            proof {
                let all = step_views(self.steps@);
                let upto = all.subrange(0, i + 1);
                assert(upto.drop_last() =~= all.subrange(0, i as int));
                assert(upto.last() == self.steps@[i as int]@);
                assert(out@ =~= self.header@ + fragments(upto));
            }
            i += 1;
        }
        proof {
            let all = step_views(self.steps@);
            assert(all.subrange(0, n as int) =~= all);
        }
        match &self.last_output {
            Some(t) => {
                out.append(t.as_str());
            },
            None => {
                assert(out@ + Seq::<char>::empty() =~= out@);
            },
        }
        out.append(self.footer.as_str());
        out
    }
}

/// Compiles the pipeline `first args...` into a script, fragment by fragment.
pub fn compile_pipeline(context: &SessionContext, args: &Vec<String>, first: &str) -> (r: Result<
    GeneratedScript,
    CompileError,
>)
    ensures
        script_view(r) == compile_of(context@.record(), args.deep_view(), first@),
{
    let base = context.bindings();
    let header = match render(Fragment::Header, &base) {
        Ok(t) => t,
        Err(e) => {
            return Err(CompileError::Frame(e));
        },
    };
    let mut cursor = ArgCursor::new(args);
    let steps = match compile_steps(&base, &mut cursor, first) {
        Ok(steps) => steps,
        Err(e) => {
            return Err(e);
        },
    };
    let n: usize = steps.len();
    let last_output = if n > 0 && steps[n - 1].is_query {
        match render(Fragment::LastOutput, &base) {
            Ok(t) => Some(t),
            Err(e) => {
                return Err(CompileError::Frame(e));
            },
        }
    } else {
        None
    };
    let footer = match render(Fragment::Footer, &base) {
        Ok(t) => t,
        Err(e) => {
            return Err(CompileError::Frame(e));
        },
    };
    Ok(GeneratedScript { header, steps, last_output, footer })
}

/// What [`generate_script`] returns for the outcome of a compilation.
pub open spec fn text_of(outcome: Result<ScriptView, CompileErrorView>) -> Result<
    Seq<char>,
    CompileErrorView,
> {
    match outcome {
        Ok(script) => Ok(script.text()),
        Err(e) => Err(e),
    }
}

/// The view of a script text or the error in its place.
pub open spec fn output_view(r: Result<String, CompileError>) -> Result<
    Seq<char>,
    CompileErrorView,
> {
    match r {
        Ok(t) => Ok(t@),
        Err(e) => Err(e@),
    }
}

/// Compiles the pipeline `next_arg args...` into the text of one script.
pub fn generate_script(context: &SessionContext, args: &Vec<String>, next_arg: &str) -> (r: Result<
    String,
    CompileError,
>)
    ensures
        output_view(r) == text_of(compile_of(context@.record(), args.deep_view(), next_arg@)),
{
    match compile_pipeline(context, args, next_arg) {
        Ok(script) => Ok(script.text()),
        Err(e) => Err(e),
    }
}

} // verus!
