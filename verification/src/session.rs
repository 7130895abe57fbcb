//! The session protocol: which step follows which when a script is shipped
//! to the host, and what is printed of the messages that come back.
//!
//! The steps themselves are not taken here. The caller performs each action
//! and reports how it ended; [`advance`] decides what comes next. Every
//! failure is final: nothing is tried twice.

use vstd::prelude::*;
use vstd::string::*;

use crate::context::{SessionContext, SessionContextView};
use crate::error::{CompileError, CompileErrorView};
use crate::pipeline::{compile_of, generate_script, output_view, text_of};
use crate::text::{decimal, int_text, joined, same_text};

verus! {

/// The bus name of the scripting host.
pub const HOST: &'static str = "org.kde.KWin";

/// The object that loads and unloads scripts.
pub const SCRIPTING_PATH: &'static str = "/Scripting";

/// The interface of the object that loads and unloads scripts.
pub const SCRIPTING_INTERFACE: &'static str = "org.kde.kwin.Scripting";

/// The interface of a loaded script instance.
pub const SCRIPT_INTERFACE: &'static str = "org.kde.kwin.Script";

/// The member that loads a script: `(path, name) -> (id)`.
pub const LOAD_SCRIPT: &'static str = "loadScript";

/// The member that unloads a script: `(name) -> ()`.
pub const UNLOAD_SCRIPT: &'static str = "unloadScript";

/// The member that runs a script instance.
pub const RUN: &'static str = "run";

/// The member that stops a script instance.
pub const STOP: &'static str = "stop";

/// How long every remote call waits for its reply, in milliseconds.
pub const REPLY_TIMEOUT_MS: u64 = 5000;

/// How long the listener waits for a message before it looks again, in
/// milliseconds.
pub const LISTENER_WAIT_MS: u64 = 1000;

/// What the user asked this invocation to do.
#[derive(Clone, Copy, Debug, PartialEq, Eq)]
pub struct Invocation {
    /// Unload a script by name and do nothing else.
    pub remove: bool,
    /// Print the script and call nothing.
    pub dry_run: bool,
}

/// Where the session stands: the action that is under way.
#[derive(Clone, Copy, Debug, PartialEq, Eq)]
pub enum Phase {
    Begin,
    Connecting,
    Unloading,
    Addressing,
    Storing,
    Printing,
    Loading,
    Listening(i32),
    Running(i32),
    Stopping(i32),
    Draining(i32),
    Summarising(i32),
    Finished,
    Aborted,
}

/// How the action under way ended.
#[derive(Clone, Copy, Debug, PartialEq, Eq)]
pub enum Event {
    /// Nothing is under way yet.
    Begun,
    Succeeded,
    /// The host loaded the script and gave it this number.
    Loaded(i32),
    Failed,
}

/// What the caller is to do next.
#[derive(Debug, PartialEq, Eq)]
pub enum Action {
    /// Open the control channel to the host.
    Connect,
    /// Remote call: unload the script of this name.
    Unload { name: String },
    /// Open the private channel on which the script's reports arrive.
    OpenReceiver,
    /// Compile the script and store it in a file of its own.
    Store,
    /// Print the script.
    PrintScript,
    /// Remote call: load the stored script under this name.
    Load { name: String },
    /// Start the one listener on the private channel.
    Listen,
    /// Remote call: run the script instance at this path.
    Run { path: String },
    /// Remote call: stop the script instance at this path.
    Stop { path: String },
    /// Print the messages that have arrived.
    Drain,
    /// Print the registration of the shortcut for this script number.
    Summarise { id: i32 },
    /// Leave with success.
    Exit,
    /// Leave with failure.
    Abort,
}

/// The mathematical content of an [`Action`].
pub enum ActionView {
    Connect,
    Unload { name: Seq<char> },
    OpenReceiver,
    Store,
    PrintScript,
    Load { name: Seq<char> },
    Listen,
    Run { path: Seq<char> },
    Stop { path: Seq<char> },
    Drain,
    Summarise { id: i32 },
    Exit,
    Abort,
}

impl View for Action {
    type V = ActionView;

    open spec fn view(&self) -> ActionView {
        match self {
            Action::Connect => ActionView::Connect,
            Action::Unload { name } => ActionView::Unload { name: name@ },
            Action::OpenReceiver => ActionView::OpenReceiver,
            Action::Store => ActionView::Store,
            Action::PrintScript => ActionView::PrintScript,
            Action::Load { name } => ActionView::Load { name: name@ },
            Action::Listen => ActionView::Listen,
            Action::Run { path } => ActionView::Run { path: path@ },
            Action::Stop { path } => ActionView::Stop { path: path@ },
            Action::Drain => ActionView::Drain,
            Action::Summarise { id } => ActionView::Summarise { id: *id },
            Action::Exit => ActionView::Exit,
            Action::Abort => ActionView::Abort,
        }
    }
}

impl ActionView {
    /// Whether the action is a call to the host.
    pub open spec fn is_remote_call(self) -> bool {
        self is Unload || self is Load || self is Run || self is Stop
    }

    /// Whether the action ends the session.
    pub open spec fn is_last(self) -> bool {
        self is Exit || self is Abort
    }
}

/// The object path of a script instance. Hosts of the older version address
/// it as `/<id>`, the others as `/Scripting/Script<id>`.
pub open spec fn instance_path(kde5: bool, id: i32) -> Seq<char> {
    if kde5 {
        "/"@ + int_text(id as int)
    } else {
        "/Scripting/Script"@ + int_text(id as int)
    }
}

/// The next phase and the action that starts it.
///
/// A removal connects, unloads and leaves. Every other invocation connects,
/// opens its private channel and stores the script; a dry run then prints it
/// and leaves. Otherwise the script is loaded, the listener started, the
/// script run and, unless it stays behind a shortcut, stopped at once; then
/// the messages are printed, and for a shortcut its registration. A failure,
/// or an event that the phase does not expect, ends the session.
pub open spec fn transition(
    invocation: Invocation,
    context: SessionContextView,
    phase: Phase,
    event: Event,
) -> (Phase, ActionView) {
    match (phase, event) {
        (Phase::Begin, Event::Begun) => (Phase::Connecting, ActionView::Connect),
        (Phase::Connecting, Event::Succeeded) => if invocation.remove {
            (Phase::Unloading, ActionView::Unload { name: context.script_name })
        } else {
            (Phase::Addressing, ActionView::OpenReceiver)
        },
        (Phase::Unloading, Event::Succeeded) => (Phase::Finished, ActionView::Exit),
        (Phase::Addressing, Event::Succeeded) => (Phase::Storing, ActionView::Store),
        (Phase::Storing, Event::Succeeded) => if invocation.dry_run {
            (Phase::Printing, ActionView::PrintScript)
        } else {
            (Phase::Loading, ActionView::Load { name: context.script_name })
        },
        (Phase::Printing, Event::Succeeded) => (Phase::Finished, ActionView::Exit),
        (Phase::Loading, Event::Loaded(id)) => (Phase::Listening(id), ActionView::Listen),
        (Phase::Listening(id), Event::Succeeded) => (
            Phase::Running(id),
            ActionView::Run { path: instance_path(context.kde5, id) },
        ),
        (Phase::Running(id), Event::Succeeded) => if context.persistent() {
            (Phase::Draining(id), ActionView::Drain)
        } else {
            (Phase::Stopping(id), ActionView::Stop { path: instance_path(context.kde5, id) })
        },
        (Phase::Stopping(id), Event::Succeeded) => (Phase::Draining(id), ActionView::Drain),
        (Phase::Draining(id), Event::Succeeded) => if context.persistent() {
            (Phase::Summarising(id), ActionView::Summarise { id })
        } else {
            (Phase::Finished, ActionView::Exit)
        },
        (Phase::Summarising(_), Event::Succeeded) => (Phase::Finished, ActionView::Exit),
        _ => (Phase::Aborted, ActionView::Abort),
    }
}

/// Writes the object path of a script instance.
pub fn script_path(kde5: bool, id: i32) -> (r: String)
    ensures
        r@ == instance_path(kde5, id),
{
    let number = decimal(id);
    if kde5 {
        joined("/", number.as_str())
    } else {
        joined("/Scripting/Script", number.as_str())
    }
}

/// Decides what comes next, from where the session stands and how the action
/// under way ended.
pub fn advance(invocation: Invocation, context: &SessionContext, phase: Phase, event: Event) -> (r:
    (Phase, Action))
    ensures
        (r.0, r.1@) == transition(invocation, context@, phase, event),
{
    match (phase, event) {
        (Phase::Begin, Event::Begun) => (Phase::Connecting, Action::Connect),
        (Phase::Connecting, Event::Succeeded) => {
            if invocation.remove {
                (Phase::Unloading, Action::Unload { name: context.script_name.clone() })
            } else {
                (Phase::Addressing, Action::OpenReceiver)
            }
        },
        (Phase::Unloading, Event::Succeeded) => (Phase::Finished, Action::Exit),
        (Phase::Addressing, Event::Succeeded) => (Phase::Storing, Action::Store),
        (Phase::Storing, Event::Succeeded) => {
            if invocation.dry_run {
                (Phase::Printing, Action::PrintScript)
            } else {
                (Phase::Loading, Action::Load { name: context.script_name.clone() })
            }
        },
        (Phase::Printing, Event::Succeeded) => (Phase::Finished, Action::Exit),
        (Phase::Loading, Event::Loaded(id)) => (Phase::Listening(id), Action::Listen),
        (Phase::Listening(id), Event::Succeeded) => (
            Phase::Running(id),
            Action::Run { path: script_path(context.kde5, id) },
        ),
        (Phase::Running(id), Event::Succeeded) => {
            if context.persistent() {
                (Phase::Draining(id), Action::Drain)
            } else {
                (Phase::Stopping(id), Action::Stop { path: script_path(context.kde5, id) })
            }
        },
        (Phase::Stopping(id), Event::Succeeded) => (Phase::Draining(id), Action::Drain),
        (Phase::Draining(id), Event::Succeeded) => {
            if context.persistent() {
                (Phase::Summarising(id), Action::Summarise { id })
            } else {
                (Phase::Finished, Action::Exit)
            }
        },
        (Phase::Summarising(_), Event::Succeeded) => (Phase::Finished, Action::Exit),
        _ => (Phase::Aborted, Action::Abort),
    }
}

/// The event that reports the success of `action`, where the host gives a
/// loaded script the number `id`.
pub open spec fn success_of(action: ActionView, id: i32) -> Event {
    if action is Load {
        Event::Loaded(id)
    } else {
        Event::Succeeded
    }
}

/// The actions of a session in which nothing fails, from `phase` on, at most
/// `limit` of them.
pub open spec fn actions_from(
    invocation: Invocation,
    context: SessionContextView,
    phase: Phase,
    event: Event,
    id: i32,
    limit: nat,
) -> Seq<ActionView>
    decreases limit,
{
    if limit == 0 {
        Seq::empty()
    } else {
        let (next, action) = transition(invocation, context, phase, event);
        if action.is_last() {
            seq![action]
        } else {
            seq![action] + actions_from(
                invocation,
                context,
                next,
                success_of(action, id),
                id,
                (limit - 1) as nat,
            )
        }
    }
}

/// The whole of a session in which nothing fails.
pub open spec fn session_actions(invocation: Invocation, context: SessionContextView, id: i32) -> Seq<
    ActionView,
> {
    actions_from(invocation, context, Phase::Begin, Event::Begun, id, 12)
}

/// How many of `actions` are calls to the host.
pub open spec fn remote_calls(actions: Seq<ActionView>) -> nat
    decreases actions.len(),
{
    if actions.len() == 0 {
        0
    } else {
        remote_calls(actions.drop_last()) + if actions.last().is_remote_call() {
            1nat
        } else {
            0nat
        }
    }
}

/// A removal makes exactly one call to the host, the unloading of the named
/// script, and never compiles or stores a script.
pub proof fn lemma_remove_makes_one_call(invocation: Invocation, context: SessionContextView, id: i32)
    requires
        invocation.remove,
    ensures
        session_actions(invocation, context, id) == seq![
            ActionView::Connect,
            ActionView::Unload { name: context.script_name },
            ActionView::Exit,
        ],
        remote_calls(session_actions(invocation, context, id)) == 1,
        forall|i: int|
            0 <= i < session_actions(invocation, context, id).len() ==> !(#[trigger] session_actions(
                invocation,
                context,
                id,
            )[i] is Store),
{
    reveal_with_fuel(actions_from, 4);
    let expected = seq![
        ActionView::Connect,
        ActionView::Unload { name: context.script_name },
        ActionView::Exit,
    ];
    assert(session_actions(invocation, context, id) =~= expected);
    lemma_count_three(expected);
}

/// A dry run stores the script, prints it and makes no call to the host.
pub proof fn lemma_dry_run_makes_no_call(invocation: Invocation, context: SessionContextView, id: i32)
    requires
        !invocation.remove,
        invocation.dry_run,
    ensures
        session_actions(invocation, context, id) == seq![
            ActionView::Connect,
            ActionView::OpenReceiver,
            ActionView::Store,
            ActionView::PrintScript,
            ActionView::Exit,
        ],
        forall|i: int|
            0 <= i < session_actions(invocation, context, id).len() ==> !(#[trigger] session_actions(
                invocation,
                context,
                id,
            )[i]).is_remote_call(),
{
    reveal_with_fuel(actions_from, 6);
    let expected = seq![
        ActionView::Connect,
        ActionView::OpenReceiver,
        ActionView::Store,
        ActionView::PrintScript,
        ActionView::Exit,
    ];
    assert(session_actions(invocation, context, id) =~= expected);
}

/// A full run loads, listens, runs, stops unless a shortcut keeps the script,
/// and prints: in this order, one action at a time, with one listener and at
/// most three calls to the host.
pub proof fn lemma_run_order(invocation: Invocation, context: SessionContextView, id: i32)
    requires
        !invocation.remove,
        !invocation.dry_run,
    ensures
        !context.persistent() ==> session_actions(invocation, context, id) == seq![
            ActionView::Connect,
            ActionView::OpenReceiver,
            ActionView::Store,
            ActionView::Load { name: context.script_name },
            ActionView::Listen,
            ActionView::Run { path: instance_path(context.kde5, id) },
            ActionView::Stop { path: instance_path(context.kde5, id) },
            ActionView::Drain,
            ActionView::Exit,
        ],
        context.persistent() ==> session_actions(invocation, context, id) == seq![
            ActionView::Connect,
            ActionView::OpenReceiver,
            ActionView::Store,
            ActionView::Load { name: context.script_name },
            ActionView::Listen,
            ActionView::Run { path: instance_path(context.kde5, id) },
            ActionView::Drain,
            ActionView::Summarise { id },
            ActionView::Exit,
        ],
{
    reveal_with_fuel(actions_from, 10);
    if context.persistent() {
        assert(session_actions(invocation, context, id) =~= seq![
            ActionView::Connect,
            ActionView::OpenReceiver,
            ActionView::Store,
            ActionView::Load { name: context.script_name },
            ActionView::Listen,
            ActionView::Run { path: instance_path(context.kde5, id) },
            ActionView::Drain,
            ActionView::Summarise { id },
            ActionView::Exit,
        ]);
    } else {
        assert(session_actions(invocation, context, id) =~= seq![
            ActionView::Connect,
            ActionView::OpenReceiver,
            ActionView::Store,
            ActionView::Load { name: context.script_name },
            ActionView::Listen,
            ActionView::Run { path: instance_path(context.kde5, id) },
            ActionView::Stop { path: instance_path(context.kde5, id) },
            ActionView::Drain,
            ActionView::Exit,
        ]);
    }
}

/// The actions of a session from `phase` on, one for each of `events` in
/// turn, however the actions end.
pub open spec fn actions_under(
    invocation: Invocation,
    context: SessionContextView,
    phase: Phase,
    events: Seq<Event>,
) -> Seq<ActionView>
    decreases events.len(),
{
    if events.len() == 0 {
        Seq::empty()
    } else {
        let (next, action) = transition(invocation, context, phase, events[0]);
        seq![action] + actions_under(invocation, context, next, events.skip(1))
    }
}

/// Whether a removal can be in `phase`.
pub open spec fn removal_phase(phase: Phase) -> bool {
    phase is Begin || phase is Connecting || phase is Unloading || phase is Finished || phase
        is Aborted
}

/// Whether a removal can take `action`: it connects, unloads the named script
/// and leaves. It never stores a script, which is the one action that
/// compiles, and never loads, runs or stops one.
pub open spec fn removal_action(context: SessionContextView, action: ActionView) -> bool {
    action is Connect || action == (ActionView::Unload { name: context.script_name }) || action
        is Exit || action is Abort
}

/// One action before others adds its own count to theirs.
proof fn lemma_remote_calls_first(action: ActionView, rest: Seq<ActionView>)
    ensures
        remote_calls(seq![action] + rest) == remote_calls(rest) + (if action.is_remote_call() {
            1nat
        } else {
            0nat
        }),
    decreases rest.len(),
{
    let all = seq![action] + rest;
    if rest.len() == 0 {
        assert(all.drop_last() =~= Seq::<ActionView>::empty());
        assert(all.last() == action);
        assert(remote_calls(all.drop_last()) == 0);
    } else {
        assert(all.drop_last() =~= seq![action] + rest.drop_last());
        assert(all.last() == rest.last());
        lemma_remote_calls_first(action, rest.drop_last());
    }
}

/// What holds of a removal from any phase it can be in, whatever the events.
proof fn lemma_removal_from(
    invocation: Invocation,
    context: SessionContextView,
    phase: Phase,
    events: Seq<Event>,
)
    requires
        invocation.remove,
        removal_phase(phase),
    ensures
        forall|i: int|
            0 <= i < actions_under(invocation, context, phase, events).len() ==> removal_action(
                context,
                #[trigger] actions_under(invocation, context, phase, events)[i],
            ),
        remote_calls(actions_under(invocation, context, phase, events)) <= (if phase is Begin
            || phase is Connecting {
            1nat
        } else {
            0nat
        }),
    decreases events.len(),
{
    if events.len() > 0 {
        let (next, action) = transition(invocation, context, phase, events[0]);
        let rest = actions_under(invocation, context, next, events.skip(1));
        lemma_removal_from(invocation, context, next, events.skip(1));
        lemma_remote_calls_first(action, rest);
        let all = seq![action] + rest;
        assert forall|i: int| 0 <= i < all.len() implies removal_action(
            context,
            #[trigger] all[i],
        ) by {
            if i > 0 {
                assert(all[i] == rest[i - 1]);
            }
        }
    }
}

/// A removal never compiles and never renders, whatever happens: however its
/// actions end, each of them is the connection, the unloading of the named
/// script, or the leaving, and at most one of them is a call to the host.
pub proof fn lemma_removal_never_compiles(
    invocation: Invocation,
    context: SessionContextView,
    events: Seq<Event>,
)
    requires
        invocation.remove,
    ensures
        forall|i: int|
            0 <= i < actions_under(invocation, context, Phase::Begin, events).len()
                ==> removal_action(
                context,
                #[trigger] actions_under(invocation, context, Phase::Begin, events)[i],
            ),
        remote_calls(actions_under(invocation, context, Phase::Begin, events)) <= 1,
{
    lemma_removal_from(invocation, context, Phase::Begin, events);
}

/// A failure ends the session whatever was under way: nothing is retried.
pub proof fn lemma_failure_is_final(invocation: Invocation, context: SessionContextView, phase: Phase)
    ensures
        transition(invocation, context, phase, Event::Failed) == (Phase::Aborted, ActionView::Abort),
{
}

/// Counts the calls among three actions.
proof fn lemma_count_three(actions: Seq<ActionView>)
    requires
        actions.len() == 3,
    ensures
        remote_calls(actions) == (if actions[0].is_remote_call() {
            1nat
        } else {
            0nat
        }) + (if actions[1].is_remote_call() {
            1nat
        } else {
            0nat
        }) + (if actions[2].is_remote_call() {
            1nat
        } else {
            0nat
        }),
{
    let two = actions.drop_last();
    let one = two.drop_last();
    assert(one.drop_last().len() == 0);
    reveal_with_fuel(remote_calls, 4);
    assert(two.last() == actions[1]);
    assert(one.last() == actions[0]);
}

/// The script that an invocation stores: the text of the compiled pipeline,
/// or the error that ended the compilation. The kind of invocation has no
/// part in it.
pub open spec fn stored_text(
    invocation: Invocation,
    context: SessionContextView,
    args: Seq<Seq<char>>,
    first: Seq<char>,
) -> Result<Seq<char>, CompileErrorView> {
    text_of(compile_of(context.record(), args, first))
}

/// Compiles the script that the invocation stores.
pub fn store_script(
    invocation: Invocation,
    context: &SessionContext,
    args: &Vec<String>,
    first: &str,
) -> (r: Result<String, CompileError>)
    ensures
        output_view(r) == stored_text(invocation, context@, args.deep_view(), first@),
{
    generate_script(context, args, first)
}

/// A dry run and a full run store the same script, character for character,
/// where the context and the arguments are the same; so do any two
/// invocations.
pub proof fn lemma_same_script_in_every_mode(
    one: Invocation,
    other: Invocation,
    context: SessionContextView,
    args: Seq<Seq<char>>,
    first: Seq<char>,
)
    ensures
        stored_text(one, context, args, first) == stored_text(other, context, args, first),
{
}

/// One report from the running script: the name of the method that was
/// called on the private channel, and its first argument.
#[derive(Debug, PartialEq, Eq)]
pub struct Message {
    pub tag: String,
    pub payload: String,
}

/// The mathematical content of a [`Message`].
pub struct MessageView {
    pub tag: Seq<char>,
    pub payload: Seq<char>,
}

impl View for Message {
    type V = MessageView;

    open spec fn view(&self) -> MessageView {
        MessageView { tag: self.tag@, payload: self.payload@ }
    }
}

/// One line of output.
#[derive(Debug, PartialEq, Eq)]
pub enum Output {
    /// A line for the standard output.
    Standard(String),
    /// A line for the standard error.
    Diagnostic(String),
}

/// The mathematical content of an [`Output`].
pub enum OutputView {
    Standard(Seq<char>),
    Diagnostic(Seq<char>),
}

impl View for Output {
    type V = OutputView;

    open spec fn view(&self) -> OutputView {
        match self {
            Output::Standard(t) => OutputView::Standard(t@),
            Output::Diagnostic(t) => OutputView::Diagnostic(t@),
        }
    }
}

impl MessageView {
    /// The line that a message is printed as: a result as it is, an error as
    /// a diagnostic, anything else under its tag.
    pub open spec fn line(self) -> OutputView {
        if self.tag == "result"@ {
            OutputView::Standard(self.payload)
        } else if self.tag == "error"@ {
            OutputView::Diagnostic("ERROR: "@ + self.payload)
        } else {
            OutputView::Standard(self.tag + ": "@ + self.payload)
        }
    }
}

/// The views of a log of messages.
pub open spec fn message_views(log: Seq<Message>) -> Seq<MessageView> {
    Seq::new(log.len(), |i: int| log[i]@)
}

/// The views of a list of output lines.
pub open spec fn output_views(lines: Seq<Output>) -> Seq<OutputView> {
    Seq::new(lines.len(), |i: int| lines[i]@)
}

/// The lines that a log is printed as: one for each message, in the order of
/// arrival.
pub open spec fn lines_of(log: Seq<MessageView>) -> Seq<OutputView> {
    Seq::new(log.len(), |i: int| log[i].line())
}

impl Message {
    /// The line that the message is printed as.
    pub fn line(&self) -> (r: Output)
        ensures
            r@ == self@.line(),
    {
        if same_text(self.tag.as_str(), "result") {
            Output::Standard(self.payload.clone())
        } else if same_text(self.tag.as_str(), "error") {
            Output::Diagnostic(joined("ERROR: ", self.payload.as_str()))
        } else {
            let mut text = joined(self.tag.as_str(), ": ");
            text.append(self.payload.as_str());
            Output::Standard(text)
        }
    }
}

/// Appends one report to the log. The listener is the only caller.
pub fn record(log: &mut Vec<Message>, tag: &str, payload: &str)
    ensures
        message_views(final(log)@) == message_views(old(log)@).push(
            MessageView { tag: tag@, payload: payload@ },
        ),
{
    log.push(Message { tag: tag.to_owned(), payload: payload.to_owned() });
    assert(message_views(log@) =~= message_views(old(log)@).push(
        MessageView { tag: tag@, payload: payload@ },
    ));
}

/// The lines to print for the messages that have arrived, in the order of
/// arrival.
pub fn drain(log: &Vec<Message>) -> (r: Vec<Output>)
    ensures
        output_views(r@) == lines_of(message_views(log@)),
{
    let mut lines: Vec<Output> = Vec::new();
    let n: usize = log.len();
    let mut i: usize = 0;
    while i < n
        invariant
            0 <= i <= n,
            n == log@.len(),
            lines@.len() == i,
            forall|j: int| 0 <= j < i ==> lines@[j]@ == log@[j]@.line(),
        decreases n - i,
    {
        lines.push(log[i].line());
        i += 1;
    }
    assert(output_views(lines@) =~= lines_of(message_views(log@)));
    lines
}

/// The lines that report a registered shortcut: the shortcut, the script's
/// number, and the script's name if it has one.
pub open spec fn summary_of(context: SessionContextView, id: i32) -> Seq<Seq<char>> {
    let base = seq![
        "Shortcut registered: "@ + context.shortcut,
        "Script ID: "@ + int_text(id as int),
    ];
    if context.script_name.len() > 0 {
        base.push("Script name: "@ + context.script_name)
    } else {
        base
    }
}

/// Writes the lines that report a registered shortcut.
pub fn summary(context: &SessionContext, id: i32) -> (r: Vec<String>)
    ensures
        r.deep_view() == summary_of(context@, id),
{
    let mut lines: Vec<String> = Vec::new();
    lines.push(joined("Shortcut registered: ", context.shortcut.as_str()));
    let number = decimal(id);
    lines.push(joined("Script ID: ", number.as_str()));
    if context.script_name.as_str().unicode_len() > 0 {
        lines.push(joined("Script name: ", context.script_name.as_str()));
    }
    assert(lines.deep_view() =~= summary_of(context@, id));
    lines
}

} // verus!
