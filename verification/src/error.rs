//! What can go wrong while a pipeline is compiled.

use vstd::prelude::*;
use vstd::string::*;
use crate::text::{framed, joined};

verus! {

/// Why one directive could not be compiled.
#[derive(Debug, PartialEq, Eq)]
pub enum StepError {
    /// An option that the directive's grammar does not know, as written.
    UnexpectedOption(String),
    /// A value attached to an option that takes none, as in `--all=yes`.
    UnexpectedValue { option: String, value: String },
    /// The command line ended where an option's value was due.
    MissingValue { option: String },
    /// A text that should write a number and does not.
    InvalidNumber(String),
    /// A required positional argument was not given.
    MissingArgument(String),
    /// The command is in none of the tables.
    UnknownCommand(String),
    /// A window property that cannot be changed.
    UnsupportedProperty(String),
    /// The template renderer refused a fragment; its message.
    Render(String),
}

/// The mathematical content of a [`StepError`].
pub enum StepErrorView {
    UnexpectedOption(Seq<char>),
    UnexpectedValue { option: Seq<char>, value: Seq<char> },
    MissingValue { option: Seq<char> },
    InvalidNumber(Seq<char>),
    MissingArgument(Seq<char>),
    UnknownCommand(Seq<char>),
    UnsupportedProperty(Seq<char>),
    Render(Seq<char>),
}

impl View for StepError {
    type V = StepErrorView;

    open spec fn view(&self) -> StepErrorView {
        match self {
            StepError::UnexpectedOption(o) => StepErrorView::UnexpectedOption(o@),
            StepError::UnexpectedValue { option, value } => StepErrorView::UnexpectedValue {
                option: option@,
                value: value@,
            },
            StepError::MissingValue { option } => StepErrorView::MissingValue { option: option@ },
            StepError::InvalidNumber(t) => StepErrorView::InvalidNumber(t@),
            StepError::MissingArgument(a) => StepErrorView::MissingArgument(a@),
            StepError::UnknownCommand(c) => StepErrorView::UnknownCommand(c@),
            StepError::UnsupportedProperty(p) => StepErrorView::UnsupportedProperty(p@),
            StepError::Render(m) => StepErrorView::Render(m@),
        }
    }
}

impl StepErrorView {
    /// The line shown to the user.
    pub open spec fn message(self) -> Seq<char> {
        match self {
            StepErrorView::UnexpectedOption(o) => "invalid option '"@ + o + "'"@,
            StepErrorView::UnexpectedValue { option, value } => "unexpected argument for option '"@
                + option + "': \""@ + value + "\""@,
            StepErrorView::MissingValue { option } => "missing argument for option '"@ + option
                + "'"@,
            StepErrorView::InvalidNumber(t) => "cannot parse argument \""@ + t
                + "\": not a number in range"@,
            StepErrorView::MissingArgument(a) => "missing argument '"@ + a + "'"@,
            StepErrorView::UnknownCommand(c) => "Unknown command: "@ + c,
            StepErrorView::UnsupportedProperty(p) => "unsupported property '"@ + p + "'"@,
            StepErrorView::Render(m) => "internal error while rendering: "@ + m,
        }
    }

    /// True for the one kind that no user input should cause: a fragment and
    /// its bindings do not fit.
    pub open spec fn is_internal(self) -> bool {
        self is Render
    }
}

impl StepError {
    /// The line shown to the user.
    pub fn message(&self) -> (r: String)
        ensures
            r@ == self@.message(),
    {
        match self {
            StepError::UnexpectedOption(o) => framed("invalid option '", o.as_str(), "'"),
            StepError::UnexpectedValue { option, value } => {
                let mut s = framed("unexpected argument for option '", option.as_str(), "': \"");
                s.append(value.as_str());
                s.append("\"");
                s
            },
            StepError::MissingValue { option } => framed(
                "missing argument for option '",
                option.as_str(),
                "'",
            ),
            StepError::InvalidNumber(t) => framed(
                "cannot parse argument \"",
                t.as_str(),
                "\": not a number in range",
            ),
            StepError::MissingArgument(a) => framed("missing argument '", a.as_str(), "'"),
            StepError::UnknownCommand(c) => joined("Unknown command: ", c.as_str()),
            StepError::UnsupportedProperty(p) => framed("unsupported property '", p.as_str(), "'"),
            StepError::Render(m) => joined("internal error while rendering: ", m.as_str()),
        }
    }

    /// True for the one kind that no user input should cause.
    pub fn is_internal(&self) -> (r: bool)
        ensures
            r == self@.is_internal(),
    {
        match self {
            StepError::Render(_) => true,
            _ => false,
        }
    }
}

/// A failed compilation.
#[derive(Debug, PartialEq, Eq)]
pub enum CompileError {
    /// A directive could not be compiled: its name, and why.
    InCommand { command: String, cause: StepError },
    /// A fragment of the frame around the steps could not be rendered: the
    /// header, the report of the last result, or the footer.
    Frame(StepError),
}

/// The mathematical content of a [`CompileError`].
pub enum CompileErrorView {
    InCommand { command: Seq<char>, cause: StepErrorView },
    Frame(StepErrorView),
}

impl View for CompileError {
    type V = CompileErrorView;

    open spec fn view(&self) -> CompileErrorView {
        match self {
            CompileError::InCommand { command, cause } => CompileErrorView::InCommand {
                command: command@,
                cause: cause@,
            },
            CompileError::Frame(cause) => CompileErrorView::Frame(cause@),
        }
    }
}

impl CompileErrorView {
    /// The cause; for a directive, under one line of context that names it.
    pub open spec fn message(self) -> Seq<char> {
        match self {
            CompileErrorView::InCommand { command, cause } => "in command '"@ + command + "': "@
                + cause.message(),
            CompileErrorView::Frame(cause) => cause.message(),
        }
    }

    /// The error itself, without its context.
    pub open spec fn cause(self) -> StepErrorView {
        match self {
            CompileErrorView::InCommand { cause, .. } => cause,
            CompileErrorView::Frame(cause) => cause,
        }
    }
}

impl CompileError {
    /// The cause; for a directive, under one line of context that names it.
    pub fn message(&self) -> (r: String)
        ensures
            r@ == self@.message(),
    {
        match self {
            CompileError::InCommand { command, cause } => {
                let mut s = framed("in command '", command.as_str(), "': ");
                let text = cause.message();
                s.append(text.as_str());
                s
            },
            CompileError::Frame(cause) => cause.message(),
        }
    }

    /// The error itself, without its context.
    pub fn cause(&self) -> (r: &StepError)
        ensures
            r@ == self@.cause(),
    {
        match self {
            CompileError::InCommand { cause, .. } => cause,
            CompileError::Frame(cause) => cause,
        }
    }
}

} // verus!
