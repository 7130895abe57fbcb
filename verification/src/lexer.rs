//! The argument cursor: a `lexopt::Parser` behind contracts.
//!
//! Tokenising stays with `lexopt`. What this module adds is a model of the
//! parser's state that the directive grammars can reason about: the raw
//! arguments it has not read, a value still attached to the last option, and
//! whether `--` has ended the options.

use vstd::prelude::*;

use crate::text::text_view;

verus! {

/// One token of the command line.
#[derive(Debug, PartialEq, Eq)]
pub enum Token {
    /// A one-letter option such as `-q`, without the dash.
    Short(char),
    /// A long option such as `--limit`, without the dashes.
    Long(String),
    /// A free-standing argument.
    Value(String),
}

/// The mathematical content of a [`Token`].
pub enum TokenView {
    Short(char),
    Long(Seq<char>),
    Value(Seq<char>),
}

impl View for Token {
    type V = TokenView;

    open spec fn view(&self) -> TokenView {
        match self {
            Token::Short(c) => TokenView::Short(*c),
            Token::Long(name) => TokenView::Long(name@),
            Token::Value(text) => TokenView::Value(text@),
        }
    }
}

/// The view of an optional token.
pub open spec fn token_view(t: Option<Token>) -> Option<TokenView> {
    match t {
        Some(t) => Some(t@),
        None => None,
    }
}

/// What one call of `lexopt::Parser::next` does to a parser that holds no
/// attached value.
pub struct LexStep {
    /// The token handed out, `None` at the end of the command line.
    pub token: Option<TokenView>,
    /// How many raw arguments the call took from the front.
    pub taken: nat,
    /// The value left attached to the option just read, as in `--name=value`.
    pub attached: Option<Seq<char>>,
    /// Whether the options are over after the call.
    pub past_options: bool,
}

/// `lexopt::Parser`, carried as an opaque value. In this library a parser is
/// only ever made by [`ArgCursor`], from a list of texts.
#[verifier::external_type_specification]
#[verifier::external_body]
pub struct ExParser(lexopt::Parser);

/// `lexopt::Error`, carried as an opaque value.
#[verifier::external_type_specification]
#[verifier::external_body]
pub struct ExLexError(lexopt::Error);

/// The raw arguments that the parser has not taken from its source yet, in
/// order, each read as text.
pub uninterp spec fn parser_unread(p: lexopt::Parser) -> Seq<Seq<char>>;

/// The value that is still attached to the option read last: what
/// `lexopt::Parser::optional_value` would hand out now.
pub uninterp spec fn parser_attached(p: lexopt::Parser) -> Option<Seq<char>>;

/// Whether the parser has read `--`, after which every argument is a value.
pub uninterp spec fn parser_past_options(p: lexopt::Parser) -> bool;

/// The outcome of `lexopt::Parser::next` on a parser with the given unread
/// arguments, nothing attached, and options over or not.
pub uninterp spec fn lexed(unread: Seq<Seq<char>>, past_options: bool) -> LexStep;

/// What holds of every read: it takes arguments from the front only, at least
/// one where it hands out a token and all that is left where it hands out none,
/// and it leaves nothing attached behind a value or at the end.
pub open spec fn lex_sound(unread: Seq<Seq<char>>, step: LexStep) -> bool {
    &&& step.taken <= unread.len()
    &&& (step.token is Some ==> step.taken >= 1)
    &&& (step.token is None ==> step.taken == unread.len() && step.attached is None)
    &&& (step.token matches Some(TokenView::Value(_)) ==> step.attached is None)
}

/// One read, as the grammars see it: [`lexed`], which every read satisfies
/// together with [`lex_sound`].
pub open spec fn lex(unread: Seq<Seq<char>>, past_options: bool) -> LexStep {
    let step = lexed(unread, past_options);
    if lex_sound(unread, step) {
        step
    } else {
        LexStep { token: None, taken: unread.len(), attached: None, past_options }
    }
}

/// `lexopt::Parser::from_args`: a fresh parser over `args`, none of them read,
/// nothing attached, options not over.
#[verifier::external_body]
fn parser_from_args(args: &Vec<String>) -> (p: lexopt::Parser)
    ensures
        parser_unread(p) == args.deep_view(),
        parser_attached(p) is None,
        !parser_past_options(p),
{
    lexopt::Parser::from_args(args.iter().cloned())
}

/// `lexopt::Parser::next` on a parser with nothing attached. In that state the
/// call cannot fail: its errors all report a value left attached. The token and
/// the state left behind are those that [`lexed`] names, and they satisfy
/// [`lex_sound`].
#[verifier::external_body]
fn parser_next(p: &mut lexopt::Parser) -> (r: Result<Option<Token>, lexopt::Error>)
    requires
        parser_attached(*old(p)) is None,
    ensures
        lex_sound(
            parser_unread(*old(p)),
            lexed(parser_unread(*old(p)), parser_past_options(*old(p))),
        ),
        r matches Ok(t) && token_view(t) == parser_view(*old(p)).next_token(),
        parser_view(*final(p)) == parser_view(*old(p)).after_next(),
{
    match p.next()? {
        Some(lexopt::Arg::Short(c)) => Ok(Some(Token::Short(c))),
        Some(lexopt::Arg::Long(name)) => Ok(Some(Token::Long(name.to_string()))),
        Some(lexopt::Arg::Value(text)) => Ok(Some(Token::Value(text.to_string_lossy().into_owned()))),
        None => Ok(None),
    }
}

/// `lexopt::Parser::optional_value`: hands out the attached value, if there is
/// one, and leaves none attached. The unread arguments stay.
#[verifier::external_body]
fn parser_optional_value(p: &mut lexopt::Parser) -> (r: Option<String>)
    ensures
        text_view(r) == parser_attached(*old(p)),
        parser_view(*final(p)) == parser_view(*old(p)).detached(),
{
    p.optional_value().map(|v| v.to_string_lossy().into_owned())
}

/// `lexopt::Parser::value`: the attached value if there is one, else the next
/// raw argument whatever it looks like, else an error. Nothing is attached
/// afterwards.
#[verifier::external_body]
fn parser_value(p: &mut lexopt::Parser) -> (r: Result<String, lexopt::Error>)
    ensures
        match parser_view(*old(p)).option_value() {
            Some(v) => r matches Ok(s) && s@ == v,
            None => r is Err,
        },
        parser_view(*final(p)) == parser_view(*old(p)).after_value(),
{
    p.value().map(|v| v.to_string_lossy().into_owned())
}

/// `lexopt::RawArgs::peek` behind `lexopt::Parser::try_raw_args`: the next raw
/// argument, not taken. `None` when a value is attached or nothing is unread.
#[verifier::external_body]
fn parser_peek(p: &mut lexopt::Parser) -> (r: Option<String>)
    ensures
        text_view(r) == parser_view(*old(p)).next_raw(),
        parser_view(*final(p)) == parser_view(*old(p)),
{
    p.try_raw_args()?.peek().map(|v| v.to_string_lossy().into_owned())
}

/// `lexopt::RawArgs::next` behind `lexopt::Parser::try_raw_args`: takes the next
/// raw argument as it stands. `None`, and nothing taken, when a value is
/// attached or nothing is unread.
#[verifier::external_body]
fn parser_take(p: &mut lexopt::Parser) -> (r: Option<String>)
    ensures
        text_view(r) == parser_view(*old(p)).next_raw(),
        parser_view(*final(p)) == parser_view(*old(p)).after_raw(),
{
    p.try_raw_args()?.next().map(|v| v.to_string_lossy().into_owned())
}

/// Whether `rest` is what is left of `whole` when arguments are taken from the
/// front.
pub open spec fn is_rest_of(rest: Seq<Seq<char>>, whole: Seq<Seq<char>>) -> bool {
    rest.len() <= whole.len() && rest == whole.skip(whole.len() - rest.len())
}

/// Nothing taken leaves everything.
pub proof fn lemma_rest_of_self(a: Seq<Seq<char>>)
    ensures
        is_rest_of(a, a),
{
    assert(a.skip(0) =~= a);
}

/// What is left of what is left is left of the whole.
pub proof fn lemma_rest_of_rest(a: Seq<Seq<char>>, b: Seq<Seq<char>>, c: Seq<Seq<char>>)
    requires
        is_rest_of(a, b),
        is_rest_of(b, c),
    ensures
        is_rest_of(a, c),
{
    assert(c.skip(c.len() - b.len()).skip(b.len() - a.len()) =~= c.skip(c.len() - a.len()));
}

/// The state of an [`ArgCursor`].
pub struct CursorView {
    /// The raw arguments not yet read.
    pub unread: Seq<Seq<char>>,
    /// The value still attached to the option read last.
    pub attached: Option<Seq<char>>,
    /// Whether `--` has been read.
    pub past_options: bool,
}

impl CursorView {
    /// A cursor at the start of `args`.
    pub open spec fn start(args: Seq<Seq<char>>) -> CursorView {
        CursorView { unread: args, attached: None, past_options: false }
    }

    /// Nothing is attached: the cursor stands between two arguments.
    pub open spec fn settled(self) -> bool {
        self.attached is None
    }

    /// The token that the next read hands out.
    pub open spec fn next_token(self) -> Option<TokenView> {
        lex(self.unread, self.past_options).token
    }

    /// The state after the next read.
    pub open spec fn after_next(self) -> CursorView {
        let step = lex(self.unread, self.past_options);
        CursorView {
            unread: self.unread.skip(step.taken as int),
            attached: step.attached,
            past_options: step.past_options,
        }
    }

    /// The state with the attached value dropped.
    pub open spec fn detached(self) -> CursorView {
        CursorView { attached: None, ..self }
    }

    /// The value that an option takes: the attached one, else the next raw
    /// argument, else none.
    pub open spec fn option_value(self) -> Option<Seq<char>> {
        match self.attached {
            Some(v) => Some(v),
            None => if self.unread.len() > 0 {
                Some(self.unread[0])
            } else {
                None
            },
        }
    }

    /// The state after an option has taken its value: nothing is attached, and
    /// the next raw argument is gone if it was the value.
    pub open spec fn after_value(self) -> CursorView {
        if self.attached is None && self.unread.len() > 0 {
            CursorView { unread: self.unread.skip(1), ..self }
        } else {
            self.detached()
        }
    }

    /// The next raw argument as it stands, if nothing is attached and
    /// something is unread.
    pub open spec fn next_raw(self) -> Option<Seq<char>> {
        if self.attached is None && self.unread.len() > 0 {
            Some(self.unread[0])
        } else {
            None
        }
    }

    /// The state after the next raw argument has been taken as it stands.
    pub open spec fn after_raw(self) -> CursorView {
        if self.attached is None && self.unread.len() > 0 {
            CursorView { unread: self.unread.skip(1), ..self }
        } else {
            self
        }
    }

    /// The state after a fresh start on what is unread: `--` forgotten.
    pub open spec fn restarted(self) -> CursorView {
        CursorView::start(self.unread)
    }
}

/// The state of a parser, in the terms of [`CursorView`].
pub open spec fn parser_view(p: lexopt::Parser) -> CursorView {
    CursorView {
        unread: parser_unread(p),
        attached: parser_attached(p),
        past_options: parser_past_options(p),
    }
}

/// A cursor over the raw arguments of a command line.
pub struct ArgCursor {
    parser: lexopt::Parser,
}

impl View for ArgCursor {
    type V = CursorView;

    closed spec fn view(&self) -> CursorView {
        parser_view(self.parser)
    }
}

impl ArgCursor {
    /// A cursor at the start of `args`.
    pub fn new(args: &Vec<String>) -> (c: ArgCursor)
        ensures
            c@ == CursorView::start(args.deep_view()),
    {
        ArgCursor { parser: parser_from_args(args) }
    }

    /// Reads the next token. `None` at the end of the command line.
    pub fn next(&mut self) -> (t: Option<Token>)
        requires
            old(self)@.settled(),
        ensures
            token_view(t) == old(self)@.next_token(),
            final(self)@ == old(self)@.after_next(),
    {
        match parser_next(&mut self.parser) {
            Ok(t) => t,
            Err(_) => vstd::pervasive::unreached(),
        }
    }

    /// Takes the value attached to the option read last, if there is one.
    pub fn attached_value(&mut self) -> (v: Option<String>)
        ensures
            text_view(v) == old(self)@.attached,
            final(self)@ == old(self)@.detached(),
    {
        parser_optional_value(&mut self.parser)
    }

    /// Takes the value of the option read last: the attached one, else the next
    /// raw argument. `None` when the command line ends instead.
    pub fn option_value(&mut self) -> (v: Option<String>)
        ensures
            text_view(v) == old(self)@.option_value(),
            final(self)@ == old(self)@.after_value(),
    {
        match parser_value(&mut self.parser) {
            Ok(v) => Some(v),
            Err(_) => None,
        }
    }

    /// Looks at the next raw argument without taking it. `None` while a value
    /// is attached, and at the end.
    pub fn peek_raw(&mut self) -> (v: Option<String>)
        ensures
            text_view(v) == old(self)@.next_raw(),
            final(self)@ == old(self)@,
    {
        parser_peek(&mut self.parser)
    }

    /// Takes the next raw argument as it stands, option or not. Takes nothing
    /// while a value is attached, and at the end.
    pub fn take_raw(&mut self) -> (v: Option<String>)
        ensures
            text_view(v) == old(self)@.next_raw(),
            final(self)@ == old(self)@.after_raw(),
    {
        parser_take(&mut self.parser)
    }

    /// Starts afresh on what is unread, so that a `--` read earlier no longer
    /// turns options into values.
    pub fn restart(&mut self)
        requires
            old(self)@.settled(),
        ensures
            final(self)@ == old(self)@.restarted(),
    {
        let mut rest: Vec<String> = Vec::new();
        let ghost before = self@;
        loop
            invariant
                self@.settled(),
                self@.past_options == before.past_options,
                rest.deep_view().len() + self@.unread.len() == before.unread.len(),
                rest.deep_view() + self@.unread == before.unread,
            ensures
                rest.deep_view() == before.unread,
            decreases self@.unread.len(),
        {
            let ghost here = self@;
            match self.take_raw() {
                Some(arg) => {
                    let ghost prev = rest.deep_view();
                    rest.push(arg);
                    proof {
                        assert(rest.deep_view() =~= prev.push(arg@));
                        assert(rest.deep_view() + self@.unread =~= prev + here.unread);
                    }
                },
                None => {
                    proof {
                        assert(rest.deep_view() =~= before.unread);
                    }
                    break;
                },
            }
        }
        self.parser = parser_from_args(&rest);
    }
}

} // verus!
