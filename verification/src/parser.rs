//! The directive parser: reads the arguments of one directive off the
//! cursor and hands back what it did not take.

use vstd::prelude::*;
use vstd::string::*;

use crate::catalog::{Command, command_of};
use crate::directive::{Directive, DirectiveView};
use crate::error::{StepError, StepErrorView};
use crate::grammar::{
    Absorb, AbsorbedView, Draft, DraftView, Flag, flag, flag_of,
    lemma_absorb_fails_on_numbers, lemma_absorb_keeps_agreement, lemma_draft_keeps_command,
    lemma_finished_keeps_command, lemma_option_fails_on_values, lemma_option_keeps_agreement,
    lemma_switch_keeps_agreement,
    lemma_other_options_keep_search, same_search, search_flag_of,
};
use crate::lexer::{
    ArgCursor, CursorView, Token, TokenView, is_rest_of, lemma_rest_of_rest,
    lemma_rest_of_self, lex, lex_sound,
};
use crate::text::{digit, is_digit, joined, text_view};

verus! {

/// True for a raw argument that starts with `-` and a digit: a negative
/// number to the directives that read numbers, where the tokeniser would see
/// a cluster of one-letter options.
pub open spec fn is_dash_number(s: Seq<char>) -> bool {
    s.len() >= 2 && s[0] == '-' && is_digit(s[1])
}

/// An option as the user wrote it: two dashes and its name.
pub open spec fn long_option(name: Seq<char>) -> Seq<char> {
    "--"@ + name
}

/// A one-letter option as the user wrote it: a dash and the letter.
pub open spec fn short_option(c: char) -> Seq<char> {
    "-"@ + seq![c]
}

/// One directive, parsed, with what follows it.
#[derive(Debug, PartialEq, Eq)]
pub struct ParsedStep {
    pub directive: Directive,
    /// The free-standing argument that the directive read and did not take: the
    /// name of the next directive.
    pub pushback: Option<String>,
}

/// What parsing one directive comes to.
pub enum ScanView {
    /// The directive, the argument it handed back, and the cursor behind it.
    Parsed { directive: DirectiveView, pushback: Option<Seq<char>>, rest: CursorView },
    /// The error that ended the parse.
    Failed(StepErrorView),
}

/// The next item on the command line as a directive sees it, and the cursor
/// behind it. For a directive that reads numbers, a raw argument that starts
/// with `-` and a digit is a value; everything else is tokenised.
pub open spec fn next_item(cursor: CursorView, numbers: bool) -> (Option<TokenView>, CursorView) {
    if numbers && cursor.next_raw() is Some && is_dash_number(cursor.next_raw()->0) {
        (Some(TokenView::Value(cursor.next_raw()->0)), cursor.after_raw())
    } else {
        (cursor.next_token(), cursor.after_next())
    }
}

/// The end of a parse: the draft is closed, and what it comes to is handed out
/// with the pushed-back argument and the cursor.
pub open spec fn closed(draft: DraftView, pushback: Option<Seq<char>>, rest: CursorView) -> ScanView {
    match draft.finished() {
        Ok(directive) => ScanView::Parsed { directive, pushback, rest },
        Err(e) => ScanView::Failed(e),
    }
}

/// Reading the arguments of the directive in `draft` off `cursor`, item by
/// item, until the command line ends or an argument is handed back.
///
/// An option must be one that the directive knows. One that takes a value
/// takes the attached one or the next raw argument; one that takes none must
/// have none attached. One-letter options are never accepted.
pub open spec fn scan(cursor: CursorView, draft: DraftView) -> ScanView
    decreases cursor.unread.len(),
{
    let (item, rest) = next_item(cursor, draft.command.reads_numbers());
    match item {
        None => closed(draft, None, rest),
        Some(TokenView::Value(text)) => match draft.absorb(text) {
            AbsorbedView::Kept(next) => scan(rest, next),
            AbsorbedView::Pushback(back) => closed(draft, Some(back), rest),
            AbsorbedView::Failed(e) => ScanView::Failed(e),
        },
        Some(TokenView::Short(c)) => ScanView::Failed(
            StepErrorView::UnexpectedOption(short_option(c)),
        ),
        Some(TokenView::Long(name)) => {
            let flag = flag_of(draft.command, name);
            if flag is Unknown {
                ScanView::Failed(StepErrorView::UnexpectedOption(long_option(name)))
            } else if flag.takes_value() {
                match rest.option_value() {
                    None => ScanView::Failed(
                        StepErrorView::MissingValue { option: long_option(name) },
                    ),
                    Some(text) => match draft.with_option(flag, text) {
                        Err(e) => ScanView::Failed(e),
                        Ok(next) => scan(rest.after_value(), next),
                    },
                }
            } else {
                match rest.attached {
                    Some(value) => ScanView::Failed(
                        StepErrorView::UnexpectedValue { option: long_option(name), value },
                    ),
                    None => scan(rest, draft.with_switch(flag)),
                }
            }
        },
    }
}

/// Parsing the directive named `command` off `cursor`. A name in none of the
/// tables is an error. A directive that reads no arguments leaves the cursor
/// where it is.
pub open spec fn parse_of(command: Seq<char>, cursor: CursorView) -> ScanView {
    match command_of(command) {
        None => ScanView::Failed(StepErrorView::UnknownCommand(command)),
        Some(c) => if c.reads_arguments() {
            scan(cursor, DraftView::blank(c))
        } else {
            closed(DraftView::blank(c), None, cursor)
        },
    }
}

/// An item that is read takes at least one raw argument with it, and leaves
/// nothing attached if it is a value or the end.
pub proof fn lemma_item_progress(cursor: CursorView, numbers: bool)
    requires
        cursor.settled(),
    ensures
        ({
            let (item, rest) = next_item(cursor, numbers);
            &&& is_rest_of(rest.unread, cursor.unread)
            &&& (item is Some ==> rest.unread.len() < cursor.unread.len())
            &&& (item is None ==> rest.settled() && rest.unread.len() == 0)
            &&& (item matches Some(TokenView::Value(_)) ==> rest.settled())
        }),
{
    let step = lex(cursor.unread, cursor.past_options);
    assert(lex_sound(cursor.unread, step));
}

/// A parse takes its arguments off the front of what is unread and leaves
/// the rest as it was; it leaves the cursor between two arguments; and a
/// directive that hands an argument back has read at least that one.
pub proof fn lemma_scan_progress(cursor: CursorView, draft: DraftView)
    requires
        cursor.settled(),
    ensures
        scan(cursor, draft) matches ScanView::Parsed { pushback, rest, .. } ==> {
            &&& rest.settled()
            &&& is_rest_of(rest.unread, cursor.unread)
            &&& (pushback is Some ==> rest.unread.len() < cursor.unread.len())
        },
    decreases cursor.unread.len(),
{
    let numbers = draft.command.reads_numbers();
    let (item, rest) = next_item(cursor, numbers);
    lemma_item_progress(cursor, numbers);
    match item {
        None => {},
        Some(TokenView::Value(text)) => match draft.absorb(text) {
            AbsorbedView::Kept(next) => {
                lemma_scan_progress(rest, next);
                lemma_rest_of_self(rest.unread);
                lemma_scan_rest(cursor, rest, rest, next);
            },
            _ => {},
        },
        Some(TokenView::Short(_)) => {},
        Some(TokenView::Long(name)) => {
            let flag = flag_of(draft.command, name);
            if flag is Unknown {
            } else if flag.takes_value() {
                match rest.option_value() {
                    None => {},
                    Some(text) => match draft.with_option(flag, text) {
                        Err(_) => {},
                        Ok(next) => {
                            lemma_scan_progress(rest.after_value(), next);
                            lemma_rest_of_self(rest.unread);
                            lemma_scan_rest(cursor, rest, rest.after_value(), next);
                        },
                    },
                }
            } else {
                if rest.attached is None {
                    lemma_scan_progress(rest, draft.with_switch(flag));
                    lemma_rest_of_self(rest.unread);
                    lemma_scan_rest(cursor, rest, rest, draft.with_switch(flag));
                }
            }
        },
    }
}

/// Carries [`is_rest_of`] from one item of a scan to the scan that follows it.
proof fn lemma_scan_rest(cursor: CursorView, item: CursorView, from: CursorView, draft: DraftView)
    requires
        is_rest_of(item.unread, cursor.unread),
        is_rest_of(from.unread, item.unread),
        scan(from, draft) matches ScanView::Parsed { rest, .. } ==> is_rest_of(
            rest.unread,
            from.unread,
        ),
    ensures
        scan(from, draft) matches ScanView::Parsed { rest, .. } ==> is_rest_of(
            rest.unread,
            cursor.unread,
        ),
{
    lemma_rest_of_rest(from.unread, item.unread, cursor.unread);
    match scan(from, draft) {
        ScanView::Parsed { rest, .. } => {
            lemma_rest_of_rest(rest.unread, from.unread, cursor.unread);
        },
        _ => {},
    }
}

/// What [`lemma_scan_progress`] says of a scan holds of a whole parse.
pub proof fn lemma_parse_progress(command: Seq<char>, cursor: CursorView)
    requires
        cursor.settled(),
    ensures
        parse_of(command, cursor) matches ScanView::Parsed { pushback, rest, .. } ==> {
            &&& rest.settled()
            &&& is_rest_of(rest.unread, cursor.unread)
            &&& (pushback is Some ==> rest.unread.len() < cursor.unread.len())
        },
{
    lemma_rest_of_self(cursor.unread);
    match command_of(command) {
        None => {},
        Some(c) => {
            if c.reads_arguments() {
                lemma_scan_progress(cursor, DraftView::blank(c));
            }
        },
    }
}

/// Whether two parses of `search` come to the same thing but for the options
/// that are no attribute flags: the same error; or the same argument handed
/// back, the same cursor, the same four attribute flags and the same term.
pub open spec fn same_search_outcome(a: ScanView, b: ScanView) -> bool {
    match a {
        ScanView::Failed(e) => b == ScanView::Failed(e),
        ScanView::Parsed { directive, pushback, rest } => {
            &&& b matches ScanView::Parsed { directive: other, pushback: back, rest: behind }
            &&& pushback == back
            &&& rest == behind
            &&& directive matches DirectiveView::Search { options, term }
            &&& other matches DirectiveView::Search { options: others, term: same }
            &&& options.match_class == others.match_class
            &&& options.match_classname == others.match_classname
            &&& options.match_role == others.match_role
            &&& options.match_name == others.match_name
            &&& term == same
        },
    }
}

/// Two drafts of `search` that agree in attribute flags and term close to
/// directives that agree in them.
proof fn lemma_closed_agrees(
    a: DraftView,
    b: DraftView,
    pushback: Option<Seq<char>>,
    rest: CursorView,
)
    requires
        same_search(a, b),
    ensures
        same_search_outcome(closed(a, pushback, rest), closed(b, pushback, rest)),
{
}

/// Two drafts of `search` that agree in attribute flags and term still agree
/// in them, and in everything but the other options, when the same arguments
/// have been read into both.
pub proof fn lemma_search_agrees(cursor: CursorView, a: DraftView, b: DraftView)
    requires
        same_search(a, b),
    ensures
        same_search_outcome(scan(cursor, a), scan(cursor, b)),
    decreases cursor.unread.len(),
{
    let (item, rest) = next_item(cursor, false);
    assert(a.command.reads_numbers() == false && b.command.reads_numbers() == false);
    match item {
        None => {
            lemma_closed_agrees(a, b, None, rest);
        },
        Some(TokenView::Value(text)) => {
            lemma_absorb_keeps_agreement(a, b, text);
            match a.absorb(text) {
                AbsorbedView::Kept(x) => {
                    let y = b.absorb(text)->Kept_0;
                    lemma_search_agrees(rest, x, y);
                },
                AbsorbedView::Pushback(back) => {
                    lemma_closed_agrees(a, b, Some(back), rest);
                },
                AbsorbedView::Failed(_) => {},
            }
        },
        Some(TokenView::Short(_)) => {},
        Some(TokenView::Long(name)) => {
            let flag = flag_of(a.command, name);
            assert(flag == search_flag_of(name));
            assert(flag_of(b.command, name) == flag);
            assert(!(flag is Change));
            if flag is Unknown {
            } else if flag.takes_value() {
                match rest.option_value() {
                    None => {},
                    Some(text) => {
                        lemma_option_keeps_agreement(a, b, flag, text);
                        match a.with_option(flag, text) {
                            Ok(x) => {
                                let y = b.with_option(flag, text)->Ok_0;
                                lemma_search_agrees(rest.after_value(), x, y);
                            },
                            Err(_) => {},
                        }
                    },
                }
            } else {
                if rest.attached is None {
                    lemma_switch_keeps_agreement(a, b, flag);
                    lemma_search_agrees(rest, a.with_switch(flag), b.with_switch(flag));
                }
            }
        },
    }
}

/// An option of `search` that is none of the four attribute flags, read at
/// any point before the rest of the arguments, changes neither the attribute
/// flags nor the term that the search comes to, nor what is handed back, nor
/// whether and how the parse fails behind it.
pub proof fn lemma_other_options_leave_attributes(
    cursor: CursorView,
    draft: DraftView,
    flag: Flag,
    text: Seq<char>,
)
    requires
        draft.command is Search,
        !flag.is_attribute(),
    ensures
        same_search_outcome(scan(cursor, draft), scan(cursor, draft.with_switch(flag))),
        draft.with_option(flag, text) matches Ok(next) ==> same_search_outcome(
            scan(cursor, draft),
            scan(cursor, next),
        ),
{
    lemma_other_options_keep_search(draft, flag, text);
    lemma_search_agrees(cursor, draft, draft.with_switch(flag));
    match draft.with_option(flag, text) {
        Ok(next) => {
            lemma_search_agrees(cursor, draft, next);
        },
        Err(_) => {},
    }
}

/// Whether the parse of the directive in `draft` off `cursor` reads one of the
/// four attribute flags of `search`.
pub open spec fn reads_attribute(cursor: CursorView, draft: DraftView) -> bool
    decreases cursor.unread.len(),
{
    let (item, rest) = next_item(cursor, draft.command.reads_numbers());
    match item {
        Some(TokenView::Value(text)) => match draft.absorb(text) {
            AbsorbedView::Kept(next) => reads_attribute(rest, next),
            _ => false,
        },
        Some(TokenView::Long(name)) => {
            let flag = flag_of(draft.command, name);
            if flag.is_attribute() {
                true
            } else if flag is Unknown {
                false
            } else if flag.takes_value() {
                match rest.option_value() {
                    None => false,
                    Some(text) => match draft.with_option(flag, text) {
                        Err(_) => false,
                        Ok(next) => reads_attribute(rest.after_value(), next),
                    },
                }
            } else {
                match rest.attached {
                    Some(_) => false,
                    None => reads_attribute(rest, draft.with_switch(flag)),
                }
            }
        },
        _ => false,
    }
}

/// A search that reads none of the four attribute flags matches all four,
/// whatever other options it reads.
pub proof fn lemma_search_defaults_to_all_attributes(cursor: CursorView, draft: DraftView)
    requires
        draft.command is Search,
        !draft.options.names_attribute(),
        !reads_attribute(cursor, draft),
    ensures
        scan(cursor, draft) matches ScanView::Parsed { directive, .. } ==> {
            &&& directive matches DirectiveView::Search { options, .. }
            &&& options.match_class
            &&& options.match_classname
            &&& options.match_role
            &&& options.match_name
        },
    decreases cursor.unread.len(),
{
    let (item, rest) = next_item(cursor, false);
    match item {
        None => {},
        Some(TokenView::Value(text)) => {
            if draft.term.len() == 0 {
                lemma_search_defaults_to_all_attributes(rest, DraftView { term: text, ..draft });
            }
        },
        Some(TokenView::Short(_)) => {},
        Some(TokenView::Long(name)) => {
            let flag = flag_of(draft.command, name);
            if flag is Unknown || flag.is_attribute() {
            } else if flag.takes_value() {
                match rest.option_value() {
                    None => {},
                    Some(text) => {
                        lemma_other_options_keep_search(draft, flag, text);
                        match draft.with_option(flag, text) {
                            Ok(next) => {
                                lemma_search_defaults_to_all_attributes(rest.after_value(), next);
                            },
                            Err(_) => {},
                        }
                    },
                }
            } else {
                if rest.attached is None {
                    lemma_other_options_keep_search(draft, flag, Seq::empty());
                    lemma_search_defaults_to_all_attributes(rest, draft.with_switch(flag));
                }
            }
        },
    }
}

/// A parse comes to a directive of the draft's command. Where it fails, the
/// error is one of a directive's own: never that of an unknown command, and
/// never the renderer's.
pub proof fn lemma_scan_keeps_command(cursor: CursorView, draft: DraftView)
    ensures
        scan(cursor, draft) matches ScanView::Parsed { directive, .. } ==> directive.command()
            == draft.command,
        scan(cursor, draft) matches ScanView::Failed(e) ==> !(e is UnknownCommand) && !(e
            is Render),
    decreases cursor.unread.len(),
{
    let (item, rest) = next_item(cursor, draft.command.reads_numbers());
    lemma_finished_keeps_command(draft);
    match item {
        None => {},
        Some(TokenView::Value(text)) => {
            lemma_draft_keeps_command(draft, Flag::Unknown, text);
            match draft.absorb(text) {
                AbsorbedView::Kept(next) => {
                    lemma_scan_keeps_command(rest, next);
                },
                AbsorbedView::Pushback(_) => {},
                AbsorbedView::Failed(e) => {
                    lemma_absorb_fails_on_numbers(draft, text);
                },
            }
        },
        Some(TokenView::Short(_)) => {},
        Some(TokenView::Long(name)) => {
            let flag = flag_of(draft.command, name);
            if flag is Unknown {
            } else if flag.takes_value() {
                match rest.option_value() {
                    None => {},
                    Some(text) => {
                        lemma_draft_keeps_command(draft, flag, text);
                        lemma_option_fails_on_values(draft, flag, text);
                        match draft.with_option(flag, text) {
                            Ok(next) => {
                                lemma_scan_keeps_command(rest.after_value(), next);
                            },
                            Err(_) => {},
                        }
                    },
                }
            } else {
                if rest.attached is None {
                    lemma_draft_keeps_command(draft, flag, Seq::empty());
                    lemma_scan_keeps_command(rest, draft.with_switch(flag));
                }
            }
        },
    }
}

/// A parse keeps the command that its name stands for, so the name alone
/// decides whether the directive is a query. A name that stands for a command
/// never fails as an unknown command, and no parse fails with the renderer's
/// error.
pub proof fn lemma_parse_keeps_command(command: Seq<char>, cursor: CursorView)
    ensures
        parse_of(command, cursor) matches ScanView::Parsed { directive, .. } ==> {
            &&& command_of(command) == Some(directive.command())
            &&& directive.is_query() == command_of(command)->0.is_query()
        },
        parse_of(command, cursor) matches ScanView::Failed(e) ==> {
            &&& (e is UnknownCommand <==> command_of(command) is None)
            &&& !(e is Render)
        },
{
    match command_of(command) {
        None => {},
        Some(c) => {
            let blank = DraftView::blank(c);
            lemma_finished_keeps_command(blank);
            if c.reads_arguments() {
                lemma_scan_keeps_command(cursor, blank);
            }
        },
    }
}

/// Tells whether a raw argument starts with `-` and a digit.
pub fn dash_number(s: &str) -> (r: bool)
    ensures
        r == is_dash_number(s@),
{
    s.unicode_len() >= 2 && s.get_char(0) == '-' && digit(s.get_char(1))
}

/// Writes a one-letter option as the user wrote it.
fn short_text(c: char) -> (r: String)
    ensures
        r@ == short_option(c),
{
    let mut s = "-".to_owned();
    s.push(c);
    assert(s@ =~= "-"@ + seq![c]);
    s
}

/// Reads the next item off the cursor, as a directive that does or does not
/// read numbers sees it.
fn read_item(cursor: &mut ArgCursor, numbers: bool) -> (item: Option<Token>)
    requires
        old(cursor)@.settled(),
    ensures
        (crate::lexer::token_view(item), final(cursor)@) == next_item(old(cursor)@, numbers),
{
    if numbers {
        match cursor.peek_raw() {
            Some(raw) => {
                if dash_number(raw.as_str()) {
                    let _ = cursor.take_raw();
                    return Some(Token::Value(raw));
                }
            },
            None => {},
        }
    }
    cursor.next()
}

/// Closes the draft and packs the result.
fn close(draft: Draft, pushback: Option<String>) -> (r: Result<ParsedStep, StepError>)
    ensures
        forall|rest: CursorView|
            match #[trigger] closed(draft@, text_view(pushback), rest) {
                ScanView::Parsed { directive, pushback: back, rest: _ } => r matches Ok(p)
                    && p.directive@ == directive && text_view(p.pushback) == back,
                ScanView::Failed(e) => r matches Err(x) && x@ == e,
            },
{
    match draft.finish() {
        Ok(directive) => Ok(ParsedStep { directive, pushback }),
        Err(e) => Err(e),
    }
}

/// Whether a result of the parser is the one that [`scan`] gives.
pub open spec fn parsed_as(
    r: Result<ParsedStep, StepError>,
    after: CursorView,
    expected: ScanView,
) -> bool {
    match expected {
        ScanView::Parsed { directive, pushback, rest } => r matches Ok(p) && p.directive@
            == directive && text_view(p.pushback) == pushback && after == rest,
        ScanView::Failed(e) => r matches Err(x) && x@ == e,
    }
}

/// Reads the arguments of the directive in `draft` off the cursor.
#[verifier::loop_isolation(false)]
pub fn scan_arguments(cursor: &mut ArgCursor, draft: Draft) -> (r: Result<ParsedStep, StepError>)
    requires
        old(cursor)@.settled(),
    ensures
        parsed_as(r, final(cursor)@, scan(old(cursor)@, draft@)),
        r is Ok ==> final(cursor)@.settled(),
{
    let ghost goal = scan(cursor@, draft@);
    let mut draft = draft;
    let numbers = draft.command.takes_numbers();
    loop
        invariant
            cursor@.settled(),
            numbers == draft@.command.reads_numbers(),
            scan(cursor@, draft@) == goal,
        decreases cursor@.unread.len(),
    {
        let ghost before = cursor@;
        let ghost held = draft@;
        proof {
            lemma_item_progress(before, numbers);
        }
        match read_item(cursor, numbers) {
            None => {
                return close(draft, None);
            },
            Some(Token::Value(text)) => {
                match draft.absorb(text) {
                    Absorb::Kept => {},
                    Absorb::Pushback(back) => {
                        return close(draft, Some(back));
                    },
                    Absorb::Failed(e) => {
                        return Err(e);
                    },
                }
            },
            Some(Token::Short(c)) => {
                return Err(StepError::UnexpectedOption(short_text(c)));
            },
            Some(Token::Long(name)) => {
                let meaning = flag(draft.command, name.as_str());
                let option = joined("--", name.as_str());
                match meaning {
                    Flag::Unknown => {
                        return Err(StepError::UnexpectedOption(option));
                    },
                    _ => {},
                }
                if meaning.has_value() {
                    match cursor.option_value() {
                        None => {
                            return Err(StepError::MissingValue { option });
                        },
                        Some(text) => {
                            match draft.option(meaning, text.as_str()) {
                                Ok(()) => {},
                                Err(e) => {
                                    return Err(e);
                                },
                            }
                        },
                    }
                } else {
                    match cursor.attached_value() {
                        Some(value) => {
                            return Err(StepError::UnexpectedValue { option, value });
                        },
                        None => {
                            draft.switch(meaning);
                        },
                    }
                }
            },
        }
    }
}

/// Parses the directive named `command` off the cursor. A name in none of
/// the tables is an error, and the cursor stays where it is.
pub fn parse_directive(command: &str, cursor: &mut ArgCursor) -> (r: Result<
    ParsedStep,
    StepError,
>)
    requires
        old(cursor)@.settled(),
    ensures
        parsed_as(r, final(cursor)@, parse_of(command@, old(cursor)@)),
        r is Ok ==> final(cursor)@.settled(),
        command_of(command@) is None ==> final(cursor)@ == old(cursor)@,
{
    match Command::from_name(command) {
        None => Err(StepError::UnknownCommand(command.to_owned())),
        Some(c) => {
            let draft = Draft::new(c);
            if c.takes_arguments() {
                scan_arguments(cursor, draft)
            } else {
                close(draft, None)
            }
        },
    }
}

} // verus!
