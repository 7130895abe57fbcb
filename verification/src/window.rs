//! Window references: which tokens address a window, and what they address.

use vstd::prelude::*;
use vstd::string::*;

use crate::error::{StepError, StepErrorView};
use crate::text::{
    all_digits, digit, hex_digit, i32_of_text, is_digit, is_hex_digit, parse_i32,
};

verus! {

/// The target of a window action.
#[derive(Debug, PartialEq, Eq)]
pub enum WindowReference {
    /// The window with this identifier, embedded as it was written.
    ExplicitId(String),
    /// One entry of the current result stack, counted from 1.
    StackIndex(i32),
    /// Every entry of the current result stack.
    AllStack,
}

/// The mathematical content of a [`WindowReference`].
pub enum WindowReferenceView {
    ExplicitId(Seq<char>),
    StackIndex(i32),
    AllStack,
}

impl View for WindowReference {
    type V = WindowReferenceView;

    open spec fn view(&self) -> WindowReferenceView {
        match self {
            WindowReference::ExplicitId(id) => WindowReferenceView::ExplicitId(id@),
            WindowReference::StackIndex(n) => WindowReferenceView::StackIndex(*n),
            WindowReference::AllStack => WindowReferenceView::AllStack,
        }
    }
}

/// True for a character of an identifier in braces: a hexadecimal digit or a
/// hyphen.
pub open spec fn is_id_char(c: char) -> bool {
    is_hex_digit(c) || c == '-'
}

/// The host's own identifiers: braces around hexadecimal digits and hyphens,
/// at least one of them.
pub open spec fn is_braced_id(s: Seq<char>) -> bool {
    &&& s.len() >= 3
    &&& s[0] == '{'
    &&& s[s.len() - 1] == '}'
    &&& forall|i: int| 1 <= i < s.len() - 1 ==> is_id_char(#[trigger] s[i])
}

/// A number in hexadecimal notation: `0x` or `0X`, then at least one
/// hexadecimal digit and nothing else.
pub open spec fn is_hex_number(s: Seq<char>) -> bool {
    &&& s.len() >= 3
    &&& s[0] == '0'
    &&& (s[1] == 'x' || s[1] == 'X')
    &&& forall|i: int| 2 <= i < s.len() ==> is_hex_digit(#[trigger] s[i])
}

/// A number in decimal notation: at least one digit and nothing else, no
/// sign.
pub open spec fn is_decimal_id(s: Seq<char>) -> bool {
    s.len() >= 1 && all_digits(s)
}

/// The shape of an explicit window identifier: the host's own form in braces,
/// or a number in hexadecimal or decimal notation.
pub open spec fn is_explicit_id(s: Seq<char>) -> bool {
    is_braced_id(s) || is_hex_number(s) || is_decimal_id(s)
}

/// True for `%@`, the whole stack.
pub open spec fn is_all_stack(s: Seq<char>) -> bool {
    s.len() == 2 && s[0] == '%' && s[1] == '@'
}

/// The position that `%<integer>` names, if `s` has that shape.
pub open spec fn stack_index(s: Seq<char>) -> Option<i32> {
    if s.len() >= 1 && s[0] == '%' {
        i32_of_text(s.subrange(1, s.len() as int))
    } else {
        None
    }
}

/// Whether a token is a window reference at all. The shapes are tried in this
/// order: explicit identifier, `%@`, `%<integer>`. A token of no such shape is
/// some other kind of argument.
pub open spec fn is_window_token(s: Seq<char>) -> bool {
    is_explicit_id(s) || is_all_stack(s) || stack_index(s) is Some
}

/// What a window token addresses; with no token, the first entry of the stack.
/// A token that starts with `%` must be `%@` or `%<integer>`; any other token
/// is taken as an identifier.
pub open spec fn classified(token: Option<Seq<char>>) -> Result<WindowReferenceView, StepErrorView> {
    match token {
        None => Ok(WindowReferenceView::StackIndex(1)),
        Some(s) => if is_all_stack(s) {
            Ok(WindowReferenceView::AllStack)
        } else if s.len() >= 1 && s[0] == '%' {
            match stack_index(s) {
                Some(n) => Ok(WindowReferenceView::StackIndex(n)),
                None => Err(StepErrorView::InvalidNumber(s.subrange(1, s.len() as int))),
            }
        } else {
            Ok(WindowReferenceView::ExplicitId(s))
        },
    }
}

/// The view of a classification result.
pub open spec fn reference_view(r: Result<WindowReference, StepError>) -> Result<
    WindowReferenceView,
    StepErrorView,
> {
    match r {
        Ok(w) => Ok(w@),
        Err(e) => Err(e@),
    }
}

/// Checks that the characters of `s` from `from` up to `to` all satisfy the
/// identifier alphabet (`hyphen` allows `-` besides hexadecimal digits).
fn all_id_chars(s: &str, from: usize, to: usize, hyphen: bool) -> (r: bool)
    requires
        from <= to <= s@.len(),
    ensures
        r == forall|i: int| from <= i < to ==> (is_hex_digit(#[trigger] s@[i]) || (hyphen && s@[i] == '-')),
{
    let mut i: usize = from;
    while i < to
        invariant
            from <= i <= to <= s@.len(),
            forall|j: int| from <= j < i ==> (is_hex_digit(#[trigger] s@[j]) || (hyphen && s@[j] == '-')),
        decreases to - i,
    {
        let c = s.get_char(i);
        if !(hex_digit(c) || (hyphen && c == '-')) {
            return false;
        }
        i += 1;
    }
    true
}

/// Tells whether `token` is a number in decimal notation, without a sign.
pub fn decimal_id(token: &str) -> (r: bool)
    ensures
        r == is_decimal_id(token@),
{
    let n: usize = token.unicode_len();
    if n == 0 {
        return false;
    }
    let mut i: usize = 0;
    while i < n
        invariant
            0 <= i <= n,
            n == token@.len(),
            forall|j: int| 0 <= j < i ==> is_digit(#[trigger] token@[j]),
        decreases n - i,
    {
        if !digit(token.get_char(i)) {
            return false;
        }
        i += 1;
    }
    true
}

/// Tells whether `token` has the shape of an explicit window identifier.
pub fn explicit_id(token: &str) -> (r: bool)
    ensures
        r == is_explicit_id(token@),
{
    if decimal_id(token) {
        return true;
    }
    let n: usize = token.unicode_len();
    if n < 3 {
        return false;
    }
    let first = token.get_char(0);
    if first == '{' {
        token.get_char(n - 1) == '}' && all_id_chars(token, 1, n - 1, true)
    } else if first == '0' {
        let second = token.get_char(1);
        (second == 'x' || second == 'X') && all_id_chars(token, 2, n, false)
    } else {
        false
    }
}

/// Tells whether `token` is `%@`.
pub fn all_stack(token: &str) -> (r: bool)
    ensures
        r == is_all_stack(token@),
{
    token.unicode_len() == 2 && token.get_char(0) == '%' && token.get_char(1) == '@'
}

/// Reads the position out of `%<integer>`.
pub fn parse_stack_index(token: &str) -> (r: Option<i32>)
    ensures
        r == stack_index(token@),
{
    let n: usize = token.unicode_len();
    if n >= 1 && token.get_char(0) == '%' {
        parse_i32(token.substring_char(1, n))
    } else {
        None
    }
}

/// Tells whether `token` is a window reference: an explicit identifier, `%@`
/// or `%<integer>`, tried in that order.
pub fn to_window_id(token: &str) -> (r: bool)
    ensures
        r == is_window_token(token@),
{
    explicit_id(token) || all_stack(token) || parse_stack_index(token).is_some()
}

impl WindowReference {
    /// What `token` addresses; the first entry of the stack when there is none.
    pub fn of_token(token: Option<&str>) -> (r: Result<WindowReference, StepError>)
        ensures
            reference_view(r) == classified(
                match token {
                    Some(t) => Some(t@),
                    None => None,
                },
            ),
    {
        match token {
            None => Ok(WindowReference::StackIndex(1)),
            Some(t) => {
                if all_stack(t) {
                    Ok(WindowReference::AllStack)
                } else {
                    let n: usize = t.unicode_len();
                    if n >= 1 && t.get_char(0) == '%' {
                        match parse_stack_index(t) {
                            Some(index) => Ok(WindowReference::StackIndex(index)),
                            None => Err(
                                StepError::InvalidNumber(t.substring_char(1, n).to_owned()),
                            ),
                        }
                    } else {
                        Ok(WindowReference::ExplicitId(t.to_owned()))
                    }
                }
            },
        }
    }
}

/// Every token that is recognised as a window reference classifies without
/// error: an explicit identifier as itself, `%@` as the whole stack, and
/// `%<integer>` as that position.
pub proof fn lemma_recognised_tokens_classify(s: Seq<char>)
    requires
        is_window_token(s),
    ensures
        classified(Some(s)) is Ok,
        is_explicit_id(s) ==> classified(Some(s)) == Ok::<
            WindowReferenceView,
            StepErrorView,
        >(WindowReferenceView::ExplicitId(s)),
        is_all_stack(s) ==> classified(Some(s)) == Ok::<WindowReferenceView, StepErrorView>(
            WindowReferenceView::AllStack,
        ),
        !is_explicit_id(s) && !is_all_stack(s) ==> classified(Some(s)) == Ok::<
            WindowReferenceView,
            StepErrorView,
        >(WindowReferenceView::StackIndex(stack_index(s).unwrap())),
{
}

} // verus!
