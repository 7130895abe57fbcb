//! Bindings and the strict template renderer.
//!
//! A fragment is rendered by `handlebars` against a flat record of named
//! values. In strict mode a placeholder that the record does not bind is an
//! error, never an empty text.

use vstd::prelude::*;

use crate::catalog::{Fragment, is_fragment};
use crate::error::{StepError, StepErrorView};

verus! {

/// A value that a fragment's placeholder can take.
#[derive(Debug, PartialEq, Eq)]
pub enum Scalar {
    Flag(bool),
    Number(i64),
    Text(String),
}

/// The mathematical content of a [`Scalar`].
pub enum ScalarView {
    Flag(bool),
    Number(i64),
    Text(Seq<char>),
}

impl View for Scalar {
    type V = ScalarView;

    open spec fn view(&self) -> ScalarView {
        match self {
            Scalar::Flag(b) => ScalarView::Flag(*b),
            Scalar::Number(n) => ScalarView::Number(*n),
            Scalar::Text(t) => ScalarView::Text(t@),
        }
    }
}

impl Scalar {
    /// A copy with the same content.
    pub fn duplicate(&self) -> (r: Scalar)
        ensures
            r@ == self@,
    {
        match self {
            Scalar::Flag(b) => Scalar::Flag(*b),
            Scalar::Number(n) => Scalar::Number(*n),
            Scalar::Text(t) => Scalar::Text(t.clone()),
        }
    }
}

/// One named value.
#[derive(Debug, PartialEq, Eq)]
pub struct Binding {
    pub key: String,
    pub value: Scalar,
}

impl View for Binding {
    type V = (Seq<char>, ScalarView);

    open spec fn view(&self) -> (Seq<char>, ScalarView) {
        (self.key@, self.value@)
    }
}

/// A flat record of named values, in the order in which they were bound.
#[derive(Debug, PartialEq, Eq)]
pub struct Bindings {
    pub entries: Vec<Binding>,
}

impl View for Bindings {
    type V = Seq<(Seq<char>, ScalarView)>;

    open spec fn view(&self) -> Seq<(Seq<char>, ScalarView)> {
        Seq::new(self.entries@.len(), |i: int| self.entries@[i]@)
    }
}

/// The text that `handlebars` renders from `template` in strict mode against
/// the record that binds `bindings` in turn, or its error message.
pub uninterp spec fn rendered(
    template: Seq<char>,
    bindings: Seq<(Seq<char>, ScalarView)>,
) -> Result<Seq<char>, Seq<char>>;

/// The view of a rendering result.
pub open spec fn outcome_view(r: Result<String, String>) -> Result<Seq<char>, Seq<char>> {
    match r {
        Ok(t) => Ok(t@),
        Err(m) => Err(m@),
    }
}

/// `handlebars::Handlebars::render_template` on a fresh registry in strict
/// mode, against a JSON object that binds `bindings` in turn. The result is the
/// one that [`rendered`] names; an error is handed out as its message. Only a
/// fragment of the catalog is admitted: none of them includes a partial, so the
/// call returns.
#[verifier::external_body]
fn render_strict(template: &str, bindings: &Bindings) -> (r: Result<String, String>)
    requires
        is_fragment(template@),
    ensures
        outcome_view(r) == rendered(template@, bindings@),
{
    let mut data = serde_json::Map::new();
    for b in bindings.entries.iter() {
        let value = match &b.value {
            Scalar::Flag(f) => serde_json::Value::from(*f),
            Scalar::Number(n) => serde_json::Value::from(*n),
            Scalar::Text(t) => serde_json::Value::from(t.as_str()),
        };
        data.insert(b.key.clone(), value);
    }
    let mut registry = handlebars::Handlebars::new();
    registry.set_strict_mode(true);
    registry.render_template(template, &data).map_err(|e| e.to_string())
}

/// What rendering `template` against `bindings` comes to: the text, or the
/// renderer's refusal as a step error.
pub open spec fn render_outcome(
    template: Seq<char>,
    bindings: Seq<(Seq<char>, ScalarView)>,
) -> Result<Seq<char>, StepErrorView> {
    match rendered(template, bindings) {
        Ok(t) => Ok(t),
        Err(m) => Err(StepErrorView::Render(m)),
    }
}

/// The view of a rendered fragment or the error in its place.
pub open spec fn fragment_view(r: Result<String, StepError>) -> Result<Seq<char>, StepErrorView> {
    match r {
        Ok(t) => Ok(t@),
        Err(e) => Err(e@),
    }
}

/// Renders a fragment of the catalog against `bindings` in strict mode.
pub fn render(fragment: Fragment, bindings: &Bindings) -> (r: Result<String, StepError>)
    ensures
        fragment_view(r) == render_outcome(fragment.template(), bindings@),
{
    match render_strict(fragment.text(), bindings) {
        Ok(t) => Ok(t),
        Err(m) => Err(StepError::Render(m)),
    }
}

impl Bindings {
    /// The empty record.
    pub fn new() -> (r: Bindings)
        ensures
            r@ == Seq::<(Seq<char>, ScalarView)>::empty(),
    {
        let r = Bindings { entries: Vec::new() };
        assert(r@ =~= Seq::<(Seq<char>, ScalarView)>::empty());
        r
    }

    /// A copy that binds the same values in the same order.
    pub fn duplicate(&self) -> (r: Bindings)
        ensures
            r@ == self@,
    {
        let mut entries: Vec<Binding> = Vec::new();
        let n: usize = self.entries.len();
        let mut i: usize = 0;
        while i < n
            invariant
                0 <= i <= n,
                n == self.entries@.len(),
                entries@.len() == i,
                forall|j: int| 0 <= j < i ==> entries@[j]@ == self.entries@[j]@,
            decreases n - i,
        {
            let b = &self.entries[i];
            entries.push(Binding { key: b.key.clone(), value: b.value.duplicate() });
            i += 1;
        }
        let r = Bindings { entries };
        assert(r@ =~= self@);
        r
    }

    /// Binds one more value, after those already bound.
    pub fn bind(&mut self, key: &str, value: Scalar)
        ensures
            final(self)@ == old(self)@.push((key@, value@)),
    {
        self.entries.push(Binding { key: key.to_owned(), value });
        assert(self@ =~= old(self)@.push((key@, value@)));
    }

    /// A new record: this one, extended by one value. This one is not changed.
    pub fn with(&self, key: &str, value: Scalar) -> (r: Bindings)
        ensures
            r@ == self@.push((key@, value@)),
    {
        let mut r = self.duplicate();
        r.bind(key, value);
        r
    }

    /// A new record that binds `key` to a text.
    pub fn with_text(&self, key: &str, value: &str) -> (r: Bindings)
        ensures
            r@ == self@.push((key@, ScalarView::Text(value@))),
    {
        self.with(key, Scalar::Text(value.to_owned()))
    }

    /// A new record that binds `key` to a truth value.
    pub fn with_flag(&self, key: &str, value: bool) -> (r: Bindings)
        ensures
            r@ == self@.push((key@, ScalarView::Flag(value))),
    {
        self.with(key, Scalar::Flag(value))
    }

    /// A new record that binds `key` to a number.
    pub fn with_number(&self, key: &str, value: i64) -> (r: Bindings)
        ensures
            r@ == self@.push((key@, ScalarView::Number(value))),
    {
        self.with(key, Scalar::Number(value))
    }
}

/// Binds one more value in `context`.
pub fn add_context(context: &mut Bindings, key: &str, value: Scalar)
    ensures
        final(context)@ == old(context)@.push((key@, value@)),
{
    context.bind(key, value)
}

} // verus!
