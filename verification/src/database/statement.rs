//! Statements with bound parameters.
//!
//! A value never becomes part of a statement's text: the text holds one
//! placeholder for each value, and the values travel beside it.

use crate::text::{decimal, push_decimal};
use vstd::prelude::*;

verus! {

/// A value bound to a placeholder.
#[derive(Debug, Clone, PartialEq, Eq)]
pub enum Parameter {
    Integer(i64),
    Text(String),
}

/// What a [`Parameter`] holds.
pub enum ParameterView {
    Integer(i64),
    Text(Seq<char>),
}

impl View for Parameter {
    type V = ParameterView;

    open spec fn view(&self) -> ParameterView {
        match self {
            Parameter::Integer(n) => ParameterView::Integer(*n),
            Parameter::Text(t) => ParameterView::Text(t@),
        }
    }
}

/// The text of a statement and the values for its placeholders, in order.
#[derive(Debug, Clone, PartialEq, Eq)]
pub struct Statement {
    pub text: String,
    pub parameters: Vec<Parameter>,
}

/// What a [`Statement`] holds.
pub struct StatementView {
    pub text: Seq<char>,
    pub parameters: Seq<ParameterView>,
}

impl View for Statement {
    type V = StatementView;

    open spec fn view(&self) -> StatementView {
        StatementView { text: self.text@, parameters: parameter_views(self.parameters@) }
    }
}

/// The views of `parameters`, in order.
pub open spec fn parameter_views(parameters: Seq<Parameter>) -> Seq<ParameterView> {
    Seq::new(parameters.len(), |i: int| parameters[i]@)
}

/// One integer parameter for each of `values`, in order.
pub open spec fn integers(values: Seq<i64>) -> Seq<ParameterView> {
    Seq::new(values.len(), |i: int| ParameterView::Integer(values[i]))
}

/// One text parameter for each of `values`, in order.
pub open spec fn texts(values: Seq<Seq<char>>) -> Seq<ParameterView> {
    Seq::new(values.len(), |i: int| ParameterView::Text(values[i]))
}

/// The views of `values`, in order.
pub open spec fn text_views(values: Seq<String>) -> Seq<Seq<char>> {
    Seq::new(values.len(), |i: int| values[i]@)
}

/// The placeholder of the parameter with the one-based number `number`.
pub open spec fn placeholder(number: nat) -> Seq<char> {
    seq!['?'] + decimal(number)
}

/// The placeholders `?1, ?2, ..` of `count` parameters, separated by a comma
/// and a space.
pub open spec fn placeholders(count: nat) -> Seq<char>
    decreases count,
{
    if count == 0 {
        Seq::empty()
    } else if count == 1 {
        placeholder(1)
    } else {
        placeholders((count - 1) as nat) + seq![',', ' '] + placeholder(count)
    }
}

/// Appends the placeholders of `count` parameters to `out`.
pub fn push_placeholders(out: &mut String, count: usize)
    ensures
        final(out)@ == old(out)@ + placeholders(count as nat),
{
    let mut i: usize = 0;
    assert(out@ =~= old(out)@ + placeholders(0));
    while i < count
        invariant
            i <= count,
            out@ == old(out)@ + placeholders(i as nat),
        decreases count - i,
    {
        if i > 0 {
            out.append(", ");
        }
        out.append("?");
        push_decimal(out, i + 1);
        proof {
            reveal_strlit(", ");
            reveal_strlit("?");
            assert(", "@ =~= seq![',', ' ']);
            assert("?"@ =~= seq!['?']);
            assert(out@ =~= old(out)@ + placeholders((i + 1) as nat));
        }
        i += 1;
    }
}

/// Binds each of `values` as an integer parameter.
pub fn bind_integers(values: &Vec<i64>) -> (parameters: Vec<Parameter>)
    ensures
        parameter_views(parameters@) == integers(values@),
{
    let mut parameters: Vec<Parameter> = Vec::new();
    let mut i: usize = 0;
    while i < values.len()
        invariant
            i <= values.len(),
            parameters.len() == i,
            forall|j: int| 0 <= j < i ==> parameters@[j]@ == ParameterView::Integer(values@[j]),
        decreases values.len() - i,
    {
        parameters.push(Parameter::Integer(values[i]));
        i += 1;
    }
    assert(parameter_views(parameters@) =~= integers(values@));
    parameters
}

/// Binds each of `values` as a text parameter.
pub fn bind_texts(values: &Vec<String>) -> (parameters: Vec<Parameter>)
    ensures
        parameter_views(parameters@) == texts(text_views(values@)),
{
    let mut parameters: Vec<Parameter> = Vec::new();
    let mut i: usize = 0;
    while i < values.len()
        invariant
            i <= values.len(),
            parameters.len() == i,
            forall|j: int| 0 <= j < i ==> parameters@[j]@ == ParameterView::Text(values@[j]@),
        decreases values.len() - i,
    {
        parameters.push(Parameter::Text(values[i].clone()));
        i += 1;
    }
    assert(parameter_views(parameters@) =~= texts(text_views(values@)));
    parameters
}

} // verus!
