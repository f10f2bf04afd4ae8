use crate::expression::Expression;
use crate::ident::{fresh_id, Id};
use crate::variable::Variable;
use vstd::prelude::*;

verus! {

/// Binds the result of its expressions to a target variable.
#[derive(Debug)]
pub struct Line {
    pub id: Id,
    pub variable: Variable,
    pub expressions: Vec<Expression>,
}

impl Line {
    /// A line with an empty target and no expressions.
    pub fn new() -> (r: Line)
        ensures
            r.variable.value.is_none(),
            r.variable.reference.is_none(),
            r.expressions@.len() == 0,
    {
        Line { id: fresh_id(), variable: Variable::empty(), expressions: Vec::new() }
    }
}

} // verus!
