use crate::function::Function;
use crate::ident::{fresh_id, Id};
use vstd::prelude::*;

verus! {

/// An infix chain: function trees joined by operator symbols.
#[derive(Debug)]
pub struct Expression {
    pub id: Id,
    pub functions: Vec<Function>,
    pub operators: Vec<char>,
}

impl Expression {
    /// One operator between each two consecutive functions, and none else.
    pub open spec fn well_formed(self) -> bool {
        self.functions@.len() == 0 && self.operators@.len() == 0
            || self.operators@.len() + 1 == self.functions@.len()
    }

    /// An empty expression.
    pub fn new() -> (r: Expression)
        ensures
            r.functions@.len() == 0,
            r.operators@.len() == 0,
            r.well_formed(),
    {
        Expression { id: fresh_id(), functions: Vec::new(), operators: Vec::new() }
    }
}

} // verus!
