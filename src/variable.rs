use crate::ident::{fresh_id, Id};
use crate::value::Value;
use vstd::prelude::*;

verus! {

/// A storage slot: empty, holding a literal value, or referring to another
/// variable by its identifier.
#[derive(Clone, Debug)]
pub struct Variable {
    pub id: Id,
    pub value: Option<Value>,
    pub reference: Option<Id>,
}

impl Variable {
    /// A variable that holds nothing yet.
    pub fn empty() -> (r: Variable)
        ensures
            r.value.is_none(),
            r.reference.is_none(),
    {
        Variable { id: fresh_id(), value: None, reference: None }
    }

    /// A variable holding the literal `value`.
    pub fn new(value: Value) -> (r: Variable)
        ensures
            r.value == Some(value),
            r.reference.is_none(),
    {
        Variable { id: fresh_id(), value: Some(value), reference: None }
    }

    /// A variable that refers to the variable with identifier `uuid`.
    pub fn new_reference(uuid: Id) -> (r: Variable)
        ensures
            r.value.is_none(),
            r.reference == Some(uuid),
    {
        Variable { id: fresh_id(), value: None, reference: Some(uuid) }
    }
}

} // verus!
