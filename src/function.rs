use crate::ident::{fresh_id, Id};
use crate::value::Value;
use crate::value::ZERO_BITS;
use vstd::prelude::*;

verus! {

/// The operation a function node performs.
#[derive(Clone, Copy, Debug, PartialEq, Eq, Structural)]
pub enum FunctionName {
    Empty,
    F4,
    Abs,
    Sin,
}

/// How many arguments a function of the given name holds.
pub open spec fn arity(name: FunctionName) -> nat {
    match name {
        FunctionName::Abs | FunctionName::Sin => 1,
        _ => 0,
    }
}

/// A node of an expression tree: an operation and its argument sub-trees.
#[derive(Debug)]
pub struct Function {
    pub id: Id,
    pub name: FunctionName,
    pub args: Vec<Function>,
}

impl Function {
    /// Every node of the tree holds as many arguments as its name asks for.
    pub open spec fn well_formed(self) -> bool
        decreases self,
    {
        &&& self.args@.len() == arity(self.name)
        &&& forall|i: int|
            0 <= i < self.args@.len() ==> (#[trigger] self.args@[i]).well_formed()
    }

    /// A function of the given name; a unary one gets an `Empty` placeholder
    /// as its argument.
    pub fn new(name: FunctionName) -> (r: Function)
        ensures
            r.name == name,
            r.well_formed(),
            forall|i: int|
                0 <= i < r.args@.len() ==> (#[trigger] r.args@[i]).name == FunctionName::Empty,
    {
        let args: Vec<Function> = match name {
            FunctionName::Abs | FunctionName::Sin => {
                let empty = Function { id: fresh_id(), name: FunctionName::Empty, args: Vec::new() };
                let v: Vec<Function> = vec![empty];
                v
            },
            _ => Vec::new(),
        };
        let r = Function { id: fresh_id(), name, args };
        assert(r.args@.len() == arity(name));
        assert forall|i: int| 0 <= i < r.args@.len() implies (#[trigger] r.args@[i]).well_formed() by {
            assert(r.args@[i].args@.len() == 0);
        }
        r
    }

    /// Evaluation is not implemented yet: every function evaluates to the
    /// scalar `0.0`.
    pub fn resolve() -> (r: Value)
        ensures
            r == Value::Float(ZERO_BITS),
    {
        Value::Float(ZERO_BITS)
    }

    /// The function that a textual name stands for: `"abs"` or `"sin"`, and
    /// none for any other text.
    pub fn create(name: &str) -> (r: Option<Function>)
        ensures
            name@ == "abs"@ <==> (r.is_some() && r.unwrap().name == FunctionName::Abs),
            name@ == "sin"@ <==> (r.is_some() && r.unwrap().name == FunctionName::Sin),
            r.is_none() <==> (name@ != "abs"@ && name@ != "sin"@),
            r.is_some() ==> r.unwrap().well_formed(),
    {
        proof {
            reveal_strlit("abs");
            reveal_strlit("sin");
            assert("abs"@[0] != "sin"@[0]);
        }
        let text = name.to_string();
        if text == "abs".to_string() {
            Some(Function::new(FunctionName::Abs))
        } else if text == "sin".to_string() {
            Some(Function::new(FunctionName::Sin))
        } else {
            None
        }
    }

    /// Replaces the argument at index `i`, keeping this node's name.
    pub fn replace_arg(&mut self, i: usize, arg: Function)
        requires
            i < old(self).args@.len(),
        ensures
            final(self).id == old(self).id,
            final(self).name == old(self).name,
            final(self).args@ == old(self).args@.update(i as int, arg),
            old(self).well_formed() && arg.well_formed() ==> final(self).well_formed(),
    {
        self.args.set(i, arg);
    }
}

/// A unary function (`Abs`, `Sin`) holds exactly one argument when it is made,
/// and still does after any argument is replaced.
pub proof fn lemma_unary_arity(name: FunctionName, f: Function, i: int, arg: Function, g: Function)
    requires
        name == FunctionName::Abs || name == FunctionName::Sin,
        f.name == name,
        f.well_formed(),
        0 <= i < f.args@.len(),
        g.name == f.name,
        g.args@ == f.args@.update(i, arg),
    ensures
        f.args@.len() == 1,
        g.args@.len() == 1,
{
}

} // verus!
