use crate::ident::{fresh_id, Id};
use crate::line::Line;
use crate::variable::Variable;
use vstd::prelude::*;

verus! {

/// Whether a block is the entry point of its node or an ordinary function.
#[derive(Clone, Copy, Debug, PartialEq, Eq, Structural)]
pub enum BlockType {
    MainFunction,
    Function,
}

/// The variable bound to `key` in `entries`: the first entry with that name.
pub open spec fn find_var(entries: Seq<(String, Variable)>, key: Seq<char>) -> Option<Variable>
    decreases entries.len(),
{
    if entries.len() == 0 {
        None
    } else if entries[0].0@ == key {
        Some(entries[0].1)
    } else {
        find_var(entries.subrange(1, entries.len() as int), key)
    }
}

proof fn lemma_find_var_push(entries: Seq<(String, Variable)>, e: (String, Variable), key: Seq<char>)
    ensures
        find_var(entries.push(e), key) == (match find_var(entries, key) {
            Some(v) => Some(v),
            None => if e.0@ == key { Some(e.1) } else { None },
        }),
    decreases entries.len(),
{
    if entries.len() > 0 {
        assert(entries.push(e).subrange(1, (entries.len() + 1) as int) =~= entries.subrange(
            1,
            entries.len() as int,
        ).push(e));
        lemma_find_var_push(entries.subrange(1, entries.len() as int), e, key);
    } else {
        assert(entries.push(e).subrange(1, 1) =~= Seq::<(String, Variable)>::empty());
        assert(find_var(Seq::<(String, Variable)>::empty(), key).is_none());
        assert(entries.push(e)[0] == e);
    }
}

proof fn lemma_find_var_update(entries: Seq<(String, Variable)>, i: int, v: Variable, key: Seq<char>)
    requires
        0 <= i < entries.len(),
        forall|j: int| 0 <= j < i ==> entries[j].0@ != entries[i].0@,
    ensures
        find_var(entries.update(i, (entries[i].0, v)), key) == if key == entries[i].0@ {
            Some(v)
        } else {
            find_var(entries, key)
        },
    decreases entries.len(),
{
    if i > 0 {
        let rest = entries.subrange(1, entries.len() as int);
        assert(entries.update(i, (entries[i].0, v)).subrange(1, entries.len() as int) =~= rest.update(
            i - 1,
            (rest[i - 1].0, v),
        ));
        assert forall|j: int| 0 <= j < i - 1 implies (#[trigger] rest[j]).0@ != rest[i - 1].0@ by {
            assert(entries[j + 1].0@ != entries[i].0@);
        }
        lemma_find_var_update(rest, i - 1, v, key);
    } else {
        assert(entries.update(i, (entries[i].0, v)).subrange(1, entries.len() as int)
            =~= entries.subrange(1, entries.len() as int));
    }
}

/// Variables addressed by name; no two entries share a name.
#[derive(Debug)]
pub struct VariableMap {
    pub entries: Vec<(String, Variable)>,
}

impl VariableMap {
    pub open spec fn well_formed(&self) -> bool {
        forall|i: int, j: int|
            0 <= i < j < self.entries@.len() ==> (#[trigger] self.entries@[i]).0@
                != (#[trigger] self.entries@[j]).0@
    }

    /// The variable bound to `key`, if any.
    pub open spec fn spec_get(&self, key: Seq<char>) -> Option<Variable> {
        find_var(self.entries@, key)
    }

    /// A map with no entries.
    pub fn new() -> (r: VariableMap)
        ensures
            r.well_formed(),
            forall|k: Seq<char>| r.spec_get(k).is_none(),
    {
        VariableMap { entries: Vec::new() }
    }

    /// The map holding exactly `entries`, or none where two of them share a
    /// name.
    pub fn from_entries(entries: Vec<(String, Variable)>) -> (r: Option<VariableMap>)
        ensures
            r.is_some() <==> forall|i: int, j: int|
                0 <= i < j < entries@.len() ==> (#[trigger] entries@[i]).0@ != (#[trigger] entries@[j]).0@,
            r matches Some(m) ==> m.entries@ == entries@ && m.well_formed(),
    {
        let n = entries.len();
        let mut i: usize = 0;
        while i < n
            invariant
                n == entries@.len(),
                i <= n,
                forall|a: int, b: int|
                    0 <= a < i && a < b < n ==> (#[trigger] entries@[a]).0@ != (#[trigger] entries@[b]).0@,
            decreases n - i,
        {
            let mut j: usize = i + 1;
            while j < n
                invariant
                    n == entries@.len(),
                    i < n,
                    i + 1 <= j <= n,
                    forall|a: int, b: int|
                        0 <= a < i && a < b < n ==> (#[trigger] entries@[a]).0@ != (#[trigger] entries@[b]).0@,
                    forall|b: int| i < b < j ==> entries@[i as int].0@ != (#[trigger] entries@[b]).0@,
                decreases n - j,
            {
                if entries[i].0 == entries[j].0 {
                    return None;
                }
                j = j + 1;
            }
            i = i + 1;
        }
        Some(VariableMap { entries })
    }

    /// The number of names bound.
    pub fn len(&self) -> (r: usize)
        ensures
            r == self.entries@.len(),
    {
        self.entries.len()
    }

    /// Index of the entry named `key`, if any.
    fn position(&self, key: &String) -> (r: Option<usize>)
        ensures
            match r {
                Some(i) => i < self.entries@.len() && self.entries@[i as int].0@ == key@
                    && forall|j: int| 0 <= j < i ==> self.entries@[j].0@ != key@,
                None => forall|j: int|
                    0 <= j < self.entries@.len() ==> self.entries@[j].0@ != key@,
            },
            match r {
                Some(i) => self.spec_get(key@) == Some(self.entries@[i as int].1),
                None => self.spec_get(key@).is_none(),
            },
    {
        let n = self.entries.len();
        let mut i: usize = 0;
        assert(self.entries@.subrange(0, n as int) =~= self.entries@);
        while i < n
            invariant
                n == self.entries@.len(),
                i <= n,
                forall|j: int| 0 <= j < i ==> self.entries@[j].0@ != key@,
                find_var(self.entries@, key@) == find_var(
                    self.entries@.subrange(i as int, n as int),
                    key@,
                ),
            decreases n - i,
        {
            let ghost rest = self.entries@.subrange(i as int, n as int);
            if self.entries[i].0 == *key {
                assert(rest[0] == self.entries@[i as int]);
                return Some(i);
            }
            assert(rest.subrange(1, rest.len() as int) =~= self.entries@.subrange(
                i + 1,
                n as int,
            ));
            i = i + 1;
        }
        None
    }

    /// The variable bound to `key`, if any.
    pub fn get(&self, key: &String) -> (r: Option<&Variable>)
        ensures
            match r {
                Some(v) => self.spec_get(key@) == Some(*v),
                None => self.spec_get(key@).is_none(),
            },
    {
        match self.position(key) {
            Some(i) => Some(&self.entries[i].1),
            None => None,
        }
    }

    /// Binds `key` to `var`, replacing an earlier binding of that name.
    pub fn insert(&mut self, key: String, var: Variable)
        requires
            old(self).well_formed(),
        ensures
            final(self).well_formed(),
            final(self).spec_get(key@) == Some(var),
            forall|k: Seq<char>| k != key@ ==> final(self).spec_get(k) == old(self).spec_get(k),
    {
        match self.position(&key) {
            Some(i) => {
                let ghost before = self.entries@;
                let name = self.entries[i].0.clone();
                self.entries.set(i, (name, var));
                proof {
                    assert(self.entries@ == before.update(i as int, (before[i as int].0, var)));
                    assert forall|k: Seq<char>| #[trigger] find_var(self.entries@, k) == if k
                        == before[i as int].0@ {
                        Some(var)
                    } else {
                        find_var(before, k)
                    } by {
                        lemma_find_var_update(before, i as int, var, k);
                    }
                }
            },
            None => {
                let ghost before = self.entries@;
                self.entries.push((key, var));
                proof {
                    assert forall|k: Seq<char>| #[trigger] find_var(self.entries@, k) == (match find_var(before, k) {
                        Some(v) => Some(v),
                        None => if key@ == k { Some(var) } else { None },
                    }) by {
                        lemma_find_var_push(before, (key, var), k);
                    }
                }
            },
        }
    }
}

/// A named scope: argument and local variables and an ordered list of lines.
#[derive(Debug)]
pub struct Block {
    pub id: Id,
    pub name: String,
    pub block_type: BlockType,
    pub arguments: VariableMap,
    pub variables: VariableMap,
    pub lines: Vec<Line>,
}

impl Block {
    pub open spec fn well_formed(&self) -> bool {
        self.arguments.well_formed() && self.variables.well_formed()
    }

    /// An empty block of the given name and type.
    pub fn new(name: String, block_type: BlockType) -> (r: Block)
        ensures
            r.name@ == name@,
            r.block_type == block_type,
            r.well_formed(),
            forall|k: Seq<char>| r.arguments.spec_get(k).is_none(),
            forall|k: Seq<char>| r.variables.spec_get(k).is_none(),
            r.lines@.len() == 0,
    {
        Block {
            id: fresh_id(),
            name,
            block_type,
            arguments: VariableMap::new(),
            variables: VariableMap::new(),
            lines: Vec::new(),
        }
    }
}

} // verus!
