//! Native functions that scripts may call.
//!
//! The host makes a function of its own known to the engine under a name. The
//! session keeps a record of what it has bound: one function per name, the
//! latest binding of a name taking the place of the one before.

use vstd::prelude::*;

verus! {

/// A native function, as the engine's calling convention takes it: the
/// address of a function that receives the engine's state and returns a
/// status. The session hands it on and never calls through it.
#[allow(non_camel_case_types)]
#[derive(Debug, Clone, Copy, PartialEq, Eq, Structural)]
pub struct lua_CFunction(pub usize);

/// One native function under its name.
#[derive(Debug)]
struct Binding {
    name: String,
    function: lua_CFunction,
}

/// The native functions bound so far, by name.
#[derive(Debug)]
pub struct Registry {
    entries: Vec<Binding>,
}

/// No two entries have the same name.
spec fn distinct(entries: Seq<Binding>) -> bool {
    forall|i: int, j: int|
        0 <= i < j < entries.len() ==> (#[trigger] entries[i]).name@ != (#[trigger] entries[j]).name@
}

/// No entry has the name `name`.
spec fn absent(entries: Seq<Binding>, name: Seq<char>) -> bool {
    forall|i: int| 0 <= i < entries.len() ==> (#[trigger] entries[i]).name@ != name
}

/// The map from names to functions that the entries make up.
spec fn table(entries: Seq<Binding>) -> Map<Seq<char>, lua_CFunction>
    decreases entries.len(),
{
    if entries.len() == 0 {
        Map::empty()
    } else {
        table(entries.drop_last()).insert(entries.last().name@, entries.last().function)
    }
}

proof fn lemma_table_absent(entries: Seq<Binding>, name: Seq<char>)
    requires
        absent(entries, name),
    ensures
        !table(entries).contains_key(name),
    decreases entries.len(),
{
    if entries.len() > 0 {
        let rest = entries.drop_last();
        assert forall|i: int| 0 <= i < rest.len() implies (#[trigger] rest[i]).name@ != name by {
            assert(rest[i] == entries[i]);
        }
        assert(entries.last() == entries[entries.len() - 1]);
        lemma_table_absent(rest, name);
    }
}

proof fn lemma_table_present(entries: Seq<Binding>, i: int)
    requires
        distinct(entries),
        0 <= i < entries.len(),
    ensures
        table(entries).contains_key(entries[i].name@),
        table(entries)[entries[i].name@] == entries[i].function,
    decreases entries.len(),
{
    let rest = entries.drop_last();
    if i < entries.len() - 1 {
        assert forall|a: int, b: int| 0 <= a < b < rest.len() implies (#[trigger] rest[a]).name@ != (
        #[trigger] rest[b]).name@ by {
            assert(rest[a] == entries[a]);
            assert(rest[b] == entries[b]);
        }
        assert(rest[i] == entries[i]);
        lemma_table_present(rest, i);
        assert(entries.last() == entries[entries.len() - 1]);
    }
}

proof fn lemma_table_push(entries: Seq<Binding>, binding: Binding)
    requires
        distinct(entries),
        absent(entries, binding.name@),
    ensures
        distinct(entries.push(binding)),
        table(entries.push(binding)) == table(entries).insert(binding.name@, binding.function),
{
    assert(entries.push(binding).drop_last() =~= entries);
}

proof fn lemma_table_replace(entries: Seq<Binding>, i: int, binding: Binding)
    requires
        distinct(entries),
        0 <= i < entries.len(),
        binding.name@ == entries[i].name@,
    ensures
        distinct(entries.update(i, binding)),
        table(entries.update(i, binding)) =~= table(entries).insert(
            binding.name@,
            binding.function,
        ),
    decreases entries.len(),
{
    let after = entries.update(i, binding);
    let rest = entries.drop_last();
    assert forall|a: int, b: int| 0 <= a < b < after.len() implies (#[trigger] after[a]).name@ != (
    #[trigger] after[b]).name@ by {
        assert(after[a].name@ == entries[a].name@);
        assert(after[b].name@ == entries[b].name@);
    }
    assert forall|a: int, b: int| 0 <= a < b < rest.len() implies (#[trigger] rest[a]).name@ != (
    #[trigger] rest[b]).name@ by {
        assert(rest[a] == entries[a]);
        assert(rest[b] == entries[b]);
    }
    if i == entries.len() - 1 {
        assert(after.drop_last() =~= rest);
    } else {
        assert(after.drop_last() =~= rest.update(i, binding));
        assert(rest[i] == entries[i]);
        lemma_table_replace(rest, i, binding);
        assert(after.last() == entries.last());
        assert(entries.last() == entries[entries.len() - 1]);
        assert(entries.last().name@ != binding.name@);
    }
}

impl View for Registry {
    type V = Map<Seq<char>, lua_CFunction>;

    closed spec fn view(&self) -> Map<Seq<char>, lua_CFunction> {
        table(self.entries@)
    }
}

impl Registry {
    #[verifier::type_invariant]
    spec fn names_are_unique(self) -> bool {
        distinct(self.entries@)
    }

    /// A registry with nothing bound.
    pub fn new() -> (registry: Self)
        ensures
            registry@ == Map::<Seq<char>, lua_CFunction>::empty(),
    {
        Registry { entries: Vec::new() }
    }

    /// Where the entry named `name` stands, if there is one.
    fn position(&self, name: &String) -> (found: Option<usize>)
        ensures
            match found {
                Some(i) => i < self.entries@.len() && self.entries@[i as int].name@ == name@,
                None => absent(self.entries@, name@),
            },
    {
        let mut i: usize = 0;
        while i < self.entries.len()
            invariant
                i <= self.entries@.len(),
                forall|k: int| 0 <= k < i ==> (#[trigger] self.entries@[k]).name@ != name@,
            decreases self.entries@.len() - i,
        {
            if self.entries[i].name == *name {
                return Some(i);
            }
            i += 1;
        }
        None
    }

    /// The function bound under `name`, if any.
    pub fn get(&self, name: &str) -> (found: Option<lua_CFunction>)
        ensures
            found == if self@.contains_key(name@) {
                Some(self@[name@])
            } else {
                None
            },
    {
        proof {
            use_type_invariant(self);
        }
        let wanted = name.to_owned();
        match self.position(&wanted) {
            Some(i) => {
                proof {
                    lemma_table_present(self.entries@, i as int);
                }
                Some(self.entries[i].function)
            },
            None => {
                proof {
                    lemma_table_absent(self.entries@, name@);
                }
                None
            },
        }
    }

    /// Binds `function` under `name`. A function bound under that name before
    /// is replaced; every other binding stays.
    pub fn bind(&mut self, name: &str, function: lua_CFunction)
        ensures
            final(self)@ == old(self)@.insert(name@, function),
    {
        proof {
            use_type_invariant(&*self);
        }
        let binding = Binding { name: name.to_owned(), function };
        let found = self.position(&binding.name);
        let mut entries: Vec<Binding> = Vec::new();
        core::mem::swap(&mut entries, &mut self.entries);
        match found {
            Some(i) => {
                proof {
                    lemma_table_replace(entries@, i as int, binding);
                }
                entries[i] = binding;
            },
            None => {
                proof {
                    lemma_table_push(entries@, binding);
                }
                entries.push(binding);
            },
        }
        self.entries = entries;
    }
}

} // verus!
