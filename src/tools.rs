//! The tool registry: capabilities looked up by name, with their definitions.

use crate::models::{ToolDefinition, ToolSpec};
use vstd::prelude::*;
use vstd::string::StringExecFns;

verus! {

/// Maps tool names to capabilities of type `T` and to their definitions.
///
/// Names are unique; registering a name again replaces the earlier entry.
pub struct ToolRegistry<T> {
    tools: Vec<(ToolDefinition, T)>,
}

impl<T> ToolRegistry<T> {
    /// Names are unique across the entries.
    pub closed spec fn wf(&self) -> bool {
        forall|i: int, j: int|
            0 <= i < self.tools@.len() && 0 <= j < self.tools@.len() && i != j
                ==> self.tools@[i].0.name@ != self.tools@[j].0.name@
    }

    /// Whether a tool is registered under `name`.
    pub closed spec fn has(&self, name: Seq<char>) -> bool {
        exists|i: int| 0 <= i < self.tools@.len() && self.tools@[i].0.name@ == name
    }

    /// The position of `name` among the entries.
    closed spec fn index_of(&self, name: Seq<char>) -> int {
        choose|i: int| 0 <= i < self.tools@.len() && self.tools@[i].0.name@ == name
    }

    /// The capability registered under `name`, if any.
    pub closed spec fn spec_get(&self, name: Seq<char>) -> Option<T> {
        if self.has(name) {
            Some(self.tools@[self.index_of(name)].1)
        } else {
            None
        }
    }

    /// The definition registered under `name`, if any.
    pub closed spec fn spec_definition(&self, name: Seq<char>) -> Option<ToolDefinition> {
        if self.has(name) {
            Some(self.tools@[self.index_of(name)].0)
        } else {
            None
        }
    }

    /// The definitions of all registered tools, in the registry's order.
    pub closed spec fn spec_definitions(&self) -> Seq<ToolDefinition> {
        self.tools@.map_values(|e: (ToolDefinition, T)| e.0)
    }

    /// The number of registered tools.
    pub closed spec fn spec_len(&self) -> nat {
        self.tools@.len()
    }

    /// Creates an empty registry.
    pub fn new() -> (r: ToolRegistry<T>)
        ensures
            r.wf(),
            r.spec_len() == 0,
            forall|n: Seq<char>| r.spec_get(n) is None,
    {
        ToolRegistry { tools: Vec::new() }
    }

    /// Finds the position of `name` among the entries.
    fn position(&self, name: &str) -> (r: Option<usize>)
        requires
            self.wf(),
        ensures
            r matches Some(i) ==> i < self.tools@.len() && self.tools@[i as int].0.name@ == name@
                && self.index_of(name@) == i,
            r is None ==> !self.has(name@),
    {
        let key = String::from_str(name);
        let mut i: usize = 0;
        while i < self.tools.len()
            invariant
                i <= self.tools@.len(),
                self.wf(),
                key@ == name@,
                forall|j: int| 0 <= j < i ==> self.tools@[j].0.name@ != name@,
            decreases self.tools@.len() - i,
        {
            if self.tools[i].0.name == key {
                proof {
                    assert(self.has(name@));
                    let k = self.index_of(name@);
                    assert(self.tools@[k].0.name@ == name@);
                }
                return Some(i);
            }
            i = i + 1;
        }
        None
    }

    /// Registers `tool` under its definition's name; a tool already registered
    /// under that name is replaced.
    pub fn register(&mut self, definition: ToolDefinition, tool: T)
        requires
            old(self).wf(),
        ensures
            final(self).wf(),
            final(self).spec_get(definition.name@) == Some(tool),
            final(self).spec_definition(definition.name@) == Some(definition),
            final(self).spec_len() > 0,
            forall|n: Seq<char>|
                n != definition.name@ ==> final(self).spec_get(n) == old(self).spec_get(n)
                    && final(self).spec_definition(n) == old(self).spec_definition(n),
            old(self).has(definition.name@) ==> final(self).spec_len() == old(self).spec_len(),
            !old(self).has(definition.name@) ==> final(self).spec_len() == old(self).spec_len()
                + 1,
    {
        let ghost name = definition.name@;
        let pos = self.position(definition.name.as_str());
        match pos {
            Some(i) => {
                self.tools.set(i, (definition, tool));
            },
            None => {
                self.tools.push((definition, tool));
            },
        }
        proof {
            let new = *self;
            assert(new.has(name)) by {
                let k: int = match pos {
                    Some(i) => i as int,
                    None => old(self).tools@.len() as int,
                };
                assert(new.tools@[k].0.name@ == name);
            }
            assert forall|n: Seq<char>| n != name implies new.spec_get(n) == old(self).spec_get(n)
                && new.spec_definition(n) == old(self).spec_definition(n) by {
                if old(self).has(n) {
                    let k = old(self).index_of(n);
                    assert(new.tools@[k].0.name@ == n);
                    assert(new.has(n));
                }
                if new.has(n) {
                    let k = new.index_of(n);
                    assert(old(self).tools@[k].0.name@ == n);
                    assert(old(self).has(n));
                }
            }
        }
    }

    /// Looks up the tool registered under `name`.
    pub fn get(&self, name: &str) -> (r: Option<&T>)
        requires
            self.wf(),
        ensures
            r is None <==> self.spec_get(name@) is None,
            r matches Some(t) ==> self.spec_get(name@) == Some(*t),
    {
        match self.position(name) {
            Some(i) => Some(&self.tools[i].1),
            None => None,
        }
    }

    /// Whether no tool is registered.
    pub fn is_empty(&self) -> (r: bool)
        ensures
            r == (self.spec_len() == 0),
    {
        self.tools.len() == 0
    }

    /// The number of registered tools.
    pub fn len(&self) -> (r: usize)
        ensures
            r == self.spec_len(),
    {
        self.tools.len()
    }

    /// The definitions of all tools, each wrapped with the "function" type tag.
    pub fn definitions(&self) -> (r: Vec<ToolSpec>)
        requires
            self.wf(),
        ensures
            r@.len() == self.spec_len(),
            forall|i: int|
                0 <= i < r@.len() ==> r@[i].tool_type@ == "function"@ && r@[i].function
                    == self.spec_definitions()[i],
            forall|n: Seq<char>|
                #[trigger] self.spec_definition(n) is Some ==> exists|i: int|
                    0 <= i < r@.len() && Some(r@[i].function) == self.spec_definition(n),
            forall|i: int, j: int|
                0 <= i < r@.len() && 0 <= j < r@.len() && i != j ==> r@[i].function.name@
                    != r@[j].function.name@,
            forall|i: int|
                0 <= i < r@.len() ==> self.spec_definition(#[trigger] r@[i].function.name@)
                    == Some(r@[i].function),
    {
        let mut r: Vec<ToolSpec> = Vec::new();
        let mut i: usize = 0;
        while i < self.tools.len()
            invariant
                i <= self.tools@.len(),
                r@.len() == i,
                forall|j: int|
                    0 <= j < i ==> r@[j].tool_type@ == "function"@ && r@[j].function
                        == self.spec_definitions()[j],
            decreases self.tools@.len() - i,
        {
            let spec = ToolSpec {
                tool_type: String::from_str("function"),
                function: self.tools[i].0.duplicate(),
            };
            r.push(spec);
            i = i + 1;
        }
        proof {
            assert forall|n: Seq<char>| #[trigger]
                self.spec_definition(n) is Some implies exists|i: int|
                0 <= i < r@.len() && Some(r@[i].function) == self.spec_definition(n) by {
                if self.has(n) {
                    let k = self.index_of(n);
                    assert(0 <= k < self.tools@.len() && self.tools@[k].0.name@ == n);
                    assert(r@[k].function == self.spec_definitions()[k]);
                    assert(self.spec_definitions()[k] == self.tools@[k].0);
                }
            }
            assert forall|i: int| 0 <= i < r@.len() implies self.spec_definition(
                #[trigger] r@[i].function.name@,
            ) == Some(r@[i].function) by {
                let n = self.tools@[i].0.name@;
                assert(r@[i].function == self.spec_definitions()[i]);
                assert(self.spec_definitions()[i] == self.tools@[i].0);
                assert(self.has(n));
                let k = self.index_of(n);
                assert(self.tools@[k].0.name@ == n);
            }
            assert forall|i: int, j: int|
                0 <= i < r@.len() && 0 <= j < r@.len() && i != j implies r@[i].function.name@
                != r@[j].function.name@ by {
                assert(r@[i].function == self.spec_definitions()[i]);
                assert(self.spec_definitions()[i] == self.tools@[i].0);
                assert(r@[j].function == self.spec_definitions()[j]);
                assert(self.spec_definitions()[j] == self.tools@[j].0);
            }
        }
        r
    }
}

} // verus!
