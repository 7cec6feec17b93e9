//! The registry of tools an agent may call, keyed by name.

use vstd::prelude::*;
use crate::tools::schema::{ToolSchema, schema_json, render_schema};

verus! {

/// A tool stored under a name: its schema and the handle that runs it.
#[derive(Debug)]
pub struct RegisteredTool<T> {
    pub name: String,
    pub schema: ToolSchema,
    pub tool: T,
}

/// The index of the entry registered under `key`.
pub open spec fn tool_index<T>(entries: Seq<RegisteredTool<T>>, key: Seq<char>) -> Option<int> {
    if exists|i: int| 0 <= i < entries.len() && entries[i].name@ == key {
        Some(choose|i: int| 0 <= i < entries.len() && entries[i].name@ == key)
    } else {
        None
    }
}

/// No two entries share a name.
pub open spec fn names_unique<T>(entries: Seq<RegisteredTool<T>>) -> bool {
    forall|i: int, j: int|
        0 <= i < entries.len() && 0 <= j < entries.len() && i != j ==> entries[i].name@
            != entries[j].name@
}

pub proof fn lemma_unique_at<T>(entries: Seq<RegisteredTool<T>>, a: int, b: int)
    requires
        names_unique(entries),
        0 <= a < entries.len(),
        0 <= b < entries.len(),
        entries[a].name@ == entries[b].name@,
    ensures
        a == b,
{
}

/// `after` is `before` with `tool` stored under `key`: in place of an entry of that
/// name, or else appended.
pub open spec fn registered<T>(
    before: Seq<RegisteredTool<T>>,
    after: Seq<RegisteredTool<T>>,
    key: Seq<char>,
    schema: ToolSchema,
    tool: T,
) -> bool {
    let at = match tool_index(before, key) {
        Some(i) => i,
        None => before.len() as int,
    };
    &&& after.len() == if tool_index(before, key) is Some {
        before.len()
    } else {
        before.len() + 1
    }
    &&& after[at].name@ == key
    &&& after[at].schema == schema
    &&& after[at].tool == tool
    &&& forall|j: int| 0 <= j < before.len() && j != at ==> after[j] == before[j]
}

/// Registering a second tool under a name already taken leaves the number of tools as
/// it was, and the name then finds the second tool.
pub proof fn lemma_register_same_name_twice<T>(
    t0: Seq<RegisteredTool<T>>,
    t1: Seq<RegisteredTool<T>>,
    t2: Seq<RegisteredTool<T>>,
    key: Seq<char>,
    first_schema: ToolSchema,
    first: T,
    second_schema: ToolSchema,
    second: T,
)
    requires
        names_unique(t0),
        names_unique(t1),
        names_unique(t2),
        registered(t0, t1, key, first_schema, first),
        registered(t1, t2, key, second_schema, second),
    ensures
        t2.len() == t1.len(),
        tool_index(t2, key) matches Some(i) && t2[i].schema == second_schema && t2[i].tool == second,
{
    let at1 = match tool_index(t0, key) {
        Some(i) => i,
        None => t0.len() as int,
    };
    assert(0 <= at1 < t1.len() && t1[at1].name@ == key);
    let j = tool_index(t1, key)->0;
    assert(t2[j].name@ == key);
    let i = tool_index(t2, key)->0;
    lemma_unique_at(t2, i, j);
}

/// The tools an agent may call. Registering under a taken name replaces that entry;
/// entries keep the order in which their names were first registered.
pub struct ToolRegistry<T> {
    entries: Vec<RegisteredTool<T>>,
}

impl<T> View for ToolRegistry<T> {
    type V = Seq<RegisteredTool<T>>;

    closed spec fn view(&self) -> Seq<RegisteredTool<T>> {
        self.entries@
    }
}

impl<T> ToolRegistry<T> {
    pub open spec fn wf(&self) -> bool {
        names_unique(self@)
    }

    pub fn new() -> (r: ToolRegistry<T>)
        ensures
            r@ == Seq::<RegisteredTool<T>>::empty(),
            r.wf(),
    {
        ToolRegistry { entries: Vec::new() }
    }

    pub fn len(&self) -> (r: usize)
        ensures
            r == self@.len(),
    {
        self.entries.len()
    }

    pub fn is_empty(&self) -> (r: bool)
        ensures
            r == (self@.len() == 0),
    {
        self.entries.len() == 0
    }

    /// The position of the entry named `name`.
    pub fn position(&self, name: &str) -> (r: Option<usize>)
        requires
            self.wf(),
        ensures
            match r {
                Some(i) => tool_index(self@, name@) == Some(i as int),
                None => tool_index(self@, name@) is None,
            },
    {
        let key = String::from_str(name);
        let mut i: usize = 0;
        while i < self.entries.len()
            invariant
                i <= self@.len(),
                key@ == name@,
                self.wf(),
                self.entries@ == self@,
                forall|j: int| 0 <= j < i ==> self@[j].name@ != name@,
            decreases self@.len() - i,
        {
            if self.entries[i].name == key {
                proof {
                    let c = choose|x: int| 0 <= x < self@.len() && self@[x].name@ == name@;
                    lemma_unique_at(self@, c, i as int);
                }
                return Some(i);
            }
            i = i + 1;
        }
        None
    }

    /// The entry registered under `name`.
    pub fn get(&self, name: &str) -> (r: Option<&RegisteredTool<T>>)
        requires
            self.wf(),
        ensures
            match tool_index(self@, name@) {
                Some(i) => r == Some(&self@[i]),
                None => r is None,
            },
    {
        match self.position(name) {
            Some(i) => Some(&self.entries[i]),
            None => None,
        }
    }

    /// Stores `tool` under `name`, or under the schema's own name when none is given.
    pub fn register(&mut self, name: Option<&str>, schema: ToolSchema, tool: T)
        requires
            old(self).wf(),
        ensures
            final(self).wf(),
            registered(
                old(self)@,
                final(self)@,
                match name {
                    Some(n) => n@,
                    None => schema.name@,
                },
                schema,
                tool,
            ),
    {
        let key = match name {
            Some(n) => String::from_str(n),
            None => schema.name.clone(),
        };
        let ghost before = self@;
        let found = self.position(key.as_str());
        let entry = RegisteredTool { name: key, schema, tool };
        match found {
            Some(i) => {
                self.entries.set(i, entry);
                assert(names_unique(self@)) by {
                    assert forall|a: int, b: int|
                        0 <= a < self@.len() && 0 <= b < self@.len() && a != b
                        implies self@[a].name@ != self@[b].name@ by {
                        if a != i && b != i {
                            assert(self@[a] == before[a] && self@[b] == before[b]);
                        }
                    }
                }
            },
            None => {
                self.entries.push(entry);
                assert(names_unique(self@)) by {
                    assert forall|a: int, b: int|
                        0 <= a < self@.len() && 0 <= b < self@.len() && a != b
                        implies self@[a].name@ != self@[b].name@ by {
                        if a < before.len() && b < before.len() {
                            assert(self@[a] == before[a] && self@[b] == before[b]);
                        }
                    }
                }
            },
        }
    }

    /// Each tool's schema as JSON text, under its registered name, in registry order.
    pub fn describe_all(&self) -> (r: Vec<String>)
        ensures
            r@.len() == self@.len(),
            forall|i: int|
                0 <= i < r@.len() ==> (#[trigger] r@[i])@ == schema_json(
                    self@[i].name@,
                    self@[i].schema.description@,
                    self@[i].schema.args@,
                ),
    {
        let mut out: Vec<String> = Vec::new();
        let mut i: usize = 0;
        while i < self.entries.len()
            invariant
                i <= self@.len(),
                self.entries@ == self@,
                out@.len() == i,
                forall|j: int|
                    0 <= j < i ==> (#[trigger] out@[j])@ == schema_json(
                        self@[j].name@,
                        self@[j].schema.description@,
                        self@[j].schema.args@,
                    ),
            decreases self@.len() - i,
        {
            let e = &self.entries[i];
            out.push(render_schema(e.name.as_str(), e.schema.description.as_str(), &e.schema.args));
            i = i + 1;
        }
        out
    }
}

} // verus!
