//! The tool registry: a name-keyed set of handlers with their schemas.

use vstd::prelude::*;

use crate::strutil::str_eq;
use crate::tools::types::{ToolEntry, ToolHandler, ToolResult, ToolSchema};

verus! {

/// Owns the name-to-tool mapping; validates registration, executes tools
/// by name, and exposes the schema set for completion requests.
pub struct ToolRegistry<H: ToolHandler> {
    tools: Vec<ToolEntry<H>>,
}

impl<H: ToolHandler> ToolRegistry<H> {
    /// The registered tools, in registration order.
    pub closed spec fn spec_tools(self) -> Seq<ToolEntry<H>> {
        self.tools@
    }

    /// A tool of this name is registered.
    pub open spec fn spec_has(self, name: Seq<char>) -> bool {
        exists|i: int| 0 <= i < self.spec_tools().len() && self.spec_tools()[i].name@ == name
    }

    /// Tool names are unique within the registry.
    pub open spec fn well_formed(self) -> bool {
        forall|i: int, j: int|
            0 <= i < j < self.spec_tools().len() ==> self.spec_tools()[i].name@
                != self.spec_tools()[j].name@
    }

    pub fn new() -> (r: ToolRegistry<H>)
        ensures
            r.well_formed(),
            r.spec_tools() == Seq::<ToolEntry<H>>::empty(),
    {
        let r = ToolRegistry { tools: Vec::new() };
        proof {
            assert(r.spec_tools() =~= Seq::<ToolEntry<H>>::empty());
        }
        r
    }

    /// Finds the position of a registered name.
    fn index_of(&self, name: &str) -> (r: Option<usize>)
        ensures
            match r {
                Some(i) => {
                    &&& i < self.spec_tools().len()
                    &&& self.spec_tools()[i as int].name@ == name@
                },
                None => !self.spec_has(name@),
            },
    {
        let mut i: usize = 0;
        while i < self.tools.len()
            invariant
                i <= self.spec_tools().len(),
                forall|k: int| 0 <= k < i ==> self.spec_tools()[k].name@ != name@,
            decreases self.spec_tools().len() - i,
        {
            if str_eq(self.tools[i].name.as_str(), name) {
                return Some(i);
            }
            i = i + 1;
        }
        None
    }

    /// Registers a tool. Fails when the name is empty, when the schema
    /// carries a different non-empty name (an empty schema name is filled
    /// from `name`), or when the name is already taken; otherwise appends
    /// the entry, which later calls see immediately.
    pub fn register(&mut self, name: &str, handler: H, schema: ToolSchema) -> (r: Result<
        (),
        String,
    >)
        requires
            old(self).well_formed(),
        ensures
            final(self).well_formed(),
            name@.len() == 0 ==> {
                &&& r matches Err(e) && e@ == "invalid tool"@
                &&& *final(self) == *old(self)
            },
            name@.len() > 0 && schema.name@.len() > 0 && schema.name@ != name@ ==> {
                &&& r matches Err(e) && e@ == "schema name mismatch"@
                &&& *final(self) == *old(self)
            },
            name@.len() > 0 && (schema.name@.len() == 0 || schema.name@ == name@)
                && old(self).spec_has(name@) ==> {
                &&& r matches Err(e) && e@ == "tool already registered"@
                &&& *final(self) == *old(self)
            },
            name@.len() > 0 && (schema.name@.len() == 0 || schema.name@ == name@)
                && !old(self).spec_has(name@) ==> {
                &&& r is Ok
                &&& final(self).spec_tools().len() == old(self).spec_tools().len() + 1
                &&& final(self).spec_tools().subrange(0, old(self).spec_tools().len() as int)
                    =~= old(self).spec_tools()
                &&& final(self).spec_tools().last().name@ == name@
                &&& final(self).spec_tools().last().handler == handler
                &&& final(self).spec_tools().last().schema.name@ == name@
                &&& final(self).spec_tools().last().schema.description
                    == schema.description
                &&& final(self).spec_tools().last().schema.parameters == schema.parameters
            },
    {
        if name.unicode_len() == 0 {
            return Err(String::from_str("invalid tool"));
        }
        let mut schema = schema;
        if schema.name.as_str().unicode_len() == 0 {
            schema.name = name.to_owned();
        }
        if !str_eq(schema.name.as_str(), name) {
            return Err(String::from_str("schema name mismatch"));
        }
        match self.index_of(name) {
            Some(_) => Err(String::from_str("tool already registered")),
            None => {
                let entry = ToolEntry { name: name.to_owned(), handler, schema };
                self.tools.push(entry);
                proof {
                    assert(final(self).spec_tools().subrange(
                        0,
                        old(self).spec_tools().len() as int,
                    ) =~= old(self).spec_tools());
                }
                Ok(())
            },
        }
    }

    /// Executes a registered tool by name. An unknown name or a handler
    /// failure is reported softly in the result, never raised.
    pub fn execute(&self, name: &str, args: serde_json::Value) -> (r: ToolResult)
        ensures
            !self.spec_has(name@) ==> {
                &&& r.success == false
                &&& r.output is None
                &&& r.error matches Some(e) && e@ == "tool not found"@
            },
            self.spec_has(name@) ==> {
                &&& (r.success ==> r.output is Some && r.error is None)
                &&& (!r.success ==> r.output is None && r.error is Some)
            },
    {
        match self.index_of(name) {
            None => ToolResult {
                success: false,
                output: None,
                error: Some(String::from_str("tool not found")),
            },
            Some(i) => {
                proof {
                    assert(self.spec_has(name@));
                }
                match self.tools[i].handler.call(args) {
                    Ok(output) => ToolResult { success: true, output: Some(output), error: None },
                    Err(err) => ToolResult { success: false, output: None, error: Some(err) },
                }
            },
        }
    }

    /// The schemas of all registered tools, in registration order.
    pub fn get_schemas(&self) -> (r: Vec<ToolSchema>)
        ensures
            r@.len() == self.spec_tools().len(),
            forall|i: int| 0 <= i < r@.len() ==> r@[i] == self.spec_tools()[i].schema,
    {
        let mut out: Vec<ToolSchema> = Vec::new();
        let mut i: usize = 0;
        while i < self.tools.len()
            invariant
                i <= self.spec_tools().len(),
                out@.len() == i,
                forall|k: int| 0 <= k < i ==> out@[k] == self.spec_tools()[k].schema,
            decreases self.spec_tools().len() - i,
        {
            out.push(self.tools[i].schema.clone());
            i = i + 1;
        }
        out
    }

    /// Whether a tool of this name is registered.
    pub fn has(&self, name: &str) -> (r: bool)
        ensures
            r == self.spec_has(name@),
    {
        match self.index_of(name) {
            Some(_) => true,
            None => false,
        }
    }

    /// How many tools are registered.
    pub fn count(&self) -> (r: usize)
        ensures
            r == self.spec_tools().len(),
    {
        self.tools.len()
    }
}

} // verus!
