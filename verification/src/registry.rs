//! The tool registry: named, schema-described capabilities, dispatched by
//! dynamic lookup on the tool name.
//!
//! Registration refuses a taken name and leaves the registry unchanged.
//! Invocation validates the request's arguments against the registered
//! schema before the handler is reached.

use vstd::prelude::*;
use crate::errors::{DuplicateToolError, ToolError};
use crate::schema::{args_conform, ArgView, Arguments};
use crate::tools::{ToolCapability, ToolDefinition};

verus! {

/// A request the provider produced: invoke `tool_name` on `arguments`,
/// answering under `call_id`.
pub struct ToolInvocationRequest {
    pub call_id: String,
    pub tool_name: String,
    pub arguments: Arguments,
}

/// The mathematical value of a `ToolInvocationRequest`.
#[verifier::ext_equal]
pub struct RequestView {
    pub call_id: Seq<char>,
    pub tool_name: Seq<char>,
    pub arguments: Seq<ArgView>,
}

impl View for ToolInvocationRequest {
    type V = RequestView;

    open spec fn view(&self) -> RequestView {
        RequestView {
            call_id: self.call_id@,
            tool_name: self.tool_name@,
            arguments: self.arguments@,
        }
    }
}

impl DeepView for ToolInvocationRequest {
    type V = RequestView;

    open spec fn deep_view(&self) -> RequestView {
        self@
    }
}

impl Clone for ToolInvocationRequest {
    fn clone(&self) -> (r: Self)
        ensures
            r@ == self@,
    {
        ToolInvocationRequest {
            call_id: self.call_id.clone(),
            tool_name: self.tool_name.clone(),
            arguments: self.arguments.clone(),
        }
    }
}

/// A successful tool outcome.
#[derive(Debug)]
pub struct ToolResult {
    pub tool_name: String,
    pub output: String,
}

/// The mathematical value of a `ToolResult`.
pub struct ToolResultView {
    pub tool_name: Seq<char>,
    pub output: Seq<char>,
}

impl View for ToolResult {
    type V = ToolResultView;

    open spec fn view(&self) -> ToolResultView {
        ToolResultView { tool_name: self.tool_name@, output: self.output@ }
    }
}

/// One registered capability under its wire definition.
pub struct RegisteredTool<H: ToolCapability> {
    pub definition: ToolDefinition,
    pub handler: H,
}

/// The registry itself.  Read-only once built; registration happens before
/// the owning agent is constructed.
pub struct ToolRegistry<H: ToolCapability> {
    tools: Vec<RegisteredTool<H>>,
}

/// The first registered tool of that name, if any.
pub open spec fn spec_find_tool<H: ToolCapability>(
    entries: Seq<RegisteredTool<H>>,
    name: Seq<char>,
) -> Option<RegisteredTool<H>>
    decreases entries.len(),
{
    if entries.len() == 0 {
        Option::None
    } else if entries[0].definition@.name == name {
        Option::Some(entries[0])
    } else {
        spec_find_tool(entries.drop_first(), name)
    }
}

proof fn lemma_find_tool_skip<H: ToolCapability>(
    entries: Seq<RegisteredTool<H>>,
    name: Seq<char>,
    j: int,
)
    requires
        0 <= j <= entries.len(),
        forall|k: int| 0 <= k < j ==> (#[trigger] entries[k]).definition@.name != name,
    ensures
        spec_find_tool(entries, name) == spec_find_tool(entries.skip(j), name),
    decreases j,
{
    if j == 0 {
        assert(entries.skip(0) =~= entries);
    } else {
        lemma_find_tool_skip(entries, name, j - 1);
        let s = entries.skip(j - 1);
        assert(s[0] == entries[j - 1]);
        assert(s[0].definition@.name != name);
        assert(s.drop_first() =~= entries.skip(j));
        assert(spec_find_tool(s, name) == spec_find_tool(s.drop_first(), name));
    }
}

/// A name no entry carries is not found.
pub proof fn lemma_absent_find_none<H: ToolCapability>(
    entries: Seq<RegisteredTool<H>>,
    name: Seq<char>,
)
    requires
        forall|i: int| 0 <= i < entries.len() ==> (#[trigger] entries[i]).definition@.name != name,
    ensures
        spec_find_tool(entries, name) is None,
    decreases entries.len(),
{
    if entries.len() > 0 {
        assert(entries[0].definition@.name != name);
        assert forall|i: int| 0 <= i < entries.drop_first().len() implies (#[trigger] entries.drop_first()[i]).definition@.name
            != name by {
            assert(entries.drop_first()[i] == entries[i + 1]);
        }
        lemma_absent_find_none(entries.drop_first(), name);
    }
}

impl<H: ToolCapability> ToolRegistry<H> {
    /// The registered tools, in registration order.
    pub closed spec fn entries(&self) -> Seq<RegisteredTool<H>> {
        self.tools@
    }

    /// Whether a tool of that name is registered.
    pub open spec fn spec_has(&self, name: Seq<char>) -> bool {
        exists|i: int|
            0 <= i < self.entries().len() && (#[trigger] self.entries()[i]).definition@.name
                == name
    }

    /// Registered names are unique.
    pub open spec fn wf(&self) -> bool {
        forall|i: int, j: int|
            0 <= i < j < self.entries().len() ==> (#[trigger] self.entries()[i]).definition@.name
                != (#[trigger] self.entries()[j]).definition@.name
    }

    /// An empty registry.
    pub fn new() -> (r: Self)
        ensures
            r.entries() =~= Seq::<RegisteredTool<H>>::empty(),
            r.wf(),
    {
        ToolRegistry { tools: Vec::new() }
    }

    /// The index of the first tool of that name.
    fn find(&self, name: &String) -> (r: Option<usize>)
        ensures
            (match r {
                Option::Some(i) => {
                    &&& 0 <= i < self.entries().len()
                    &&& self.entries()[i as int].definition@.name == name@
                    &&& spec_find_tool(self.entries(), name@) == Option::Some(
                        self.entries()[i as int],
                    )
                    &&& self.spec_has(name@)
                },
                Option::None => {
                    &&& spec_find_tool(self.entries(), name@) is None
                    &&& !self.spec_has(name@)
                },
            }),
    {
        let mut j: usize = 0;
        while j < self.tools.len()
            invariant
                0 <= j <= self.tools.len(),
                forall|k: int| 0 <= k < j ==> (#[trigger] self.entries()[k]).definition@.name != name@,
            decreases self.tools.len() - j,
        {
            if self.tools[j].definition.name == *name {
                proof {
                    lemma_find_tool_skip(self.entries(), name@, j as int);
                    assert(self.entries().skip(j as int)[0] == self.entries()[j as int]);
                }
                return Option::Some(j);
            }
            j += 1;
        }
        proof {
            lemma_find_tool_skip(self.entries(), name@, self.entries().len() as int);
        }
        Option::None
    }

    /// Whether a tool of that name is registered.
    pub fn has_tool(&self, name: &String) -> (r: bool)
        ensures
            r == self.spec_has(name@),
    {
        match self.find(name) {
            Option::Some(_) => true,
            Option::None => false,
        }
    }

    /// Register a capability under its definition's name.  A taken name is
    /// refused with `DuplicateToolError`, and the registry is unchanged.
    pub fn register(&mut self, definition: ToolDefinition, handler: H) -> (r: Result<
        (),
        DuplicateToolError,
    >)
        requires
            old(self).wf(),
        ensures
            final(self).wf(),
            (match r {
                Ok(_) => {
                    &&& !old(self).spec_has(definition@.name)
                    &&& final(self).entries() == old(self).entries().push(
                        (RegisteredTool { definition, handler }),
                    )
                },
                Err(e) => {
                    &&& old(self).spec_has(definition@.name)
                    &&& e@ == definition@.name
                    &&& *final(self) == *old(self)
                },
            }),
    {
        if self.has_tool(&definition.name) {
            let name = definition.name.clone();
            return Err(DuplicateToolError { tool_name: name });
        }
        self.tools.push(RegisteredTool { definition, handler });
        proof {
            let prev = old(self).entries();
            let cur = self.entries();
            assert forall|i: int, j: int| 0 <= i < j < cur.len() implies (#[trigger] cur[i]).definition@.name
                != (#[trigger] cur[j]).definition@.name by {
                assert(cur[i] == prev[i]);
                if j < prev.len() {
                    assert(cur[j] == prev[j]);
                } else {
                    assert(cur[j].definition@.name == definition@.name);
                }
            }
        }
        return Ok(());
    }

    /// The wire definitions handed to the provider: exactly those the
    /// registry validates against, in registration order.
    pub fn definitions(&self) -> (r: Vec<ToolDefinition>)
        ensures
            r@.len() == self.entries().len(),
            forall|i: int|
                0 <= i < r@.len() ==> (#[trigger] r@[i])@ == self.entries()[i].definition@,
    {
        let mut out: Vec<ToolDefinition> = Vec::new();
        let mut j: usize = 0;
        while j < self.tools.len()
            invariant
                0 <= j <= self.tools.len(),
                out@.len() == j,
                forall|i: int|
                    0 <= i < j ==> (#[trigger] out@[i])@ == self.entries()[i].definition@,
            decreases self.tools.len() - j,
        {
            out.push(self.tools[j].definition.clone());
            j += 1;
        }
        out
    }

    /// Dispatch one invocation request.
    ///
    /// An unknown name fails with `UnknownTool`; arguments that do not
    /// conform to the registered schema fail with `SchemaValidation` and
    /// never reach the handler; otherwise the handler runs, its failure
    /// mapped into `ToolError::Handler`.  The registry never times a
    /// handler itself: patience belongs to the driving loop.
    pub fn invoke(&self, request: &ToolInvocationRequest) -> (r: Result<ToolResult, ToolError>)
        ensures
            (match r {
                Ok(res) => {
                    &&& spec_find_tool(self.entries(), request@.tool_name) matches Option::Some(
                        entry,
                    ) && {
                        &&& args_conform(entry.definition@.parameters, request@.arguments)
                        &&& entry.handler.spec_call(request@.arguments) == Ok::<Seq<char>, ()>(
                            res@.output,
                        )
                    }
                    &&& res@.tool_name == request@.tool_name
                },
                Err(e) => (match e {
                    ToolError::UnknownTool { tool_name } => {
                        &&& tool_name@ == request@.tool_name
                        &&& !self.spec_has(request@.tool_name)
                    },
                    ToolError::SchemaValidation { tool_name } => {
                        &&& tool_name@ == request@.tool_name
                        &&& spec_find_tool(self.entries(), request@.tool_name) matches
                            Option::Some(entry) && !args_conform(
                            entry.definition@.parameters,
                            request@.arguments,
                        )
                    },
                    ToolError::Handler { tool_name, .. } => {
                        &&& tool_name@ == request@.tool_name
                        &&& spec_find_tool(self.entries(), request@.tool_name) matches
                            Option::Some(entry) && {
                            &&& args_conform(entry.definition@.parameters, request@.arguments)
                            &&& entry.handler.spec_call(request@.arguments) is Err
                        }
                    },
                    ToolError::Timeout { .. } => false,
                }),
            }),
    {
        match self.find(&request.tool_name) {
            Option::None => Err(
                ToolError::UnknownTool { tool_name: request.tool_name.clone() },
            ),
            Option::Some(i) => {
                let entry = &self.tools[i];
                if !entry.definition.parameters.accepts(&request.arguments) {
                    Err(ToolError::SchemaValidation { tool_name: request.tool_name.clone() })
                } else {
                    match entry.handler.call(&request.arguments) {
                        Ok(out) => Ok(
                            ToolResult { tool_name: request.tool_name.clone(), output: out },
                        ),
                        Err(m) => Err(
                            ToolError::Handler {
                                tool_name: request.tool_name.clone(),
                                message: m,
                            },
                        ),
                    }
                }
            },
        }
    }
}

} // verus!
