//! The tool catalog and the dispatch of a tool call to a registered tool.
use vstd::prelude::*;

verus! {

/// One string argument that a tool takes.
pub struct ToolParameter {
    pub name: String,
    pub description: String,
}

/// What the model is told about a tool.
pub struct ToolDefinition {
    pub name: String,
    pub description: String,
    pub parameters: Vec<ToolParameter>,
}

/// Why a tool call produced no output.
pub enum ToolError {
    /// No tool of this name is registered.
    UnknownTool(String),
    /// The arguments lack this parameter, or hold no string for it.
    InvalidArguments(String),
    /// The tool ran and failed, with this description.
    HandlerError(String),
}

/// A resolved tool call: the tool to run once, with its arguments in the
/// order of the tool's parameters.
pub struct ToolInvocation {
    pub tool_name: String,
    pub arguments: Vec<String>,
}

/// The string stored under `key` in the JSON object written in `text`, if
/// `text` is such an object and the member is a string.
pub uninterp spec fn json_string_member(text: Seq<char>, key: Seq<char>) -> Option<Seq<char>>;

/// Relies on serde_json::from_str (parse the text as a JSON value),
/// Value::get (the member `key` of an object) and Value::as_str (a string
/// value): together they read one string member of a JSON object text.
#[verifier::external_body]
fn string_member(text: &str, key: &str) -> (r: Option<String>)
    ensures
        r matches Some(s) ==> json_string_member(text@, key@) == Some(s@),
        r is None ==> json_string_member(text@, key@) is None,
{
    let value: serde_json::Value = serde_json::from_str(text).ok()?;
    value.get(key)?.as_str().map(|s| s.to_string())
}

pub open spec fn opt_view(o: Option<String>) -> Option<Seq<char>> {
    match o {
        Some(s) => Some(s@),
        None => None,
    }
}

/// `k` is the first parameter for which no value was found.
pub open spec fn is_first_missing(found: Seq<Option<Seq<char>>>, k: int) -> bool {
    &&& 0 <= k < found.len()
    &&& found[k] is None
    &&& forall|j: int| 0 <= j < k ==> (#[trigger] found[j]) is Some
}

/// The values that the arguments `args` hold for the parameters `params`.
pub open spec fn members_found(args: Seq<char>, params: Seq<ToolParameter>) -> Seq<Option<Seq<char>>> {
    Seq::new(params.len(), |j: int| json_string_member(args, params[j].name@))
}

/// The text that a tool error becomes in the conversation.
pub open spec fn error_text(e: ToolError) -> Seq<char> {
    match e {
        ToolError::UnknownTool(n) => "unknown tool: "@ + n@,
        ToolError::InvalidArguments(p) => "invalid arguments: missing string argument "@ + p@,
        ToolError::HandlerError(d) => "tool failed: "@ + d@,
    }
}

/// The text that the outcome of a tool call becomes in the conversation.
pub open spec fn outcome_text(r: Result<String, ToolError>) -> Seq<char> {
    match r {
        Ok(s) => s@,
        Err(e) => error_text(e),
    }
}

impl ToolError {
    /// A short readable description of the error.
    pub fn describe(&self) -> (r: String)
        ensures
            r@ == error_text(*self),
    {
        match self {
            ToolError::UnknownTool(n) => {
                let mut s = String::from_str("unknown tool: ");
                s.append(n.as_str());
                s
            },
            ToolError::InvalidArguments(p) => {
                let mut s = String::from_str("invalid arguments: missing string argument ");
                s.append(p.as_str());
                s
            },
            ToolError::HandlerError(d) => {
                let mut s = String::from_str("tool failed: ");
                s.append(d.as_str());
                s
            },
        }
    }
}

/// The text of a tool call's outcome: its output, or the description of
/// its error, which the model then reads as data.
pub fn tool_output_text(outcome: Result<String, ToolError>) -> (r: String)
    ensures
        r@ == outcome_text(outcome),
{
    match outcome {
        Ok(s) => s,
        Err(e) => e.describe(),
    }
}

impl ToolDefinition {
    /// The arguments of a call of this tool from the values found for each
    /// parameter: all of them, or the first parameter without one.
    pub fn bind_arguments(&self, found: Vec<Option<String>>) -> (r: Result<Vec<String>, ToolError>)
        requires
            found@.len() == self.parameters@.len(),
        ensures
            r is Ok <==> (forall|j: int| 0 <= j < found@.len() ==> (#[trigger] found@[j]) is Some),
            r matches Ok(v) ==> v@.len() == found@.len() && forall|j: int|
                0 <= j < v@.len() ==> opt_view(#[trigger] found@[j]) == Some(v@[j]@),
            r matches Err(e) ==> exists|k: int|
                is_first_missing(found@.map_values(|o: Option<String>| opt_view(o)), k)
                    && e == ToolError::InvalidArguments(self.parameters@[k].name),
    {
        let ghost fv = found@.map_values(|o: Option<String>| opt_view(o));
        let mut values: Vec<String> = Vec::new();
        let mut i: usize = 0;
        while i < found.len()
            invariant
                found@.len() == self.parameters@.len(),
                fv == found@.map_values(|o: Option<String>| opt_view(o)),
                i <= found@.len(),
                values@.len() == i,
                forall|j: int| 0 <= j < i ==> (#[trigger] found@[j]) is Some,
                forall|j: int| 0 <= j < i ==> opt_view(#[trigger] found@[j]) == Some(values@[j]@),
            decreases found@.len() - i,
        {
            match &found[i] {
                Some(s) => {
                    values.push(s.clone());
                },
                None => {
                    assert(is_first_missing(fv, i as int));
                    return Err(ToolError::InvalidArguments(self.parameters[i].name.clone()));
                },
            }
            i = i + 1;
        }
        Ok(values)
    }
}

/// The registered tools, at most one per name.
pub struct ToolDispatcher {
    tools: Vec<ToolDefinition>,
}

/// Some tool of `tools` is called `name`.
pub open spec fn names_tool(tools: Seq<ToolDefinition>, name: Seq<char>) -> bool {
    exists|i: int| 0 <= i < tools.len() && (#[trigger] tools[i]).name@ == name
}

pub open spec fn names_unique(tools: Seq<ToolDefinition>) -> bool {
    forall|i: int, j: int|
        0 <= i < tools.len() && 0 <= j < tools.len() && (#[trigger] tools[i]).name@
            == (#[trigger] tools[j]).name@ ==> i == j
}

impl ToolDispatcher {
    pub closed spec fn catalog(&self) -> Seq<ToolDefinition> {
        self.tools@
    }

    pub open spec fn wf(&self) -> bool {
        names_unique(self.catalog())
    }

    pub fn new() -> (r: ToolDispatcher)
        ensures
            r.wf(),
            r.catalog().len() == 0,
    {
        ToolDispatcher { tools: Vec::new() }
    }

    /// The tool definitions, in the order of registration.
    pub fn definitions(&self) -> (r: &Vec<ToolDefinition>)
        ensures
            r@ == self.catalog(),
    {
        &self.tools
    }

    /// The position in the catalog of the tool called `name`.
    pub fn lookup(&self, name: &str) -> (r: Result<usize, ToolError>)
        requires
            self.wf(),
        ensures
            r is Ok <==> names_tool(self.catalog(), name@),
            r matches Ok(i) ==> i < self.catalog().len() && self.catalog()[i as int].name@ == name@,
            r matches Err(e) ==> (e matches ToolError::UnknownTool(n) && n@ == name@),
    {
        let wanted = String::from_str(name);
        let mut i: usize = 0;
        while i < self.tools.len()
            invariant
                i <= self.tools@.len(),
                wanted@ == name@,
                forall|j: int| 0 <= j < i ==> (#[trigger] self.tools@[j]).name@ != name@,
            decreases self.tools@.len() - i,
        {
            if self.tools[i].name == wanted {
                return Ok(i);
            }
            i = i + 1;
        }
        Err(ToolError::UnknownTool(wanted))
    }

    /// Adds a tool; one already registered under the same name is replaced
    /// in place.
    pub fn register(&mut self, tool: ToolDefinition)
        requires
            old(self).wf(),
        ensures
            final(self).wf(),
            names_tool(old(self).catalog(), tool.name@) ==> exists|i: int|
                0 <= i < old(self).catalog().len() && old(self).catalog()[i].name@ == tool.name@
                    && final(self).catalog() == old(self).catalog().update(i, tool),
            !names_tool(old(self).catalog(), tool.name@) ==> final(self).catalog()
                == old(self).catalog().push(tool),
    {
        match self.lookup(tool.name.as_str()) {
            Ok(i) => {
                self.tools.set(i, tool);
            },
            Err(_) => {
                self.tools.push(tool);
            },
        }
    }

    /// Resolves a call of the tool `name` with the JSON arguments `arguments`
    /// into one invocation of that tool. Nothing is cached: each call
    /// resolves anew and yields its own invocation.
    pub fn resolve(&self, name: &str, arguments: &str) -> (r: Result<ToolInvocation, ToolError>)
        requires
            self.wf(),
        ensures
            !names_tool(self.catalog(), name@) ==> (r matches Err(ToolError::UnknownTool(n)) && n@ == name@),
            names_tool(self.catalog(), name@) ==> exists|i: int|
                0 <= i < self.catalog().len() && (#[trigger] self.catalog()[i]).name@ == name@
                    && bound_as(self.catalog()[i], members_found(arguments@, self.catalog()[i].parameters@), r),
    {
        let i = match self.lookup(name) {
            Ok(i) => i,
            Err(e) => return Err(e),
        };
        let tool = &self.tools[i];
        let mut found: Vec<Option<String>> = Vec::new();
        let mut j: usize = 0;
        while j < tool.parameters.len()
            invariant
                j <= tool.parameters@.len(),
                found@.len() == j,
                forall|k: int| 0 <= k < j ==> opt_view(#[trigger] found@[k]) == json_string_member(arguments@, tool.parameters@[k].name@),
            decreases tool.parameters@.len() - j,
        {
            let v = string_member(arguments, tool.parameters[j].name.as_str());
            found.push(v);
            j = j + 1;
        }
        let ghost fv = found@.map_values(|o: Option<String>| opt_view(o));
        assert(fv =~= members_found(arguments@, tool.parameters@));
        match tool.bind_arguments(found) {
            Ok(values) => Ok(ToolInvocation { tool_name: tool.name.clone(), arguments: values }),
            Err(e) => Err(e),
        }
    }
}

/// `r` is the outcome of binding the values `found` to the parameters of
/// `tool`: the invocation with all values, or the first parameter missing.
pub open spec fn bound_as(tool: ToolDefinition, found: Seq<Option<Seq<char>>>, r: Result<ToolInvocation, ToolError>) -> bool {
    &&& r is Ok <==> (forall|j: int| 0 <= j < found.len() ==> (#[trigger] found[j]) is Some)
    &&& r matches Ok(inv) ==> inv.tool_name@ == tool.name@ && inv.arguments@.len() == found.len()
        && forall|j: int| 0 <= j < found.len() ==> found[j] == Some((#[trigger] inv.arguments@[j])@)
    &&& r matches Err(e) ==> exists|k: int| is_first_missing(found, k)
        && e == ToolError::InvalidArguments(tool.parameters@[k].name)
}

} // verus!
