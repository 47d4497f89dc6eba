//! The MCP server over stdio: how requests are routed and answered on error.
use vstd::prelude::*;
use crate::text::{str_eq, string_from, push_str};

verus! {

/// What a JSON-RPC request asks for.
#[derive(Clone, Copy, PartialEq, Eq, Structural, Debug)]
pub enum McpMethod {
    Initialize,
    ToolsList,
    ToolsCall,
    NotFound,
}

/// The method a request names.
pub open spec fn mcp_method_spec(m: Seq<char>) -> McpMethod {
    if m == "initialize"@ {
        McpMethod::Initialize
    } else if m == "tools/list"@ {
        McpMethod::ToolsList
    } else if m == "tools/call"@ {
        McpMethod::ToolsCall
    } else {
        McpMethod::NotFound
    }
}

/// Route a request by its method.
pub fn mcp_method(method: &str) -> (r: McpMethod)
    ensures
        r == mcp_method_spec(method@),
{
    if str_eq(method, "initialize") {
        McpMethod::Initialize
    } else if str_eq(method, "tools/list") {
        McpMethod::ToolsList
    } else if str_eq(method, "tools/call") {
        McpMethod::ToolsCall
    } else {
        McpMethod::NotFound
    }
}

/// A tool the server offers.
#[derive(Clone, Copy, PartialEq, Eq, Structural, Debug)]
pub enum McpTool {
    Plan,
    Doctor,
    Config,
    Sbom,
}

/// The tool a call names, if it is one of the server's.
pub open spec fn mcp_tool_spec(name: Seq<char>) -> Option<McpTool> {
    if name == "plan"@ {
        Some(McpTool::Plan)
    } else if name == "doctor"@ {
        Some(McpTool::Doctor)
    } else if name == "config"@ {
        Some(McpTool::Config)
    } else if name == "sbom"@ {
        Some(McpTool::Sbom)
    } else {
        None
    }
}

/// Resolve a tool call: the tool, or the error `unknown tool: <name>`.
pub fn mcp_tool(name: &str) -> (r: Result<McpTool, String>)
    ensures
        match r {
            Ok(t) => mcp_tool_spec(name@) == Some(t),
            Err(e) => mcp_tool_spec(name@) is None && e@ == "unknown tool: "@ + name@,
        },
{
    if str_eq(name, "plan") {
        Ok(McpTool::Plan)
    } else if str_eq(name, "doctor") {
        Ok(McpTool::Doctor)
    } else if str_eq(name, "config") {
        Ok(McpTool::Config)
    } else if str_eq(name, "sbom") {
        Ok(McpTool::Sbom)
    } else {
        let mut e = string_from("unknown tool: ");
        push_str(&mut e, name);
        Err(e)
    }
}

/// The JSON-RPC error of an unknown method: code -32601, `method not found: <m>`.
pub fn method_not_found(method: &str) -> (r: (i32, String))
    ensures
        r.0 == -32601,
        r.1@ == "method not found: "@ + method@,
{
    let mut m = string_from("method not found: ");
    push_str(&mut m, method);
    (-32601, m)
}

/// The JSON-RPC error code of a failed tool call.
pub fn tool_error_code() -> (r: i32)
    ensures
        r == -32000,
{
    -32000
}

} // verus!
