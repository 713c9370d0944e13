//! Shared binding hints emitted by pack generators and consumed by the runner host.
use vstd::prelude::*;

verus! {

#[derive(Debug, Clone, Default, PartialEq, Eq)]
/// Hints that describe the binding requirements a pack emits for the runner.
pub struct BindingsHints {
    /// Explicit network endpoints that the pack plans to call. Default is deny-all.
    pub network: NetworkHints,
    /// Secrets referenced by the pack. Only listed secrets are allowed; others are denied.
    pub secrets: SecretsHints,
    /// Environment variables the pack needs surfaced. Each listed key is forwarded through
    /// the runner; unspecified keys are not available to the host.
    pub env: EnvHints,
    /// MCP servers (name + endpoint) referenced by the flows. These entries let the runner
    /// prepare tool bindings before execution.
    pub mcp: McpHints,
}

#[derive(Debug, Clone, Default, PartialEq, Eq)]
/// Network-specific allowlists declared by a pack.
pub struct NetworkHints {
    /// Allowlisted host:port entries required by the flows.
    pub allow: Vec<String>,
}

#[derive(Debug, Clone, Default, PartialEq, Eq)]
/// Secrets referenced by the pack that the runner must provide.
pub struct SecretsHints {
    /// Secrets that flows declare as required. The host must supply these keys.
    pub required: Vec<String>,
}

#[derive(Debug, Clone, Default, PartialEq, Eq)]
/// Environment variables that need to be forwarded to the pack.
pub struct EnvHints {
    /// Environment variables the pack expects the host to forward.
    pub passthrough: Vec<String>,
}

#[derive(Debug, Clone, Default, PartialEq, Eq)]
/// Metadata for MCP servers that will be bound into the runtime toolkit.
pub struct McpHints {
    /// Stubbed MCP tool servers referenced by the flows.
    pub servers: Vec<McpServer>,
}

#[derive(Debug, Clone, PartialEq, Eq)]
/// Descriptor for a single MCP server the host must expose.
pub struct McpServer {
    /// Logical name referenced by flows.
    pub name: String,
    /// Transport mechanism (e.g. `http`, `grpc`, etc.).
    pub transport: String,
    /// Endpoint exposed by the host for this MCP server.
    pub endpoint: String,
    /// Optional capability tags; useful when the runner enforces tool-specific policies.
    pub caps: Vec<String>,
}

} // verus!
