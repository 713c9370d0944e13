//! Resource binding hints shared across Greentic tooling.
//! This module codifies the canonical host binding invariants (network allowlists, secrets,
//! environment passthrough, and MCP server stubs) so packs, hints generators, and runtime hosts
//! agree on the same schema.
pub mod hints;
