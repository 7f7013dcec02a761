//! Configuration for a tool-call front end, as plain values.

use vstd::prelude::*;

verus! {

/// Transport the tool server speaks over.
#[derive(Debug, Clone, Copy, PartialEq, Eq, Structural)]
pub enum McpTransport {
    Stdio,
    Sse,
}

/// Tool server configuration.
#[derive(Debug, Clone, Copy, PartialEq, Eq, Structural)]
pub struct McpConfig {
    pub transport: McpTransport,
    pub enable_telemetry_tool: bool,
    pub enable_strategy_tool: bool,
    pub enable_simulation_tool: bool,
    pub enable_historical_tool: bool,
}

impl Default for McpConfig {
    /// Standard-input transport with every tool enabled.
    fn default() -> (r: McpConfig)
        ensures
            r == (McpConfig {
                transport: McpTransport::Stdio,
                enable_telemetry_tool: true,
                enable_strategy_tool: true,
                enable_simulation_tool: true,
                enable_historical_tool: true,
            }),
    {
        McpConfig {
            transport: McpTransport::Stdio,
            enable_telemetry_tool: true,
            enable_strategy_tool: true,
            enable_simulation_tool: true,
            enable_historical_tool: true,
        }
    }
}

} // verus!
