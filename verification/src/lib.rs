//! A counter applet and the tool adapter that offers its operations by name.

pub mod counter;
pub mod decimal;
pub mod json;
pub mod server;

pub use counter::{CounterApplet, CounterState};
pub use server::{
    ArgumentValue, CounterMCPServer, CounterTool, ToolCall, ToolParameter, ToolResponse,
};
