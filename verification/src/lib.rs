//! Core logic of the ROB agent command-line tool: provider configuration,
//! conversation messages, context-window management, agent definitions,
//! tool-call handling and session records.
pub mod agent;
pub mod agents;
pub mod config;
pub mod context;
pub mod json;
pub mod llm;
pub mod state;
pub mod text;
pub mod tool_table;
pub mod tools;
pub mod tui;
