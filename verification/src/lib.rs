//! Agent-side decision logic: conversation compaction, shell command
//! classification, child-agent launch requests, permission settings and
//! model metadata.
pub mod codebase_auto_indexing;
pub mod collapsible;
pub mod compaction;
pub mod custom_endpoints;
pub mod conversation_details;
pub mod execution_profiles;
pub mod history_match;
pub mod llm_catalog;
pub mod llm_preferences;
pub mod llms;
pub mod mcp_auth;
pub mod orchestration;
pub mod orchestration_pickers;
pub mod read_skill;
pub mod response_stream;
pub mod run_agents;
pub mod run_agents_card;
pub mod shell_command;
pub mod shell_execution;
pub mod shell_split;
pub mod start_agent;
pub mod text;
pub mod tool_card;
pub mod usage_display;
pub mod wait_for_events;
