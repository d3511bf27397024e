# agent_core

The decision logic of a terminal's AI agent, written in Verus: every function in `src/`
carries a contract that Verus proves, and the laws that tie several functions together stand
as public proof functions (`lemma_*`).

## Layout

- `src/` — the verified library.
  - `shell_command`, `shell_execution`, `shell_split`: how an agent's shell command is
    prepared, whether it runs without asking, how long its output is waited for, and what
    result each kind of shell action reports.
  - `run_agents`, `run_agents_card`, `start_agent`, `orchestration`,
    `orchestration_pickers`: launching child agents — validation, duplicate detection, the
    confirmation card and its pickers.
  - `llms`, `llm_catalog`, `custom_endpoints`, `llm_preferences`, `execution_profiles`:
    the model catalogue, which model each feature and terminal view uses, profiles and how
    they are reconciled with the catalogue.
  - `response_stream`, `wait_for_events`, `compaction`: the response stream's retry state
    machine, waiting for agent events, and conversation compaction.
  - `mcp_auth`, `history_match`, `codebase_auto_indexing`, `collapsible`, `tool_card`,
    `conversation_details`, `usage_display`, `read_skill`, `text`: smaller pieces of logic
    and the text helpers they share.
- `tests/` — tests run against the compiled library.
- `app/` — ordinary Rust around the library: the JSON forms of the model catalogue and the
  floating-point usage figures.

## Trusted items

The library calls outside code through a few functions whose contracts Verus assumes:
`shell_split::split_words` (`shell_words::split`), `response_stream::new_uuid_string`
(`uuid::Uuid::new_v4`), `response_stream::share_rc` (`Rc::clone`),
`read_skill::path_is_absolute` (`std::path::Path::is_absolute`), `read_skill::debug_str`
(the `Debug` impl of `str`), `text::string_push` (`String::push`) and
`llm_preferences::json_string` (`serde_json::to_string`). Each one's doc comment says what its contract claims.
