# rob

A command-line agent for Linux that talks to OpenAI-compatible chat-completion
providers and lets the model call local tools (file inspection, text search,
an allowlisted shell, and mock smart-home and digital-life backends).

## Layout

- `src/` is the library, written in Verus and verified: provider
  configuration (`config`), chat messages and the streamed-reply parser
  (`llm`), context-window compaction (`context`), the built-in agents
  (`agents`), the agent session, its turn-by-turn steps and the chat
  commands (`agent`), the table of built-in tools with their parameter
  schemas (`tool_table`), tool declarations, argument checks and payloads
  (`tools`, `json`), saved sessions (`state`), the terminal interface state
  (`tui`), and text helpers (`text`).
- `app/` is the program around it: the command line, HTTP streaming, running
  tools against the file system and child processes, reading and writing the
  configuration and session files, and drawing the terminal interface. It
  runs each turn by feeding the session's step function what happened and
  doing what it answers.
- `tests/` exercises the library.
