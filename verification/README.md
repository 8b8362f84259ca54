# llm_tui

A local-first terminal chat client for OpenAI-compatible LLM endpoints.

The library under `src/` is written in Verus and verified: its public
functions carry contracts (save a random draw of an identifier and the clock,
and a constructor of a unit value), and the laws of the library are proof
functions next to the code they speak of.

Times are kept as `chrono` keeps a UTC time: seconds since the Unix epoch and
the nanoseconds within the second.

Some user events name screens this client does not have (a command palette,
a prompt picker, a search screen, branch history, generation settings,
rename and delete dialogs); they are accepted and change nothing.

- `context` — token estimates and the choice of messages that fit a context window.
- `app` — the chat state machine (events in, effects out), whose requests
  hold the context that `context` builds from the conversation's system
  prompt, its messages, the model's window and the configured budget, and
  the relay that turns a provider's stream into events.
- `llm` — provider-neutral types, the fake provider's stream, the
  OpenAI-compatible request body and the server-sent-event decoder.
- `markdown`, `tui` — what the terminal shows: Markdown layout, transcript,
  status and help lines, key bindings.
- `tools` — built-in tools (arguments, results, directory listings) and the tool registry.
- `persistence`, `records` — how rows are stored and read back, and the
  full-text and title queries.
- `config`, `error`, `image`, `domain`, `text`, `platform` — configuration,
  errors, image attachments, the domain types and small helpers.

`app/` is the program around it: the terminal, the HTTP client, SQLite,
processes and files, and the configuration file. It performs what the
library decides.
