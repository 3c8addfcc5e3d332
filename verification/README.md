# codex_onlysq

The verified core of a terminal chat client that talks to OnlySQ and other
OpenAI-compatible chat-completions providers.

- `src/` is the library, verified with Verus:
  - `slash_command`: the composer's slash commands, their names, aliases,
    descriptions and availability, and the built-in command list;
  - `warnings`: which warnings the chat widget shows;
  - `model_catalog`: the `/model` picker's presets built from the catalog;
  - `chat_messages`, `chat_tools`, `chat_request`: the request body;
  - `sse`, `chat_stream`, `fallback`: reading the event stream of a turn and
    the events it reports, and recovering tool-call arguments from a
    non-streaming reply; `turn_reader` reads one turn from the bytes of its
    event stream to its events, deciding what a read, a read error, the end
    of the stream and a departed consumer lead to; `stream_laws` and
    `turn_reader` state what holds of every turn;
  - `json_value`: a parsed JSON document as the library reads it;
  - `debug_log`: where the debug log goes;
  - `text`, `string_set`, `index_order`: the string operations, the set of
    strings, and the key order of index maps the rest relies on.
- `app/` is the I/O around it: HTTP requests, the event channel, the JSON wire
  format, the build target, and the debug log.
- `tests/` exercises the library on concrete values.
