# smallbird_local

The decisions of a desktop voice assistant that talks to the user's own model
provider: what is heard and withheld, how a turn of the conversation goes, what
the models are asked and how their answers are read, which tools they may call,
what is spoken, and which notes, meetings and passages are shown.

`src/` is a library in Verus. Every function states what it returns or changes,
and Verus proves it; the public proof functions state what holds of several
functions together. What comes from outside (JSON, base64, lower case, HTTP
reasons, UTF-8) stands behind a few trusted functions, each with a comment that
says what is claimed of it.

| Module | What it decides |
| --- | --- |
| `agent` | the tools, the calls that a model makes of them, and the loop that runs them |
| `providers`, `provider`, `client` | requests to OpenAI, Anthropic and Gemini, their answers and streams, interview analysis |
| `prompts` | what the models are told |
| `veronica` | a turn of the conversation, from what was said to how it ends |
| `voice_command`, `stt`, `transcript` | listening |
| `tts` | speaking |
| `rag` | passages of the user's documents |
| `notes_mode`, `meeting_mode` | notes and meetings |
| `overlay_window` | windows |
| `state`, `working_state` | what a session remembers |
| `text`, `json`, `json_members`, `ids`, `newest_first`, `float_order`, `http_status`, `backend`, `actions`, `audio` | shared values |

`app/` is ordinary Rust around the library: the network, processes, files,
audio and windows. The desktop shell implements its `Host` trait. It also hands
in the names of Anthropic's models.

`tests/` runs the library on concrete values.
