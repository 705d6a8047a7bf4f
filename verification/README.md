# dictatr_core

Push-to-talk dictation for the desktop: a hotkey starts recording, releasing
it (or pressing it again, in toggle mode) stops; the audio is transcribed by a
remote Whisper server, a local whisper.cpp model or an audio-capable LLM,
optionally corrected by an LLM, and pasted into the focused application.

## Layout

- `src/` — the library, verified with Verus: the pipeline state machine and
  the decisions of the event loop, hotkey routing and the low-level key hook,
  the audio ring buffer, transcript clean-up (repetition collapsing), prompt
  and request construction, WAV packing, configuration defaults, validation
  and URL normalisation, vocabulary parsing, model table and download checks.
  Calls into `uuid`, `hound` and `base64`, and std's `String::push`, stand
  behind small trusted wrappers whose contracts are stated in their doc
  comments.
- `tests/` — tests of the library on concrete values.
- `app/` — the Tauri program around it: windows, tray, audio capture, network
  clients, keyring, SQLite history, text injection and the async event loop
  that carries out what the library decides.
