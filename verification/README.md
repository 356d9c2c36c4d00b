# OpenLess

The logic of OpenLess, a dictation program: speech is recorded, recognised,
polished or translated by a language model, and typed at the cursor. Selected
text can be changed or asked about by voice, and a coding agent can be put to
work.

`src/` is a library that Verus verifies. Work that waits for something outside
(a recogniser, a model, the input method, a process) is written as steps: a step
takes the state and what was found, and says what is to be done next. A contract
covers every finding that a step can be handed. The order in which a host takes
the steps is the host's part.

| area | modules |
| --- | --- |
| a dictation session | `session`, `begin`, `end`, `effects`, `edges` |
| text | `text`, `polish`, `translate`, `llm`, `streaming` |
| recognisers | `native_asr`, `local_asr`, `local_asr_requests`, `local_qwen`, `linux_asr`, `sherpa`, `voice_transcript` |
| the cursor | `insertion`, `windows_ime`, `fcitx`, `linux_fcitx`, `selection` |
| voice on selected text | `selection_voice`, `selection_voice_run` |
| questions | `qa` |
| coding agents | `agent`, `agent_process`, `agent_hotkey` |
| settings and files | `credentials`, `providers`, `endpoint`, `history`, `paths` |
| hosts | `platform`, `wiring`, `linux_host`, `ui` |

Public proof functions named `law_..` state what holds of several functions
together.

`app/` is a command line for Linux around the library, and `tests/` runs the
library on concrete values.
