//! The decision core of OpenLess, a push-to-talk dictation tool.
//!
//! Every rule that decides what the program does next lives here: session
//! state machines, provider routing, text post-processing, endpoint policy.
//! The host performs the effects that these functions ask for (recording,
//! network, windows, clipboard) and hands the outcomes back.

pub mod agent;
pub mod agent_hotkey;
pub mod agent_process;
pub mod begin;
pub mod credentials;
pub mod edges;
pub mod effects;
pub mod end;
pub mod endpoint;
pub mod fcitx;
pub mod history;
pub mod insertion;
pub mod linux_asr;
pub mod linux_fcitx;
pub mod linux_host;
pub mod llm;
pub mod local_asr;
pub mod local_asr_requests;
pub mod local_qwen;
pub mod native_asr;
pub mod paths;
pub mod platform;
pub mod polish;
pub mod providers;
pub mod qa;
pub mod selection;
pub mod selection_voice;
pub mod selection_voice_run;
pub mod session;
pub mod sherpa;
pub mod streaming;
pub mod text;
pub mod translate;
pub mod types;
pub mod ui;
pub mod voice_transcript;
pub mod windows_ime;
pub mod wiring;
