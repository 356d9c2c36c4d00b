//! When a language model is asked, which one, and what its reply becomes.

use crate::polish::{eligible_polish_context_turns, turn_views, turns_of};
use crate::providers::{enabled_of, enabled_phrases, texts, VocabularyEntry};
use crate::qa::QaMessage;
use crate::text::{str_eq, trim, trimmed};
use crate::translate::{
    answer_of, build_polish_translate_system_prompt, polish_translate_prompt,
    split_polish_translate_output,
};
use crate::types::{opt_text, ChineseScriptPreference, DictationSession, PolishMode};
use vstd::prelude::*;

verus! {

/// The client that speaks to the active model.
#[derive(Clone, Copy, PartialEq, Eq, Structural, Debug)]
pub enum LlmClient {
    /// Google's own protocol.
    Gemini,
    /// Whatever `build_active_llm_provider` sets up.
    Configured,
}

/// The client for the active provider.
pub fn llm_client(active_llm: &str) -> (r: LlmClient)
    ensures
        r == (if active_llm@ == "gemini"@ {
            LlmClient::Gemini
        } else {
            LlmClient::Configured
        }),
{
    if str_eq(active_llm, "gemini") {
        LlmClient::Gemini
    } else {
        LlmClient::Configured
    }
}

/// A raw style with its built-in prompt asks no model.
pub open spec fn model_needed(mode: PolishMode, prompt: Seq<char>, builtin_raw: Seq<char>) -> bool {
    mode != PolishMode::Raw || prompt != builtin_raw
}

pub fn polish_needs_model(mode: PolishMode, style_prompt: &str, builtin_raw_prompt: &str) -> (r: bool)
    ensures
        r == model_needed(mode, style_prompt@, builtin_raw_prompt@),
{
    mode != PolishMode::Raw || !str_eq(style_prompt, builtin_raw_prompt)
}

/// A text and, where the model failed, the reason why it is only the
/// transcript.
#[derive(Debug)]
pub struct Polished {
    pub text: String,
    pub error: Option<String>,
}

/// The polished text, or the transcript where no model was needed or the
/// model failed. What the user said is never lost.
pub fn polish_or_passthrough(raw: String, needs_model: bool, reply: Result<String, String>) -> (r:
    Polished)
    ensures
        !needs_model ==> r.text == raw && r.error is None,
        needs_model ==> match reply {
            Ok(t) => r.text == t && r.error is None,
            Err(e) => r.text == raw && r.error == Some(e),
        },
{
    if !needs_model {
        return Polished { text: raw, error: None };
    }
    match reply {
        Ok(t) => Polished { text: t, error: None },
        Err(e) => Polished { text: raw, error: Some(e) },
    }
}

/// What came of polishing in a stream.
#[derive(Debug)]
pub enum StreamingPolishOutcome {
    /// The whole text, which has been handed over piece by piece.
    Streamed(String),
    /// This set-up cannot stream: polish in one request.
    UnsupportedFallback,
    Failed(String),
}

/// Whether a stream can be opened.
#[derive(Debug)]
pub enum StreamingPlan {
    Unsupported,
    Failed(String),
    Open,
}

/// Whether a stream can be opened. `provider` says whether the configured
/// client can stream, or why there is no client.
pub fn plan_streaming_polish(
    needs_model: bool,
    client: LlmClient,
    provider: Result<bool, String>,
) -> (r: StreamingPlan)
    ensures
        r == (if !needs_model || client == LlmClient::Gemini {
            StreamingPlan::Unsupported
        } else {
            match provider {
                Err(e) => StreamingPlan::Failed(e),
                Ok(true) => StreamingPlan::Open,
                Ok(false) => StreamingPlan::Unsupported,
            }
        }),
{
    if !needs_model || client == LlmClient::Gemini {
        return StreamingPlan::Unsupported;
    }
    match provider {
        Err(e) => StreamingPlan::Failed(e),
        Ok(supported) => if supported {
            StreamingPlan::Open
        } else {
            StreamingPlan::Unsupported
        },
    }
}

/// The outcome of a plan. `reply` is what an opened stream ended with.
pub fn polish_or_passthrough_streaming(plan: StreamingPlan, reply: Result<String, String>) -> (r:
    StreamingPolishOutcome)
    ensures
        r == (match plan {
            StreamingPlan::Unsupported => StreamingPolishOutcome::UnsupportedFallback,
            StreamingPlan::Failed(e) => StreamingPolishOutcome::Failed(e),
            StreamingPlan::Open => match reply {
                Ok(t) => StreamingPolishOutcome::Streamed(t),
                Err(e) => StreamingPolishOutcome::Failed(e),
            },
        }),
{
    match plan {
        StreamingPlan::Unsupported => StreamingPolishOutcome::UnsupportedFallback,
        StreamingPlan::Failed(e) => StreamingPolishOutcome::Failed(e),
        StreamingPlan::Open => match reply {
            Ok(t) => StreamingPolishOutcome::Streamed(t),
            Err(e) => StreamingPolishOutcome::Failed(e),
        },
    }
}

/// A translated session: the text to insert, the polished source for later
/// turns, and the reason why the text is only the transcript.
#[derive(Debug)]
pub struct Translated {
    pub text: String,
    pub source: Option<String>,
    pub error: Option<String>,
}

/// What follows the reply to the combined request.
#[derive(Debug)]
pub enum TranslateStep {
    Finished(Translated),
    /// The reply is not in the two-section form: ask for a plain translation.
    PlainTranslate,
}

/// The combined request was answered. A reply without a usable translation is
/// never inserted as it is.
pub fn combined_reply(raw: &str, reply: Result<String, String>) -> (r: TranslateStep)
    ensures
        match reply {
            Err(e) => match r {
                TranslateStep::Finished(t) => t.text@ == raw@ && t.source is None && t.error
                    == Some(e),
                TranslateStep::PlainTranslate => false,
            },
            Ok(out) => match (r, answer_of(out@)) {
                (TranslateStep::Finished(t), Some((source, translation))) => t.text@ == translation
                    && opt_text(t.source) == source && t.error is None,
                (TranslateStep::PlainTranslate, None) => true,
                _ => false,
            },
        },
{
    match reply {
        Err(e) => TranslateStep::Finished(
            Translated { text: raw.to_owned(), source: None, error: Some(e) },
        ),
        Ok(out) => match split_polish_translate_output(out.as_str()) {
            Some((source, text)) => TranslateStep::Finished(
                Translated { text, source, error: None },
            ),
            None => TranslateStep::PlainTranslate,
        },
    }
}

/// The plain translation was answered. It comes without a polished source.
pub fn plain_reply(raw: &str, reply: Result<String, String>) -> (r: Translated)
    ensures
        r.source is None,
        match reply {
            Ok(t) => r.text == t && r.error is None,
            Err(e) => r.text@ == raw@ && r.error == Some(e),
        },
{
    match reply {
        Ok(t) => Translated { text: t, source: None, error: None },
        Err(e) => Translated { text: raw.to_owned(), source: None, error: Some(e) },
    }
}

/// Both steps of a translation. `plain` is asked for only where the combined
/// reply holds no translation.
pub fn polish_and_translate_or_passthrough(
    raw: &str,
    combined: Result<String, String>,
    plain: Result<String, String>,
) -> (r: Translated)
    ensures
        match combined {
            Err(e) => r.text@ == raw@ && r.source is None && r.error == Some(e),
            Ok(out) => match answer_of(out@) {
                Some((source, translation)) => r.text@ == translation && opt_text(r.source)
                    == source && r.error is None,
                None => r.source is None && match plain {
                    Ok(t) => r.text == t && r.error is None,
                    Err(e) => r.text@ == raw@ && r.error == Some(e),
                },
            },
        },
{
    match combined_reply(raw, combined) {
        TranslateStep::Finished(t) => t,
        TranslateStep::PlainTranslate => plain_reply(raw, plain),
    }
}

/// How the text of a session is made.
#[derive(Clone, Copy, PartialEq, Eq, Structural, Debug)]
pub enum PolishRoute {
    Translate,
    Stream,
    OneShot,
}

/// The settings that decide how the text of a session is made.
#[derive(Debug)]
pub struct PolishSettings {
    pub mode: PolishMode,
    pub raw_uses_llm: bool,
    pub streaming_insert: bool,
    /// The translation modifier was pressed during the session.
    pub translation_modifier_seen: bool,
    pub translation_target: String,
    pub context_window_minutes: u32,
}

/// How the text of a session is made.
#[derive(Debug)]
pub struct PolishPlan {
    pub translation_active: bool,
    pub translation_target: String,
    /// Earlier turns are looked up for the model.
    pub wants_history: bool,
    pub route: PolishRoute,
}

/// The session is translated: it was asked for, and there is a language.
pub open spec fn translates(s: PolishSettings) -> bool {
    s.translation_modifier_seen && trimmed(s.translation_target@).len() > 0
}

/// Decides how the text of a session is made: translation goes before
/// streaming, streaming before a single request. Earlier turns matter only to
/// a model, and only with a window for them.
pub fn plan_polish(s: &PolishSettings) -> (r: PolishPlan)
    ensures
        r.translation_active == translates(*s),
        r.translation_target@ == trimmed(s.translation_target@),
        r.wants_history == ((translates(*s) || s.mode != PolishMode::Raw || s.raw_uses_llm)
            && s.context_window_minutes > 0),
        r.route == (if translates(*s) {
            PolishRoute::Translate
        } else if s.streaming_insert && (s.mode != PolishMode::Raw || s.raw_uses_llm) {
            PolishRoute::Stream
        } else {
            PolishRoute::OneShot
        }),
{
    let target: String = trim(s.translation_target.as_str());
    let translation_active: bool = s.translation_modifier_seen && !target.as_str().is_empty();
    let wants_history: bool = (translation_active || s.mode != PolishMode::Raw || s.raw_uses_llm)
        && s.context_window_minutes > 0;
    let route: PolishRoute = if translation_active {
        PolishRoute::Translate
    } else if crate::polish::streaming_insert_eligible(
        s.streaming_insert,
        translation_active,
        s.mode,
        s.raw_uses_llm,
    ) {
        PolishRoute::Stream
    } else {
        PolishRoute::OneShot
    };
    PolishPlan { translation_active, translation_target: target, wants_history, route }
}

/// The earlier turns that go along with a request: those of the sessions that
/// were found, where the plan looks for any. A history that cannot be read
/// gives none.
pub fn prior_turns(
    plan: &PolishPlan,
    found: Result<Vec<DictationSession>, String>,
    style_pack_id: &str,
) -> (r: Vec<(String, String)>)
    ensures
        turn_views(r@) == (match found {
            Ok(sessions) => if plan.wants_history {
                turns_of(sessions@, style_pack_id@, plan.translation_active)
            } else {
                Seq::empty()
            },
            Err(_) => Seq::empty(),
        }),
{
    let nothing: Vec<(String, String)> = Vec::new();
    proof {
        assert(turn_views(nothing@) =~= Seq::<(Seq<char>, Seq<char>)>::empty());
    }
    match found {
        Ok(sessions) => if plan.wants_history {
            eligible_polish_context_turns(&sessions, style_pack_id, plan.translation_active)
        } else {
            nothing
        },
        Err(_) => nothing,
    }
}

/// What a model is told besides the text and the prompt.
#[derive(Debug)]
pub struct ModelContext {
    pub mode: PolishMode,
    pub working_languages: Vec<String>,
    pub script: ChineseScriptPreference,
    /// The language of the answer, by the host's number for it.
    pub output_language: u64,
    pub thinking: bool,
    pub front_app: Option<String>,
    pub prior_turns: Vec<(String, String)>,
}

/// What a model is asked for, in one go or in a stream.
#[derive(Debug)]
pub struct PolishRequest {
    pub text: String,
    pub system_prompt: String,
    pub hotwords: Vec<String>,
    pub context: ModelContext,
}

/// The request that a plan leads to. The transcript goes to the model as it
/// is, with the phrases of the vocabulary that count. A translation is asked
/// for with the prompt for both sections, anything else with the prompt of the
/// style; `translate_base` is the plain translation prompt.
pub fn polish_request(
    plan: &PolishPlan,
    text: String,
    style_prompt: &str,
    translate_base: &str,
    vocabulary: &Vec<VocabularyEntry>,
    context: ModelContext,
) -> (r: PolishRequest)
    ensures
        r.text == text,
        r.context == context,
        texts(r.hotwords@) == enabled_of(vocabulary@),
        r.system_prompt@ == (if plan.route == PolishRoute::Translate {
            polish_translate_prompt(translate_base@, plan.translation_target@)
        } else {
            style_prompt@
        }),
{
    let system_prompt: String = match plan.route {
        PolishRoute::Translate => build_polish_translate_system_prompt(
            translate_base,
            plan.translation_target.as_str(),
        ),
        PolishRoute::Stream | PolishRoute::OneShot => style_prompt.to_owned(),
    };
    PolishRequest { text, system_prompt, hotwords: enabled_phrases(vocabulary), context }
}

/// A plain translation, without earlier turns and without a style.
#[derive(Debug)]
pub struct TranslateRequest {
    pub text: String,
    pub target_language: String,
    pub working_languages: Vec<String>,
    pub script: ChineseScriptPreference,
    pub output_language: u64,
    pub thinking: bool,
    pub front_app: Option<String>,
}

/// The plain translation that stands in for a combined answer that holds none:
/// of the same text, into the same language.
pub fn translate_request(plan: &PolishPlan, asked: PolishRequest) -> (r: TranslateRequest)
    ensures
        r.text == asked.text,
        r.target_language@ == plan.translation_target@,
        r.working_languages == asked.context.working_languages,
        r.script == asked.context.script,
        r.output_language == asked.context.output_language,
        r.thinking == asked.context.thinking,
        r.front_app == asked.context.front_app,
{
    TranslateRequest {
        text: asked.text,
        target_language: plan.translation_target.clone(),
        working_languages: asked.context.working_languages,
        script: asked.context.script,
        output_language: asked.context.output_language,
        thinking: asked.context.thinking,
        front_app: asked.context.front_app,
    }
}

/// A conversation that a model answers, piece by piece.
#[derive(Debug)]
pub struct ChatCall {
    pub client: LlmClient,
    pub messages: Vec<QaMessage>,
    pub working_languages: Vec<String>,
    pub script: ChineseScriptPreference,
    /// The language of the answer, by the host's number for it.
    pub output_language: u64,
    pub thinking: bool,
    pub front_app: Option<String>,
}

/// How the active model is asked to answer a conversation.
pub fn answer_chat_dispatch(
    active_llm: &str,
    messages: Vec<QaMessage>,
    working_languages: Vec<String>,
    script: ChineseScriptPreference,
    output_language: u64,
    thinking: bool,
    front_app: Option<String>,
) -> (r: ChatCall)
    ensures
        r == (ChatCall {
            client: if active_llm@ == "gemini"@ {
                LlmClient::Gemini
            } else {
                LlmClient::Configured
            },
            messages,
            working_languages,
            script,
            output_language,
            thinking,
            front_app,
        }),
{
    ChatCall {
        client: llm_client(active_llm),
        messages,
        working_languages,
        script,
        output_language,
        thinking,
        front_app,
    }
}

/// Gemini is spoken to in its own protocol and everybody else as configured.
pub proof fn law_gemini_has_its_own_client(active: &str, r: LlmClient, messages: Vec<QaMessage>, languages: Vec<String>, script: ChineseScriptPreference, output_language: u64, thinking: bool, app: Option<String>, call: ChatCall)
    requires
        call_ensures(llm_client, (active,), r),
        call_ensures(
            answer_chat_dispatch,
            (active, messages, languages, script, output_language, thinking, app),
            call,
        ),
    ensures
        r == LlmClient::Gemini <==> active@ == "gemini"@,
        r == LlmClient::Configured <==> active@ != "gemini"@,
        call.client == r,
        call.messages == messages,
        call.working_languages == languages,
        call.script == script,
        call.output_language == output_language,
        call.thinking == thinking,
        call.front_app == app,
{
}

/// Only a raw style whose prompt was not changed does without a model.
pub proof fn law_only_plain_raw_needs_no_model(mode: PolishMode, prompt: &str, builtin: &str, r: bool)
    requires
        call_ensures(polish_needs_model, (mode, prompt, builtin), r),
    ensures
        !r ==> mode == PolishMode::Raw && prompt@ == builtin@,
        mode == PolishMode::Light || mode == PolishMode::Structured ==> r,
        mode == PolishMode::Raw ==> (r <==> prompt@ != builtin@),
{
}

/// What the user said is never lost: the text is what the model answered, and
/// where none was needed or it failed it is the transcript. There is an error
/// exactly where the model failed.
pub proof fn law_transcript_is_never_lost(
    raw: String,
    needs: bool,
    reply: Result<String, String>,
    r: Polished,
)
    requires
        call_ensures(polish_or_passthrough, (raw, needs, reply), r),
    ensures
        r.error is Some <==> needs && reply is Err,
        r.error matches Some(e) ==> reply == Err::<String, String>(e),
        needs && reply is Ok ==> r.text == reply->Ok_0,
        !(needs && reply is Ok) ==> r.text == raw,
{
}

/// A stream is opened exactly where a model is needed and the configured one can
/// stream; what it ends with is the outcome. A set-up without a client fails, and
/// any other is asked in one request.
pub proof fn law_stream_needs_a_client_that_streams(
    needs: bool,
    client: LlmClient,
    provider: Result<bool, String>,
    reply: Result<String, String>,
    plan: StreamingPlan,
    r: StreamingPolishOutcome,
)
    requires
        call_ensures(plan_streaming_polish, (needs, client, provider), plan),
        call_ensures(polish_or_passthrough_streaming, (plan, reply), r),
    ensures
        plan is Open <==> needs && client == LlmClient::Configured && (provider matches Ok(b) && b),
        plan is Failed <==> needs && client == LlmClient::Configured && provider is Err,
        r is Streamed <==> plan is Open && reply is Ok,
        r is Streamed ==> r->Streamed_0 == reply->Ok_0,
        r is UnsupportedFallback <==> plan is Unsupported,
        r is Failed && plan is Open ==> r->Failed_0 == reply->Err_0,
        r is Failed && plan is Failed ==> r->Failed_0 == provider->Err_0,
{
}

/// A translation that succeeded is what is inserted, without an error; one that
/// failed gives the transcript with the reason. The plain translation counts only
/// where the combined reply holds none, and never brings a source.
pub proof fn law_translation_or_transcript(
    raw: &str,
    combined: Result<String, String>,
    plain: Result<String, String>,
    step: TranslateStep,
    alone: Translated,
    r: Translated,
)
    requires
        call_ensures(combined_reply, (raw, combined), step),
        call_ensures(plain_reply, (raw, plain), alone),
        call_ensures(polish_and_translate_or_passthrough, (raw, combined, plain), r),
    ensures
        combined is Err ==> r.text@ == raw@ && r.error == Some(combined->Err_0) && r.source is None
            && step is Finished,
        step is PlainTranslate <==> combined is Ok && answer_of(combined->Ok_0@) is None,
        step is PlainTranslate ==> r.text@ == alone.text@ && r.error == alone.error
            && r.source is None,
        step matches TranslateStep::Finished(t) ==> r.text@ == t.text@ && r.error == t.error
            && opt_text(r.source) == opt_text(t.source),
        combined is Ok && step is Finished ==> r.error is None,
        plain matches Ok(t) ==> alone.text == t && alone.error is None,
        plain matches Err(e) ==> alone.text@ == raw@ && alone.error == Some(e),
        alone.source is None,
        r.error is Some ==> r.text@ == raw@,
{
}

/// A session is translated exactly if the modifier was seen and a language is
/// named; it is typed along only if it is not translated, the user wants it and a
/// model writes it. Earlier turns are looked up only for a model and only within a
/// window.
pub proof fn law_plan_follows_the_settings(s: &PolishSettings, target: &str, cut: String, r: PolishPlan)
    requires
        target@ == s.translation_target@,
        call_ensures(trim, (target,), cut),
        call_ensures(plan_polish, (s,), r),
    ensures
        r.translation_target@ == cut@,
        r.translation_active <==> s.translation_modifier_seen && cut@.len() > 0,
        r.route == PolishRoute::Translate <==> r.translation_active,
        r.route == PolishRoute::Stream ==> s.streaming_insert,
        r.route == PolishRoute::Stream && s.mode == PolishMode::Raw ==> s.raw_uses_llm,
        !r.translation_active && s.streaming_insert && (s.mode == PolishMode::Light || s.mode
            == PolishMode::Structured || s.raw_uses_llm) ==> r.route == PolishRoute::Stream,
        !r.translation_active && !s.streaming_insert ==> r.route == PolishRoute::OneShot,
        r.wants_history ==> s.context_window_minutes > 0,
        s.context_window_minutes > 0 && (r.translation_active || s.mode == PolishMode::Light
            || s.mode == PolishMode::Structured || s.raw_uses_llm) ==> r.wants_history,
        !r.translation_active && s.mode == PolishMode::Raw && !s.raw_uses_llm ==> !r.wants_history,
{
}

/// Earlier turns go along only where the plan looks for them and the history could
/// be read; then they are those that the history offers.
pub proof fn law_turns_go_along_where_planned(
    plan: &PolishPlan,
    sessions: Vec<DictationSession>,
    problem: String,
    pack: &str,
    offered: Vec<(String, String)>,
    r: Vec<(String, String)>,
    without: Vec<(String, String)>,
)
    requires
        call_ensures(
            eligible_polish_context_turns,
            (&sessions, pack, plan.translation_active),
            offered,
        ),
        call_ensures(prior_turns, (plan, Ok(sessions), pack), r),
        call_ensures(prior_turns, (plan, Err(problem), pack), without),
    ensures
        without@.len() == 0,
        !plan.wants_history ==> r@.len() == 0,
        plan.wants_history ==> r@.len() == offered@.len() && forall|k: int|
            0 <= k < r@.len() ==> (#[trigger] r@[k]).0@ == offered@[k].0@ && r@[k].1@
                == offered@[k].1@,
{
    assert(turn_views(without@).len() == without@.len());
    assert(turn_views(r@).len() == r@.len());
    assert(turn_views(offered@).len() == offered@.len());
    if plan.wants_history {
        assert forall|k: int| 0 <= k < r@.len() implies (#[trigger] r@[k]).0@ == offered@[k].0@
            && r@[k].1@ == offered@[k].1@ by {
            assert(turn_views(r@)[k] == (r@[k].0@, r@[k].1@));
            assert(turn_views(offered@)[k] == (offered@[k].0@, offered@[k].1@));
        }
    }
}

/// A request carries the transcript and what the model is told of it as they are,
/// the phrase of every entry of the vocabulary that counts, and the prompt of the
/// style unless a translation is asked for. A plain translation in its stead is of
/// the same text, into the language of the plan.
pub proof fn law_request_carries_the_transcript(
    plan: &PolishPlan,
    text: String,
    style: &str,
    base: &str,
    vocabulary: &Vec<VocabularyEntry>,
    context: ModelContext,
    phrases: Vec<String>,
    language: &str,
    both: String,
    r: PolishRequest,
    t: TranslateRequest,
)
    requires
        call_ensures(enabled_phrases, (vocabulary,), phrases),
        language@ == plan.translation_target@,
        call_ensures(build_polish_translate_system_prompt, (base, language), both),
        call_ensures(polish_request, (plan, text, style, base, vocabulary, context), r),
        call_ensures(translate_request, (plan, r), t),
    ensures
        r.text@ == text@,
        r.context == context,
        r.hotwords@.len() == phrases@.len(),
        forall|k: int| 0 <= k < phrases@.len() ==> #[trigger] r.hotwords@[k]@ == phrases@[k]@,
        plan.route == PolishRoute::Translate ==> r.system_prompt@ == both@,
        plan.route != PolishRoute::Translate ==> r.system_prompt@ == style@,
        t.text@ == text@,
        t.target_language@ == plan.translation_target@,
        t.working_languages == context.working_languages,
        t.script == context.script,
        t.output_language == context.output_language,
        t.thinking == context.thinking,
        t.front_app == context.front_app,
{
    assert(texts(r.hotwords@).len() == r.hotwords@.len());
    assert(texts(phrases@).len() == phrases@.len());
    assert forall|k: int| 0 <= k < phrases@.len() implies #[trigger] r.hotwords@[k]@
        == phrases@[k]@ by {
        assert(texts(r.hotwords@)[k] == r.hotwords@[k]@);
        assert(texts(phrases@)[k] == phrases@[k]@);
    }
}

} // verus!
