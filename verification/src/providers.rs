//! Which protocol a provider speaks, and how its stored settings are read.

use crate::endpoint::{endpoint_error_text, endpoint_verdict, validate_llm_endpoint, EndpointError};
use crate::text::{
    blank, is_blank, str_eq, trim_suffix, trim_trailing, without_suffix, without_trailing,
};
use crate::types::opt_text;
use vstd::prelude::*;

verus! {

/// The longest piece of audio that some batch recognisers accept.
pub const BATCH_CHUNK_LIMIT_MS: u64 = 30000;

/// How a transcription request carries its audio.
#[derive(Clone, Copy, PartialEq, Eq, Structural, Debug)]
pub enum AsrRequestFormat {
    Multipart,
    /// JSON with the audio in base64.
    OpenRouterJson,
}

/// The provider offers an OpenAI-style `/audio/transcriptions`.
pub open spec fn whisper_compatible(id: Seq<char>) -> bool {
    id == "whisper"@ || id == "siliconflow"@ || id == "zhipu"@ || id == "groq"@ || id
        == "openrouter"@
}

pub fn is_whisper_compatible_provider(id: &str) -> (r: bool)
    ensures
        r == whisper_compatible(id@),
{
    str_eq(id, "whisper") || str_eq(id, "siliconflow") || str_eq(id, "zhipu") || str_eq(id, "groq")
        || str_eq(id, "openrouter")
}

/// The body format of `provider_id`'s transcription requests.
pub open spec fn request_format_of(provider_id: Seq<char>) -> AsrRequestFormat {
    if provider_id == "openrouter"@ {
        AsrRequestFormat::OpenRouterJson
    } else {
        AsrRequestFormat::Multipart
    }
}

pub fn whisper_request_format(provider_id: &str) -> (r: AsrRequestFormat)
    ensures
        r == request_format_of(provider_id@),
{
    if str_eq(provider_id, "openrouter") {
        AsrRequestFormat::OpenRouterJson
    } else {
        AsrRequestFormat::Multipart
    }
}

/// The provider answers `verbose_json` with the figures that the filter
/// against hallucinated speech needs.
pub open spec fn verbose_json_supported(provider_id: Seq<char>) -> bool {
    provider_id == "whisper"@ || provider_id == "groq"@
}

pub fn whisper_supports_verbose_json(provider_id: &str) -> (r: bool)
    ensures
        r == verbose_json_supported(provider_id@),
{
    str_eq(provider_id, "whisper") || str_eq(provider_id, "groq")
}

/// How long a piece of audio may be in one request; `None` for no limit.
pub open spec fn chunk_limit_of(provider_id: Seq<char>) -> Option<u64> {
    if provider_id == "zhipu"@ || provider_id == "openrouter"@ {
        Some(BATCH_CHUNK_LIMIT_MS)
    } else {
        None
    }
}

pub fn batch_asr_chunk_limit_ms(provider_id: &str) -> (r: Option<u64>)
    ensures
        r == chunk_limit_of(provider_id@),
{
    if str_eq(provider_id, "zhipu") || str_eq(provider_id, "openrouter") {
        Some(BATCH_CHUNK_LIMIT_MS)
    } else {
        None
    }
}

pub fn is_bailian_provider(id: &str) -> (r: bool)
    ensures
        r == (id@ == "bailian"@),
{
    str_eq(id, "bailian")
}

pub fn is_mimo_provider(id: &str) -> (r: bool)
    ensures
        r == (id@ == "mimo"@),
{
    str_eq(id, "mimo")
}

/// Where a style pack comes from.
#[derive(Clone, Copy, PartialEq, Eq, Structural, Debug)]
pub enum StylePackKind {
    Builtin,
    Imported,
    Custom,
}

/// The parts of a style pack that decide whether a model is asked.
#[derive(Debug)]
pub struct StylePack {
    pub id: String,
    pub kind: StylePackKind,
    pub prompt: String,
}

/// A raw pack keeps the transcript as it is only while it is the built-in
/// one with its built-in prompt.
pub fn raw_style_pack_uses_llm(
    pack: &StylePack,
    builtin_raw_id: &str,
    builtin_raw_prompt: &str,
) -> (r: bool)
    ensures
        r == !(pack.kind == StylePackKind::Builtin && pack.id@ == builtin_raw_id@ && pack.prompt@
            == builtin_raw_prompt@),
{
    !(pack.kind == StylePackKind::Builtin && str_eq(pack.id.as_str(), builtin_raw_id) && str_eq(
        pack.prompt.as_str(),
        builtin_raw_prompt,
    ))
}

/// A raw style asks a model exactly when its prompt was changed.
pub fn raw_mode_uses_llm(style_system_prompt: &str, builtin_raw_prompt: &str) -> (r: bool)
    ensures
        r == (style_system_prompt@ != builtin_raw_prompt@),
{
    !str_eq(style_system_prompt, builtin_raw_prompt)
}

/// What a look into the credential vault gave.
pub type VaultRead = Result<Option<String>, String>;

/// The stored text, if there is one and it could be read.
pub open spec fn stored(read: VaultRead) -> Option<Seq<char>> {
    match read {
        Ok(o) => opt_text(o),
        Err(_) => None,
    }
}

/// The stored text, or nothing at all.
pub open spec fn stored_or_empty(read: VaultRead) -> Seq<char> {
    match stored(read) {
        Some(s) => s,
        None => Seq::empty(),
    }
}

/// The stored text unless it is blank or missing.
pub open spec fn stored_or(read: VaultRead, default: Seq<char>) -> Seq<char> {
    match stored(read) {
        Some(s) => if blank(s) {
            default
        } else {
            s
        },
        None => default,
    }
}

fn read_or_empty(read: VaultRead) -> (r: String)
    ensures
        r@ == stored_or_empty(read),
{
    match read {
        Ok(Some(s)) => s,
        _ => String::new(),
    }
}

fn read_or(read: VaultRead, default: &str) -> (r: String)
    ensures
        r@ == stored_or(read, default@),
{
    match read {
        Ok(Some(s)) => if is_blank(s.as_str()) {
            default.to_owned()
        } else {
            s
        },
        _ => default.to_owned(),
    }
}

/// An endpoint with the key and the model to ask for.
#[derive(Debug)]
pub struct BatchCredentials {
    pub api_key: String,
    pub base_url: String,
    pub model: String,
}

/// A model that is stored as the empty text counts as missing.
pub open spec fn stored_nonempty_or(read: VaultRead, default: Seq<char>) -> Seq<char> {
    match stored(read) {
        Some(s) => if s.len() == 0 {
            default
        } else {
            s
        },
        None => default,
    }
}

fn read_nonempty_or(read: VaultRead, default: &str) -> (r: String)
    ensures
        r@ == stored_nonempty_or(read, default@),
{
    match read {
        Ok(Some(s)) => if s.as_str().is_empty() {
            default.to_owned()
        } else {
            s
        },
        _ => default.to_owned(),
    }
}

pub fn read_whisper_credentials(
    api_key: VaultRead,
    endpoint: VaultRead,
    model: VaultRead,
) -> (r: BatchCredentials)
    ensures
        r.api_key@ == stored_or_empty(api_key),
        r.base_url@ == stored_or_empty(endpoint),
        r.model@ == stored_nonempty_or(model, "whisper-1"@),
{
    BatchCredentials {
        api_key: read_or_empty(api_key),
        base_url: read_or_empty(endpoint),
        model: read_nonempty_or(model, "whisper-1"),
    }
}

pub fn read_mimo_credentials(
    api_key: VaultRead,
    endpoint: VaultRead,
    model: VaultRead,
    default_endpoint: &str,
    default_model: &str,
) -> (r: BatchCredentials)
    ensures
        r.api_key@ == stored_or_empty(api_key),
        r.base_url@ == stored_or(endpoint, default_endpoint@),
        r.model@ == stored_or(model, default_model@),
{
    BatchCredentials {
        api_key: read_or_empty(api_key),
        base_url: read_or(endpoint, default_endpoint),
        model: read_or(model, default_model),
    }
}

#[derive(Debug)]
pub struct BailianCredentials {
    pub api_key: String,
    pub endpoint: String,
    pub model: String,
    pub vocabulary_id: Option<String>,
}

/// The stored text, if it is there and not blank.
pub open spec fn stored_nonblank(read: VaultRead) -> Option<Seq<char>> {
    match stored(read) {
        Some(s) => if blank(s) {
            None
        } else {
            Some(s)
        },
        None => None,
    }
}

fn read_nonblank(read: VaultRead) -> (r: Option<String>)
    ensures
        opt_text(r) == stored_nonblank(read),
{
    match read {
        Ok(Some(s)) => if is_blank(s.as_str()) {
            None
        } else {
            Some(s)
        },
        _ => None,
    }
}

pub fn read_bailian_credentials(
    api_key: VaultRead,
    endpoint: VaultRead,
    model: VaultRead,
    vocabulary_id: VaultRead,
    default_endpoint: &str,
    default_model: &str,
) -> (r: BailianCredentials)
    ensures
        r.api_key@ == stored_or_empty(api_key),
        r.endpoint@ == stored_or(endpoint, default_endpoint@),
        r.model@ == stored_or(model, default_model@),
        opt_text(r.vocabulary_id) == stored_nonblank(vocabulary_id),
{
    BailianCredentials {
        api_key: read_or_empty(api_key),
        endpoint: read_or(endpoint, default_endpoint),
        model: read_or(model, default_model),
        vocabulary_id: read_nonblank(vocabulary_id),
    }
}

#[derive(Debug)]
pub struct VolcengineCredentials {
    pub app_id: String,
    pub access_token: String,
    pub resource_id: String,
}

pub fn read_volc_credentials(
    app_id: VaultRead,
    access_token: VaultRead,
    resource_id: VaultRead,
    default_resource_id: &str,
) -> (r: VolcengineCredentials)
    ensures
        r.app_id@ == stored_or_empty(app_id),
        r.access_token@ == stored_or_empty(access_token),
        r.resource_id@ == stored_nonempty_or(resource_id, default_resource_id@),
{
    VolcengineCredentials {
        app_id: read_or_empty(app_id),
        access_token: read_or_empty(access_token),
        resource_id: read_nonempty_or(resource_id, default_resource_id),
    }
}

/// Why no language model can be asked.
#[derive(Debug)]
pub enum LlmSetupError {
    /// The vault could not be read.
    Vault(String),
    EmptyApiKey,
    Endpoint(EndpointError),
}

/// The words of a set-up error.
pub open spec fn llm_setup_error_text(e: LlmSetupError) -> Seq<char> {
    match e {
        LlmSetupError::Vault(s) => s@,
        LlmSetupError::EmptyApiKey => "API Key 为空"@,
        LlmSetupError::Endpoint(e) => endpoint_error_text(e),
    }
}

impl LlmSetupError {
    pub fn text(&self) -> (r: String)
        ensures
            r@ == llm_setup_error_text(*self),
    {
        match self {
            LlmSetupError::Vault(s) => s.clone(),
            LlmSetupError::EmptyApiKey => "API Key 为空".to_owned(),
            LlmSetupError::Endpoint(e) => e.text(),
        }
    }
}

#[derive(Debug)]
pub struct GeminiCredentials {
    pub api_key: String,
    pub model: String,
    pub base_url: String,
}

/// Reads the Gemini settings. A vault that cannot be read is reported, in the
/// order key, model, endpoint; after that a blank key is an error.
pub fn read_gemini_credentials(
    api_key: VaultRead,
    model: VaultRead,
    endpoint: VaultRead,
) -> (r: Result<GeminiCredentials, LlmSetupError>)
    ensures
        match r {
            Ok(c) => {
                &&& api_key is Ok && model is Ok && endpoint is Ok
                &&& !blank(stored_or_empty(api_key))
                &&& c.api_key@ == stored_or_empty(api_key)
                &&& c.model@ == stored_or(model, "gemini-2.5-flash"@)
                &&& c.base_url@ == without_trailing(
                    stored_or(endpoint, "https://generativelanguage.googleapis.com/v1beta"@),
                    '/',
                )
            },
            Err(LlmSetupError::Vault(e)) => match (api_key, model, endpoint) {
                (Err(x), _, _) => e == x,
                (Ok(_), Err(x), _) => e == x,
                (Ok(_), Ok(_), Err(x)) => e == x,
                _ => false,
            },
            Err(LlmSetupError::EmptyApiKey) => {
                &&& api_key is Ok && model is Ok && endpoint is Ok
                &&& blank(stored_or_empty(api_key))
            },
            Err(LlmSetupError::Endpoint(_)) => false,
        },
{
    let api_key: Option<String> = match api_key {
        Ok(o) => o,
        Err(e) => return Err(LlmSetupError::Vault(e)),
    };
    let model: Option<String> = match model {
        Ok(o) => o,
        Err(e) => return Err(LlmSetupError::Vault(e)),
    };
    let endpoint: Option<String> = match endpoint {
        Ok(o) => o,
        Err(e) => return Err(LlmSetupError::Vault(e)),
    };
    let key: String = read_or_empty(Ok(api_key));
    let model: String = read_or(Ok(model), "gemini-2.5-flash");
    let url: String = read_or(Ok(endpoint), "https://generativelanguage.googleapis.com/v1beta");
    if is_blank(key.as_str()) {
        return Err(LlmSetupError::EmptyApiKey);
    }
    Ok(GeminiCredentials { api_key: key, model, base_url: trim_trailing(url.as_str(), '/') })
}

/// The endpoint that is used when none is configured.
pub open spec fn default_ark_endpoint() -> Seq<char> {
    "https://ark.cn-beijing.volces.com/api/v3/chat/completions"@
}

/// The endpoint that `resolve_ark_endpoint_with_policy` checks.
pub open spec fn ark_candidate(endpoint: Option<String>) -> Seq<char> {
    match endpoint {
        Some(e) => e@,
        None => default_ark_endpoint(),
    }
}

/// The endpoint to send requests with `api_key` to. A key is needed only for
/// the default endpoint; every endpoint, the default one too, has to pass the
/// endpoint policy.
pub fn resolve_ark_endpoint_with_policy(api_key: &str, endpoint: Option<String>) -> (r: Result<
    String,
    LlmSetupError,
>)
    ensures
        match r {
            Ok(e) => {
                &&& !(blank(api_key@) && endpoint is None)
                &&& e@ == ark_candidate(endpoint)
                &&& endpoint_verdict(e@) is Ok
            },
            Err(LlmSetupError::EmptyApiKey) => blank(api_key@) && endpoint is None,
            Err(LlmSetupError::Endpoint(e)) => {
                &&& !(blank(api_key@) && endpoint is None)
                &&& endpoint_verdict(ark_candidate(endpoint)) is Err
                &&& e.kind() == endpoint_verdict(ark_candidate(endpoint))->Err_0
            },
            Err(LlmSetupError::Vault(_)) => false,
        },
{
    if is_blank(api_key) && endpoint.is_none() {
        return Err(LlmSetupError::EmptyApiKey);
    }
    let resolved: String = match endpoint {
        Some(e) => e,
        None => "https://ark.cn-beijing.volces.com/api/v3/chat/completions".to_owned(),
    };
    match validate_llm_endpoint(resolved.as_str()) {
        Ok(()) => Ok(resolved),
        Err(e) => Err(LlmSetupError::Endpoint(e)),
    }
}

/// The configured endpoint with an empty text taken for none.
pub open spec fn configured_endpoint(o: Option<String>) -> Option<Seq<char>> {
    match o {
        Some(e) => if e@.len() == 0 {
            None
        } else {
            Some(e@)
        },
        None => None,
    }
}

/// The endpoint that `resolve_ark_endpoint` checks.
pub open spec fn ark_candidate_text(endpoint: Option<Seq<char>>) -> Seq<char> {
    match endpoint {
        Some(e) => e,
        None => default_ark_endpoint(),
    }
}

/// Reads the configured endpoint and resolves it.
pub fn resolve_ark_endpoint(api_key: &str, endpoint: VaultRead) -> (r: Result<
    String,
    LlmSetupError,
>)
    ensures
        match r {
            Ok(e) => {
                &&& endpoint is Ok
                &&& !(blank(api_key@) && configured_endpoint(endpoint->Ok_0) is None)
                &&& e@ == ark_candidate_text(configured_endpoint(endpoint->Ok_0))
                &&& endpoint_verdict(e@) is Ok
            },
            Err(LlmSetupError::Vault(x)) => endpoint == Err::<Option<String>, String>(x),
            Err(LlmSetupError::EmptyApiKey) => {
                &&& endpoint is Ok
                &&& blank(api_key@) && configured_endpoint(endpoint->Ok_0) is None
            },
            Err(LlmSetupError::Endpoint(x)) => {
                &&& endpoint is Ok
                &&& !(blank(api_key@) && configured_endpoint(endpoint->Ok_0) is None)
                &&& endpoint_verdict(
                    ark_candidate_text(configured_endpoint(endpoint->Ok_0)),
                ) is Err
                &&& x.kind() == endpoint_verdict(
                    ark_candidate_text(configured_endpoint(endpoint->Ok_0)),
                )->Err_0
            },
        },
{
    let endpoint: Option<String> = match endpoint {
        Ok(o) => o,
        Err(e) => return Err(LlmSetupError::Vault(e)),
    };
    let endpoint: Option<String> = match endpoint {
        Some(e) => if e.as_str().is_empty() {
            None
        } else {
            Some(e)
        },
        None => None,
    };
    resolve_ark_endpoint_with_policy(api_key, endpoint)
}

/// The language model that is asked, with its settings.
#[derive(Debug)]
pub enum ActiveLlmProvider {
    Codex { model: String, thinking: bool },
    OpenAi {
        id: String,
        display_name: String,
        base_url: String,
        api_key: String,
        model: String,
        thinking: bool,
    },
}

/// The base of an OpenAI-style endpoint: without the path of its chat call.
pub open spec fn base_of_endpoint(endpoint: Seq<char>) -> Seq<char> {
    without_trailing(without_suffix(endpoint, "/chat/completions"@), '/')
}

/// Sets up the active language model. The Codex provider needs no endpoint.
pub fn build_active_llm_provider(
    active: String,
    codex_provider_id: &str,
    codex_default_model: &str,
    thinking: bool,
    model: VaultRead,
    api_key: VaultRead,
    endpoint: VaultRead,
) -> (r: Result<ActiveLlmProvider, LlmSetupError>)
    ensures
        model is Err ==> r == Err::<ActiveLlmProvider, LlmSetupError>(
            LlmSetupError::Vault(model->Err_0),
        ),
        model is Ok && active@ == codex_provider_id@ ==> match r {
            Ok(ActiveLlmProvider::Codex { model: m, thinking: t }) => m@ == stored_or(
                model,
                codex_default_model@,
            ) && t == thinking,
            _ => false,
        },
        model is Ok && active@ != codex_provider_id@ ==> match r {
            Ok(ActiveLlmProvider::OpenAi { id, display_name, base_url, api_key: k, model: m, thinking: t }) => {
                &&& api_key is Ok && endpoint is Ok
                &&& id == active
                &&& display_name@ == "OpenLess LLM"@
                &&& k@ == stored_or_empty(api_key)
                &&& m@ == stored_or(model, "deepseek-v3-2"@)
                &&& t == thinking
                &&& !(blank(k@) && configured_endpoint(endpoint->Ok_0) is None)
                &&& endpoint_verdict(
                    ark_candidate_text(configured_endpoint(endpoint->Ok_0)),
                ) is Ok
                &&& base_url@ == base_of_endpoint(
                    ark_candidate_text(configured_endpoint(endpoint->Ok_0)),
                )
            },
            Ok(ActiveLlmProvider::Codex { .. }) => false,
            Err(LlmSetupError::Vault(x)) => match (api_key, endpoint) {
                (Err(e), _) => x == e,
                (Ok(_), Err(e)) => x == e,
                _ => false,
            },
            Err(LlmSetupError::EmptyApiKey) => {
                &&& api_key is Ok && endpoint is Ok
                &&& blank(stored_or_empty(api_key)) && configured_endpoint(
                    endpoint->Ok_0,
                ) is None
            },
            Err(LlmSetupError::Endpoint(x)) => {
                &&& api_key is Ok && endpoint is Ok
                &&& !(blank(stored_or_empty(api_key)) && configured_endpoint(
                    endpoint->Ok_0,
                ) is None)
                &&& endpoint_verdict(
                    ark_candidate_text(configured_endpoint(endpoint->Ok_0)),
                ) is Err
                &&& x.kind() == endpoint_verdict(
                    ark_candidate_text(configured_endpoint(endpoint->Ok_0)),
                )->Err_0
            },
        },
{
    let model: Option<String> = match model {
        Ok(o) => o,
        Err(e) => return Err(LlmSetupError::Vault(e)),
    };
    if str_eq(active.as_str(), codex_provider_id) {
        return Ok(
            ActiveLlmProvider::Codex { model: read_or(Ok(model), codex_default_model), thinking },
        );
    }
    let api_key: Option<String> = match api_key {
        Ok(o) => o,
        Err(e) => return Err(LlmSetupError::Vault(e)),
    };
    let key: String = read_or_empty(Ok(api_key));
    let model: String = read_or(Ok(model), "deepseek-v3-2");
    let endpoint: String = match resolve_ark_endpoint(key.as_str(), endpoint) {
        Ok(e) => e,
        Err(e) => return Err(e),
    };
    let trimmed_path: String = trim_suffix(endpoint.as_str(), "/chat/completions");
    Ok(
        ActiveLlmProvider::OpenAi {
            id: active,
            display_name: "OpenLess LLM".to_owned(),
            base_url: trim_trailing(trimmed_path.as_str(), '/'),
            api_key: key,
            model,
            thinking,
        },
    )
}

/// A word of the user's vocabulary.
#[derive(Debug)]
pub struct VocabularyEntry {
    pub phrase: String,
    pub enabled: bool,
}

/// The phrases of the enabled entries, in order.
pub open spec fn enabled_of(entries: Seq<VocabularyEntry>) -> Seq<Seq<char>>
    decreases entries.len(),
{
    if entries.len() == 0 {
        Seq::empty()
    } else {
        let rest = enabled_of(entries.drop_last());
        if entries.last().enabled {
            rest.push(entries.last().phrase@)
        } else {
            rest
        }
    }
}

/// The views of a list of texts.
pub open spec fn texts(v: Seq<String>) -> Seq<Seq<char>> {
    v.map_values(|s: String| s@)
}

/// The phrases that are handed to recogniser and model.
pub fn enabled_phrases(entries: &Vec<VocabularyEntry>) -> (r: Vec<String>)
    ensures
        texts(r@) == enabled_of(entries@),
{
    let mut out: Vec<String> = Vec::new();
    let mut i: usize = 0;
    while i < entries.len()
        invariant
            i <= entries.len(),
            texts(out@) == enabled_of(entries@.take(i as int)),
        decreases entries.len() - i,
    {
        proof {
            assert(entries@.take(i + 1).drop_last() =~= entries@.take(i as int));
        }
        if entries[i].enabled {
            let ghost before = out@;
            out.push(entries[i].phrase.clone());
            proof {
                assert(texts(out@) =~= texts(before).push(entries@[i as int].phrase@));
            }
        }
        i = i + 1;
    }
    proof {
        assert(entries@.take(entries@.len() as int) =~= entries@);
    }
    out
}

/// The vocabulary as a recogniser takes it: every entry, with whether it
/// counts.
pub fn enabled_hotwords(entries: &Vec<VocabularyEntry>) -> (r: Vec<VocabularyEntry>)
    ensures
        r@ == entries@,
{
    let mut out: Vec<VocabularyEntry> = Vec::new();
    let mut i: usize = 0;
    while i < entries.len()
        invariant
            i <= entries.len(),
            out@ == entries@.take(i as int),
        decreases entries.len() - i,
    {
        out.push(
            VocabularyEntry { phrase: entries[i].phrase.clone(), enabled: entries[i].enabled },
        );
        proof {
            assert(out@ =~= entries@.take(i + 1));
        }
        i = i + 1;
    }
    proof {
        assert(entries@.take(entries@.len() as int) =~= entries@);
    }
    out
}

/// How many entries count.
pub open spec fn enabled_count(entries: Seq<VocabularyEntry>) -> nat
    decreases entries.len(),
{
    if entries.len() == 0 {
        0
    } else {
        enabled_count(entries.drop_first()) + if entries[0].enabled {
            1nat
        } else {
            0nat
        }
    }
}

/// The phrase is that of an entry that counts.
pub open spec fn counts(entries: Seq<VocabularyEntry>, phrase: Seq<char>) -> bool {
    exists|k: int|
        0 <= k < entries.len() && (#[trigger] entries[k]).enabled && entries[k].phrase@ == phrase
}

proof fn lemma_enabled_of_concat(a: Seq<VocabularyEntry>, b: Seq<VocabularyEntry>)
    ensures
        enabled_of(a + b) == enabled_of(a) + enabled_of(b),
    decreases b.len(),
{
    if b.len() == 0 {
        assert(a + b =~= a);
        assert(enabled_of(a) + enabled_of(b) =~= enabled_of(a));
    } else {
        assert((a + b).drop_last() =~= a + b.drop_last());
        assert((a + b).last() == b.last());
        lemma_enabled_of_concat(a, b.drop_last());
        assert(enabled_of(a + b) =~= enabled_of(a) + enabled_of(b));
    }
}

pub proof fn lemma_enabled_of(entries: Seq<VocabularyEntry>)
    ensures
        enabled_of(entries).len() == enabled_count(entries),
        forall|k: int|
            0 <= k < entries.len() && (#[trigger] entries[k]).enabled ==> enabled_of(
                entries,
            ).contains(entries[k].phrase@),
        forall|j: int|
            0 <= j < enabled_of(entries).len() ==> counts(
                entries,
                #[trigger] enabled_of(entries)[j],
            ),
    decreases entries.len(),
{
    if entries.len() > 0 {
        let rest = entries.drop_first();
        let head = seq![entries[0]];
        lemma_enabled_of(rest);
        lemma_enabled_of_concat(head, rest);
        assert(entries =~= head + rest);
        assert(head.drop_last() =~= Seq::<VocabularyEntry>::empty());
        assert(head.last() == entries[0]);
        let first = enabled_of(head);
        assert(enabled_of(head.drop_last()) =~= Seq::<Seq<char>>::empty());
        let all = enabled_of(entries);
        assert(all =~= first + enabled_of(rest));
        if entries[0].enabled {
            assert(first =~= seq![entries[0].phrase@]);
            assert(all[0] == entries[0].phrase@);
        } else {
            assert(first =~= Seq::<Seq<char>>::empty());
        }
        assert forall|k: int|
            0 <= k < entries.len() && (#[trigger] entries[k]).enabled implies all.contains(
            entries[k].phrase@,
        ) by {
            if k > 0 {
                assert(rest[k - 1] == entries[k]);
                let j = choose|j: int|
                    0 <= j < enabled_of(rest).len() && enabled_of(rest)[j] == entries[k].phrase@;
                assert(all[first.len() + j] == entries[k].phrase@);
            }
        }
        assert forall|j: int| 0 <= j < all.len() implies counts(entries, #[trigger] all[j]) by {
            if j < first.len() {
                assert(entries[0].phrase@ == all[j]);
            } else {
                let i = j - first.len();
                assert(all[j] == enabled_of(rest)[i]);
                let k = choose|k: int|
                    0 <= k < rest.len() && (#[trigger] rest[k]).enabled && rest[k].phrase@
                        == enabled_of(rest)[i];
                assert(entries[k + 1] == rest[k]);
            }
        }
    }
}

/// The phrase of every entry that counts is handed on, nothing else is, and there
/// are as many phrases as such entries.
pub proof fn law_every_enabled_phrase_is_handed_on(entries: &Vec<VocabularyEntry>, r: Vec<String>)
    requires
        call_ensures(enabled_phrases, (entries,), r),
    ensures
        r@.len() == enabled_count(entries@),
        forall|k: int|
            0 <= k < entries@.len() && (#[trigger] entries@[k]).enabled ==> exists|j: int|
                0 <= j < r@.len() && #[trigger] r@[j]@ == entries@[k].phrase@,
        forall|j: int| 0 <= j < r@.len() ==> counts(entries@, #[trigger] r@[j]@),
{
    lemma_enabled_of(entries@);
    let all = enabled_of(entries@);
    assert(texts(r@).len() == r@.len());
    assert forall|k: int|
        0 <= k < entries@.len() && (#[trigger] entries@[k]).enabled implies exists|j: int|
        0 <= j < r@.len() && #[trigger] r@[j]@ == entries@[k].phrase@ by {
        let j = choose|j: int| 0 <= j < all.len() && all[j] == entries@[k].phrase@;
        assert(texts(r@)[j] == r@[j]@);
    }
    assert forall|j: int| 0 <= j < r@.len() implies counts(entries@, #[trigger] r@[j]@) by {
        assert(texts(r@)[j] == r@[j]@);
    }
}

/// The phrases keep the order of the vocabulary: those of two parts of it, one
/// after the other, are those of the whole.
pub proof fn law_phrases_keep_their_order(
    front: &Vec<VocabularyEntry>,
    back: &Vec<VocabularyEntry>,
    whole: &Vec<VocabularyEntry>,
    of_front: Vec<String>,
    of_back: Vec<String>,
    of_whole: Vec<String>,
)
    requires
        whole@ == front@ + back@,
        call_ensures(enabled_phrases, (front,), of_front),
        call_ensures(enabled_phrases, (back,), of_back),
        call_ensures(enabled_phrases, (whole,), of_whole),
    ensures
        texts(of_whole@) == texts(of_front@) + texts(of_back@),
{
    lemma_enabled_of_concat(front@, back@);
}

/// A vocabulary in which everything counts is handed on whole, and one in which
/// nothing does not at all.
pub proof fn law_whole_vocabulary_is_handed_on(entries: &Vec<VocabularyEntry>, r: Vec<String>)
    requires
        call_ensures(enabled_phrases, (entries,), r),
    ensures
        (forall|k: int| 0 <= k < entries@.len() ==> (#[trigger] entries@[k]).enabled) ==> {
            &&& r@.len() == entries@.len()
            &&& forall|k: int| 0 <= k < entries@.len() ==> #[trigger] r@[k]@ == entries@[k].phrase@
        },
        (forall|k: int| 0 <= k < entries@.len() ==> !(#[trigger] entries@[k]).enabled) ==> r@.len()
            == 0,
{
    if forall|k: int| 0 <= k < entries@.len() ==> (#[trigger] entries@[k]).enabled {
        lemma_all_enabled(entries@);
        assert forall|k: int| 0 <= k < entries@.len() implies #[trigger] r@[k]@
            == entries@[k].phrase@ by {
            assert(texts(r@)[k] == r@[k]@);
        }
        assert(texts(r@).len() == r@.len());
    }
    if forall|k: int| 0 <= k < entries@.len() ==> !(#[trigger] entries@[k]).enabled {
        lemma_enabled_of(entries@);
        assert(texts(r@).len() == r@.len());
        if r@.len() > 0 {
            assert(enabled_of(entries@)[0] == texts(r@)[0]);
        }
    }
}

proof fn lemma_all_enabled(entries: Seq<VocabularyEntry>)
    requires
        forall|k: int| 0 <= k < entries.len() ==> (#[trigger] entries[k]).enabled,
    ensures
        enabled_of(entries).len() == entries.len(),
        forall|k: int| 0 <= k < entries.len() ==> enabled_of(entries)[k] == (
        #[trigger] entries[k]).phrase@,
    decreases entries.len(),
{
    if entries.len() > 0 {
        let rest = entries.drop_last();
        assert forall|k: int| 0 <= k < rest.len() implies (#[trigger] rest[k]).enabled by {
            assert(rest[k] == entries[k]);
        }
        lemma_all_enabled(rest);
        assert forall|k: int| 0 <= k < entries.len() implies enabled_of(entries)[k] == (
        #[trigger] entries[k]).phrase@ by {
            if k < rest.len() {
                assert(rest[k] == entries[k]);
            }
        }
    }
}

/// Where the recogniser takes the whole vocabulary it gets every entry in its
/// place, with its phrase and with whether it counts.
pub proof fn law_hotwords_are_the_vocabulary(
    entries: &Vec<VocabularyEntry>,
    r: Vec<VocabularyEntry>,
    k: int,
)
    requires
        call_ensures(enabled_hotwords, (entries,), r),
    ensures
        r@.len() == entries@.len(),
        0 <= k < r@.len() ==> r@[k].phrase@ == entries@[k].phrase@ && r@[k].enabled
            == entries@[k].enabled,
{
}

/// Each provider that speaks the Whisper protocol is known as one, with the
/// request it understands: OpenRouter takes JSON and the others take forms, Zhipu
/// and OpenRouter take half a minute at most, and Whisper and Groq alone answer
/// with the figures of the speech. Bailian, Mimo and Volcengine are none of them.
pub proof fn law_whisper_providers(
    id: &str,
    compatible: bool,
    format: AsrRequestFormat,
    verbose: bool,
    limit: Option<u64>,
    bailian: bool,
    mimo: bool,
)
    requires
        call_ensures(is_whisper_compatible_provider, (id,), compatible),
        call_ensures(whisper_request_format, (id,), format),
        call_ensures(whisper_supports_verbose_json, (id,), verbose),
        call_ensures(batch_asr_chunk_limit_ms, (id,), limit),
        call_ensures(is_bailian_provider, (id,), bailian),
        call_ensures(is_mimo_provider, (id,), mimo),
    ensures
        id@ == "whisper"@ ==> compatible && verbose && limit is None && format
            == AsrRequestFormat::Multipart,
        id@ == "groq"@ ==> compatible && verbose && limit is None && format
            == AsrRequestFormat::Multipart,
        id@ == "siliconflow"@ ==> compatible && !verbose && limit is None && format
            == AsrRequestFormat::Multipart,
        id@ == "zhipu"@ ==> compatible && !verbose && limit == Some(30000u64) && format
            == AsrRequestFormat::Multipart,
        id@ == "openrouter"@ ==> compatible && !verbose && limit == Some(30000u64) && format
            == AsrRequestFormat::OpenRouterJson,
        bailian <==> id@ == "bailian"@,
        mimo <==> id@ == "mimo"@,
        compatible ==> !bailian && !mimo,
        compatible ==> id@.len() == 4 || id@.len() == 5 || id@.len() == 7 || id@.len() == 10 || id@.len()
            == 11,
        verbose || limit is Some || format == AsrRequestFormat::OpenRouterJson ==> compatible,
{
    reveal_strlit("whisper");
    reveal_strlit("siliconflow");
    reveal_strlit("zhipu");
    reveal_strlit("groq");
    reveal_strlit("openrouter");
    reveal_strlit("bailian");
    reveal_strlit("mimo");
    if id@ == "whisper"@ {
        assert(id@[0] == 'w');
    }
    if id@ == "siliconflow"@ {
        assert(id@[0] == 's');
    }
    if id@ == "zhipu"@ {
        assert(id@[0] == 'z');
    }
    if id@ == "groq"@ {
        assert(id@[0] == 'g');
    }
    if id@ == "openrouter"@ {
        assert(id@[0] == 'o');
    }
    if id@ == "bailian"@ {
        assert(id@[0] == 'b');
    }
    if id@ == "mimo"@ {
        assert(id@[0] == 'm');
    }
}

/// Nobody but these five is taken for a Whisper-style service.
pub proof fn law_no_other_provider_is_whisper_compatible(id: &str, compatible: bool)
    requires
        call_ensures(is_whisper_compatible_provider, (id,), compatible),
        id@ != "whisper"@ && id@ != "groq"@ && id@ != "siliconflow"@ && id@ != "zhipu"@ && id@
            != "openrouter"@,
    ensures
        !compatible,
{
}

/// A raw style leaves the transcript alone only while nothing of it was changed.
pub proof fn law_changed_raw_style_asks_a_model(
    pack: &StylePack,
    id: &str,
    prompt: &str,
    style: &str,
    uses: bool,
    mode_uses: bool,
)
    requires
        call_ensures(raw_style_pack_uses_llm, (pack, id, prompt), uses),
        call_ensures(raw_mode_uses_llm, (style, prompt), mode_uses),
    ensures
        !uses ==> pack.kind == StylePackKind::Builtin && pack.id@ == id@ && pack.prompt@ == prompt@,
        pack.kind == StylePackKind::Imported || pack.kind == StylePackKind::Custom ==> uses,
        pack.prompt@ != prompt@ ==> uses,
        pack.id@ != id@ ==> uses,
        pack.kind == StylePackKind::Builtin && pack.id@ == id@ && pack.prompt@ == prompt@ ==> !uses,
        mode_uses <==> style@ != prompt@,
{
}

/// What is stored is what is used. Where nothing is stored, or the vault cannot be
/// read, the settings fall back: the key and the address of a Whisper-style
/// service to nothing at all, its model to the usual one.
pub proof fn law_stored_whisper_settings_are_used(
    key: String,
    url: String,
    model: String,
    none: VaultRead,
    used: BatchCredentials,
    fallen: BatchCredentials,
)
    requires
        call_ensures(read_whisper_credentials, (Ok(Some(key)), Ok(Some(url)), Ok(Some(model))), used),
        none is Err || none->Ok_0 is None,
        call_ensures(read_whisper_credentials, (none, none, none), fallen),
    ensures
        used.api_key@ == key@,
        used.base_url@ == url@,
        model@.len() > 0 ==> used.model@ == model@,
        model@.len() == 0 ==> used.model@ == "whisper-1"@,
        fallen.api_key@.len() == 0,
        fallen.base_url@.len() == 0,
        fallen.model@ == "whisper-1"@,
{
}

/// The same for Mimo, whose address and model fall back to the usual ones, also
/// where what is stored is blank.
pub proof fn law_stored_mimo_settings_are_used(
    key: String,
    url: String,
    model: String,
    none: VaultRead,
    default_url: &str,
    default_model: &str,
    used: BatchCredentials,
    fallen: BatchCredentials,
)
    requires
        call_ensures(
            read_mimo_credentials,
            (Ok(Some(key)), Ok(Some(url)), Ok(Some(model)), default_url, default_model),
            used,
        ),
        none is Err || none->Ok_0 is None,
        call_ensures(read_mimo_credentials, (none, none, none, default_url, default_model), fallen),
    ensures
        used.api_key@ == key@,
        !blank(url@) ==> used.base_url@ == url@,
        blank(url@) ==> used.base_url@ == default_url@,
        !blank(model@) ==> used.model@ == model@,
        blank(model@) ==> used.model@ == default_model@,
        fallen.api_key@.len() == 0,
        fallen.base_url@ == default_url@,
        fallen.model@ == default_model@,
{
}

/// The same for Bailian, whose vocabulary is used only where one is named.
pub proof fn law_stored_bailian_settings_are_used(
    key: String,
    url: String,
    model: String,
    vocabulary: String,
    none: VaultRead,
    default_url: &str,
    default_model: &str,
    used: BailianCredentials,
    fallen: BailianCredentials,
)
    requires
        call_ensures(
            read_bailian_credentials,
            (
                Ok(Some(key)),
                Ok(Some(url)),
                Ok(Some(model)),
                Ok(Some(vocabulary)),
                default_url,
                default_model,
            ),
            used,
        ),
        none is Err || none->Ok_0 is None,
        call_ensures(
            read_bailian_credentials,
            (none, none, none, none, default_url, default_model),
            fallen,
        ),
    ensures
        used.api_key@ == key@,
        used.endpoint@ == (if blank(url@) {
            default_url@
        } else {
            url@
        }),
        used.model@ == (if blank(model@) {
            default_model@
        } else {
            model@
        }),
        used.vocabulary_id is Some <==> !blank(vocabulary@),
        used.vocabulary_id matches Some(v) ==> v@ == vocabulary@,
        fallen.api_key@.len() == 0,
        fallen.endpoint@ == default_url@,
        fallen.model@ == default_model@,
        fallen.vocabulary_id is None,
{
}

/// The same for Volcengine.
pub proof fn law_stored_volcengine_settings_are_used(
    app: String,
    token: String,
    resource: String,
    none: VaultRead,
    default_resource: &str,
    used: VolcengineCredentials,
    fallen: VolcengineCredentials,
)
    requires
        call_ensures(
            read_volc_credentials,
            (Ok(Some(app)), Ok(Some(token)), Ok(Some(resource)), default_resource),
            used,
        ),
        none is Err || none->Ok_0 is None,
        call_ensures(read_volc_credentials, (none, none, none, default_resource), fallen),
    ensures
        used.app_id@ == app@,
        used.access_token@ == token@,
        used.resource_id@ == (if resource@.len() == 0 {
            default_resource@
        } else {
            resource@
        }),
        fallen.app_id@.len() == 0,
        fallen.access_token@.len() == 0,
        fallen.resource_id@ == default_resource@,
{
}

/// Gemini can be asked exactly when the vault could be read and holds a key that
/// is not blank. The address is used without slashes at its end.
pub proof fn law_gemini_needs_a_key(
    api_key: VaultRead,
    model: VaultRead,
    endpoint: VaultRead,
    r: Result<GeminiCredentials, LlmSetupError>,
)
    requires
        call_ensures(read_gemini_credentials, (api_key, model, endpoint), r),
    ensures
        r is Ok <==> model is Ok && endpoint is Ok && (api_key matches Ok(Some(k)) && !blank(k@)),
        r matches Ok(c) ==> {
            &&& api_key matches Ok(Some(k)) && c.api_key@ == k@
            &&& (model matches Ok(Some(m)) ==> (!blank(m@) ==> c.model@ == m@))
            &&& (model matches Ok(None) ==> c.model@ == "gemini-2.5-flash"@)
            &&& c.base_url@.len() > 0 ==> c.base_url@.last() != '/'
            &&& (endpoint matches Ok(Some(u)) ==> (!blank(u@) ==> c.base_url@.len() <= u@.len()
                && c.base_url@ == u@.take(c.base_url@.len() as int)))
        },
        r matches Err(LlmSetupError::EmptyApiKey) <==> api_key is Ok && model is Ok && endpoint is Ok
            && !(api_key matches Ok(Some(k)) && !blank(k@)),
        api_key is Err || model is Err || endpoint is Err ==> r matches Err(LlmSetupError::Vault(_)),
        api_key matches Err(x) ==> r == Err::<GeminiCredentials, LlmSetupError>(
            LlmSetupError::Vault(x),
        ),
{
    crate::text::lemma_without_trailing(
        stored_or(endpoint, "https://generativelanguage.googleapis.com/v1beta"@),
        '/',
    );
    assert(blank(Seq::<char>::empty()));
}

/// A configured endpoint is the one that is used, if the policy lets it pass, and
/// none is made up in its place. A key is wanted only where no endpoint is
/// configured; an empty text counts as none.
pub proof fn law_configured_endpoint_is_used(
    api_key: &str,
    endpoint: Option<String>,
    r: Result<String, LlmSetupError>,
    read: Result<String, LlmSetupError>,
)
    requires
        call_ensures(resolve_ark_endpoint_with_policy, (api_key, endpoint), r),
        call_ensures(resolve_ark_endpoint, (api_key, Ok(endpoint)), read),
    ensures
        endpoint matches Some(e) ==> {
            &&& r is Ok <==> endpoint_verdict(e@) is Ok
            &&& r is Ok ==> r->Ok_0@ == e@
            &&& r is Err ==> r->Err_0 is Endpoint
            &&& e@.len() > 0 ==> (read is Ok <==> r is Ok)
            &&& e@.len() > 0 && read is Ok ==> read->Ok_0@ == e@
        },
        endpoint is None ==> {
            &&& blank(api_key@) <==> r is Err && r->Err_0 is EmptyApiKey
            &&& blank(api_key@) <==> read is Err && read->Err_0 is EmptyApiKey
            &&& r is Ok ==> r->Ok_0@
                == "https://ark.cn-beijing.volces.com/api/v3/chat/completions"@
            &&& read is Ok <==> r is Ok
        },
        (endpoint matches Some(e) && e@.len() == 0) && blank(api_key@) ==> read matches Err(
            LlmSetupError::EmptyApiKey,
        ),
        r matches Ok(used) ==> endpoint_verdict(used@) is Ok,
        read matches Ok(used) ==> endpoint_verdict(used@) is Ok,
{
}

/// Codex is set up from the model alone. Any other provider is asked under its own
/// name, with the key and the model that are stored, at the base of its endpoint;
/// the base does not depend on whether the endpoint names the chat call.
pub proof fn law_active_model_is_the_configured_one(
    active: String,
    codex: &str,
    codex_model: &str,
    thinking: bool,
    model: String,
    key: String,
    endpoint: String,
    r: Result<ActiveLlmProvider, LlmSetupError>,
)
    requires
        call_ensures(
            build_active_llm_provider,
            (
                active,
                codex,
                codex_model,
                thinking,
                Ok(Some(model)),
                Ok(Some(key)),
                Ok(Some(endpoint)),
            ),
            r,
        ),
        endpoint@.len() > 0,
        !blank(model@),
    ensures
        active@ == codex@ <==> r matches Ok(ActiveLlmProvider::Codex { .. }),
        r matches Ok(ActiveLlmProvider::Codex { model: m, thinking: t }) ==> m@ == model@ && t
            == thinking,
        active@ != codex@ ==> (r is Ok <==> endpoint_verdict(endpoint@) is Ok),
        r matches Ok(
            ActiveLlmProvider::OpenAi { id, base_url, api_key: k, model: m, thinking: t, .. },
        ) ==> {
            &&& id == active
            &&& k@ == key@
            &&& m@ == model@
            &&& t == thinking
            &&& base_url@.len() > 0 ==> base_url@.last() != '/'
            &&& !crate::text::ends_with(endpoint@, "/chat/completions"@) && endpoint@.last() != '/'
                ==> base_url@ == endpoint@
        },
{
    reveal_strlit("/chat/completions");
    crate::text::lemma_without_suffix(endpoint@, "/chat/completions"@);
    crate::text::lemma_without_trailing(
        without_suffix(endpoint@, "/chat/completions"@),
        '/',
    );
}

/// An endpoint that names the chat call is asked at the same base as the one that
/// leaves it out.
pub proof fn law_chat_call_is_no_part_of_the_base(
    active: String,
    codex: &str,
    codex_model: &str,
    thinking: bool,
    model: VaultRead,
    key: VaultRead,
    short: String,
    long: String,
    r: Result<ActiveLlmProvider, LlmSetupError>,
    q: Result<ActiveLlmProvider, LlmSetupError>,
)
    requires
        long@ == short@ + "/chat/completions"@,
        short@.len() > 0,
        call_ensures(
            build_active_llm_provider,
            (active, codex, codex_model, thinking, model, key, Ok(Some(short))),
            r,
        ),
        call_ensures(
            build_active_llm_provider,
            (active, codex, codex_model, thinking, model, key, Ok(Some(long))),
            q,
        ),
    ensures
        r is Ok && r->Ok_0 is OpenAi && q is Ok ==> q->Ok_0 is OpenAi && q->Ok_0->base_url@
            == r->Ok_0->base_url@,
{
    let chat = "/chat/completions"@;
    reveal_strlit("/chat/completions");
    assert(long@.subrange(short@.len() as int, long@.len() as int) =~= chat);
    assert(long@.take(long@.len() - chat.len()) =~= short@);
    assert(crate::text::ends_with(long@, chat));
}

} // verus!
