use openless::sherpa::{
    alias_is_online, mode_for_alias, model_alias_is_known, model_dir_for_alias,
    required_files_for_alias, required_path_is_valid, PathFacts, SherpaMode, SherpaPreparePhase,
    SherpaPrepareProgressPayload, SherpaRuntimeStatus, DEFAULT_ONLINE_MODEL_ALIAS, PROVIDER_ID,
};
use openless::types::Platform;

#[test]
fn online_zipformer_has_download_and_required_files() {
    assert_eq!(mode_for_alias(DEFAULT_ONLINE_MODEL_ALIAS).unwrap(), SherpaMode::Online);
    assert!(alias_is_online(DEFAULT_ONLINE_MODEL_ALIAS));
    assert_eq!(
        required_files_for_alias(DEFAULT_ONLINE_MODEL_ALIAS).unwrap(),
        vec![
            "encoder-epoch-99-avg-1.int8.onnx",
            "decoder-epoch-99-avg-1.onnx",
            "joiner-epoch-99-avg-1.int8.onnx",
            "tokens.txt",
        ]
    );
}

fn tokenizer_dir(json: bool, vocab: bool, merges: bool) -> PathFacts {
    PathFacts {
        is_file: false,
        has_tokenizer_json: json,
        has_vocab_json: vocab,
        has_merges_txt: merges,
    }
}

#[test]
fn qwen3_tokenizer_accepts_supported_layouts() {
    let valid = |facts| required_path_is_valid("qwen3-asr-0.6b-int8", "tokenizer", facts);
    assert!(!valid(tokenizer_dir(false, false, false)));
    assert!(valid(tokenizer_dir(true, false, false)));
    assert!(!valid(tokenizer_dir(false, true, false)));
    assert!(valid(tokenizer_dir(false, true, true)));
}

#[test]
fn unavailable_status_uses_provider_id() {
    let status = SherpaRuntimeStatus::unavailable("paraformer-zh".into(), "not ready");
    assert_eq!(status.provider_id, PROVIDER_ID);
    assert!(!status.available);
    assert!(!status.runtime_ready);
    assert_eq!(status.active_model, "paraformer-zh");
    assert_eq!(status.error.as_deref(), Some("not ready"));
    assert_eq!(status.last_error.as_deref(), Some("not ready"));
}

#[test]
fn prepare_progress_payload_uses_expected_event_shape() {
    let payload = SherpaPrepareProgressPayload::new(
        SherpaPreparePhase::Model,
        "sense-voice-small-zh".into(),
        "download model".into(),
        Some(4240),
        None,
    );
    assert_eq!(payload.phase, SherpaPreparePhase::Model);
    assert_eq!(payload.phase.name(), "model");
    assert_eq!(payload.model_alias, "sense-voice-small-zh");
    assert_eq!(payload.label, "download model");
    assert_eq!(payload.percent_hundredths.map(|p| f64::from(p) / 100.0), Some(42.4));
    assert_eq!(payload.error, None);
}

#[test]
fn unknown_aliases_have_neither_mode_nor_files() {
    assert!(!model_alias_is_known("nope"));
    assert_eq!(
        mode_for_alias("nope").unwrap_err().text(),
        "unknown sherpa-onnx model alias: nope"
    );
    assert_eq!(required_files_for_alias("nope").unwrap_err().alias, "nope");
    assert!(!alias_is_online("sense-voice-small-zh"));
    assert_eq!(mode_for_alias("sense-voice-small-zh").unwrap(), SherpaMode::Offline);
    let dir = |platform, base: &str| model_dir_for_alias(platform, base, "paraformer-zh").unwrap();
    assert_eq!(dir(Platform::Windows, "C:\\models"), "C:\\models\\paraformer-zh");
    assert_eq!(dir(Platform::Windows, "C:\\models\\"), "C:\\models\\paraformer-zh");
    assert_eq!(dir(Platform::MacOs, "/tmp/"), "/tmp/openless-sherpa-onnx/paraformer-zh");
    assert_eq!(dir(Platform::Linux, ""), "openless-sherpa-onnx/paraformer-zh");
    assert!(model_dir_for_alias(Platform::Windows, "C:\\models", "../etc").is_err());
}

#[test]
fn a_failed_preparation_says_why() {
    let failed =
        SherpaPrepareProgressPayload::failed("a".into(), "load".into(), "no memory".into());
    assert_eq!(failed.phase, SherpaPreparePhase::Failed);
    assert_eq!(failed.error.as_deref(), Some("no memory"));
}
