use oncaptions_backend::translation::cache::{cache_key, decimal_string, hex_string, timestamp_text, unix_ts};
use oncaptions_backend::translation::openai::{finish_reply, CacheLookup, ChatReply, TranslateError};
use oncaptions_backend::translation::{
    create_translators, default_system_prompt, OpenAITranslator, TranslationConfig,
    TranslationProviderConfig,
};

fn provider(name: &str, enabled: bool, url: &str) -> TranslationProviderConfig {
    TranslationProviderConfig {
        name: name.to_string(),
        display_name: format!("{name} display"),
        provider_type: "openai".to_string(),
        enabled,
        api_url: url.to_string(),
        api_key: "test-key".to_string(),
        model: "gpt-4o-mini".to_string(),
        target_lang: "en".to_string(),
        system_prompt: default_system_prompt(),
    }
}

#[test]
fn default_prompt_text() {
    assert_eq!(
        default_system_prompt(),
        "Translate the following text from {source_lang} to {target_lang}. Only output the translation, nothing else."
    );
}

#[test]
fn only_enabled_providers_get_translators() {
    let mut other = provider("b", true, "https://b/");
    other.provider_type = "deepl".into();
    let cfg = TranslationConfig {
        enabled: true,
        providers: vec![provider("a", true, "https://a"), provider("off", false, "x"), other],
    };
    let ts = create_translators(&cfg);
    let names: Vec<&str> = ts.iter().map(|t| t.name()).collect();
    assert_eq!(names, vec!["a", "b"]);
    assert_eq!(ts[1].display_name(), "b display");
    assert_eq!(ts[1].target_lang(), "en");
    assert!(create_translators(&TranslationConfig::default()).is_empty());
}

#[test]
fn endpoints_end_with_the_completion_path() {
    let t = OpenAITranslator::new(&provider("a", true, "https://api.openai.com/v1///"));
    assert_eq!(t.endpoint(), "https://api.openai.com/v1/chat/completions");
    let t = OpenAITranslator::new(&provider("a", true, "https://host/v1/chat/completions/"));
    assert_eq!(t.endpoint(), "https://host/v1/chat/completions");
    let t = OpenAITranslator::new(&provider("a", true, ""));
    assert_eq!(t.endpoint(), "/chat/completions");
}

#[test]
fn requests_fill_in_the_prompt() {
    let t = OpenAITranslator::new(&provider("a", true, "https://h/v1"));
    let r = t.request("こんにちは", "ja");
    assert_eq!(r.endpoint, "https://h/v1/chat/completions");
    assert_eq!(r.authorization, "Bearer test-key");
    assert_eq!(r.model, "gpt-4o-mini");
    assert_eq!(
        r.system_prompt,
        "Translate the following text from ja to en. Only output the translation, nothing else."
    );
    assert_eq!(r.user_text, "こんにちは");
    assert_eq!(r.max_tokens, 2048);
}

#[test]
fn cache_hits_skip_the_service() {
    let t = OpenAITranslator::new(&provider("a", true, "https://h"));
    match t.after_cache_lookup(Some("hello".into()), "こんにちは", "ja") {
        CacheLookup::Hit(s) => assert_eq!(s, "hello"),
        other => panic!("unexpected {other:?}"),
    }
    match t.after_cache_lookup(None, "こんにちは", "ja") {
        CacheLookup::Miss(r) => assert_eq!(r.user_text, "こんにちは"),
        other => panic!("unexpected {other:?}"),
    }
}

#[test]
fn replies_become_translations_or_errors() {
    assert_eq!(finish_reply(ChatReply::Content(Some("  Hello \n".into()))), Ok("Hello".to_string()));
    let e = finish_reply(ChatReply::Content(None)).unwrap_err();
    assert_eq!(e, TranslateError::UnexpectedFormat);
    assert_eq!(e.message(), "unexpected OpenAI response format");
    let e = finish_reply(ChatReply::RequestFailed("timeout".into())).unwrap_err();
    assert_eq!(e.message(), "OpenAI request failed: timeout");
    let e = finish_reply(ChatReply::BadJson("eof".into())).unwrap_err();
    assert_eq!(e.message(), "bad JSON response: eof");
}

#[test]
fn number_formatting() {
    assert_eq!(hex_string(0), "0");
    assert_eq!(hex_string(255), "ff");
    assert_eq!(hex_string(u64::MAX), "ffffffffffffffff");
    assert_eq!(decimal_string(0), "0");
    assert_eq!(decimal_string(1725029869), "1725029869");
    assert_eq!(decimal_string(u64::MAX), u64::MAX.to_string());
}

#[test]
fn cache_keys_are_hex_hashes() {
    let k = cache_key("こんにちは");
    assert!(!k.is_empty() && k.len() <= 16);
    assert!(k.chars().all(|c| c.is_ascii_hexdigit() && !c.is_ascii_uppercase()));
    assert_eq!(k, cache_key("こんにちは"));
    assert_ne!(k, "こんにちは");
    assert_ne!(cache_key("a"), cache_key("b"));
}

#[test]
fn timestamps_are_decimal_seconds() {
    let ts = unix_ts();
    assert!(!ts.is_empty());
    assert!(ts.chars().all(|c| c.is_ascii_digit()));
    assert!(ts.parse::<u64>().unwrap() > 1_600_000_000);
}

#[test]
fn prompts_without_placeholders_are_sent_as_configured() {
    let mut p = provider("a", true, "https://h");
    p.system_prompt = "Translate into English.".into();
    let t = OpenAITranslator::new(&p);
    assert_eq!(t.request("x", "ja").system_prompt, "Translate into English.");
}

#[test]
fn timestamp_before_the_epoch_is_zero() {
    assert_eq!(timestamp_text(None), "0");
    assert_eq!(timestamp_text(Some(1725029869)), "1725029869");
}
