//! Translation of final transcripts through configured providers.
use crate::text::owned;
use vstd::prelude::*;

pub mod cache;
pub mod openai;

pub use cache::CacheEntry;
pub use openai::OpenAITranslator;

verus! {

/// One translation provider as the client configures it.
#[derive(Debug, Clone)]
pub struct TranslationProviderConfig {
    pub name: String,
    pub display_name: String,
    pub provider_type: String,
    pub enabled: bool,
    pub api_url: String,
    pub api_key: String,
    pub model: String,
    pub target_lang: String,
    pub system_prompt: String,
}

/// Whether translation is on, and through which providers.
#[derive(Debug, Clone)]
pub struct TranslationConfig {
    pub enabled: bool,
    pub providers: Vec<TranslationProviderConfig>,
}

/// One provider's translation of one final transcript.
#[derive(Debug, Clone)]
pub struct TranslationResult {
    pub original: String,
    pub provider_name: String,
    pub provider_display: String,
    pub text: String,
    pub target_lang: String,
}

/// A translation service.
pub trait Translator: Send {
    /// The provider's identifier.
    fn name(&self) -> &str;

    /// The provider's name as shown to the user.
    fn display_name(&self) -> &str;

    /// The language translations are made into.
    fn target_lang(&self) -> &str;

    /// `text`, written in `source_lang`, in the target language.
    fn translate(&self, text: &str, source_lang: &str) -> Result<String, openai::TranslateError>;
}

/// The prompt a provider uses where its configuration names none.
pub open spec fn default_prompt() -> Seq<char> {
    "Translate the following text from {source_lang} to {target_lang}. Only output the translation, nothing else."@
}

/// The prompt a provider uses where its configuration names none.
pub fn default_system_prompt() -> (s: String)
    ensures
        s@ == default_prompt(),
{
    owned(
        "Translate the following text from {source_lang} to {target_lang}. Only output the translation, nothing else.",
    )
}

impl TranslationConfig {
    /// Translation off, with no providers.
    pub fn empty() -> (c: TranslationConfig)
        ensures
            !c.enabled,
            c.providers@.len() == 0,
    {
        TranslationConfig { enabled: false, providers: Vec::new() }
    }
}

impl Default for TranslationConfig {
    /// Translation off, with no providers.
    fn default() -> (c: TranslationConfig)
        ensures
            !c.enabled,
            c.providers@.len() == 0,
    {
        TranslationConfig::empty()
    }
}

/// The translators of the enabled providers among `ps`, in order.
pub open spec fn enabled_translators(ps: Seq<TranslationProviderConfig>) -> Seq<
    openai::TranslatorView,
>
    decreases ps.len(),
{
    if ps.len() == 0 {
        Seq::empty()
    } else {
        let rest = enabled_translators(ps.drop_last());
        if ps.last().enabled {
            rest.push(openai::translator_for(ps.last()))
        } else {
            rest
        }
    }
}

/// One translator for each enabled provider of `config`, in the order the
/// providers are listed.  Every provider type is served by the
/// OpenAI-compatible chat completion client.
pub fn create_translators(config: &TranslationConfig) -> (ts: Vec<OpenAITranslator>)
    ensures
        ts@.map_values(|t: OpenAITranslator| t@) == enabled_translators(config.providers@),
{
    let mut ts: Vec<OpenAITranslator> = Vec::new();
    let mut i: usize = 0;
    while i < config.providers.len()
        invariant
            i <= config.providers.len(),
            ts@.map_values(|t: OpenAITranslator| t@) == enabled_translators(
                config.providers@.take(i as int),
            ),
        decreases config.providers.len() - i,
    {
        let ghost before = ts@;
        let p = &config.providers[i];
        assert(config.providers@.take(i + 1).drop_last() =~= config.providers@.take(i as int));
        if p.enabled {
            let t = OpenAITranslator::new(p);
            ts.push(t);
            assert(ts@.map_values(|t: OpenAITranslator| t@) =~= before.map_values(
                |t: OpenAITranslator| t@,
            ).push(t@));
        }
        i = i + 1;
    }
    assert(config.providers@.take(config.providers@.len() as int) =~= config.providers@);
    ts
}

/// A translator is made for a provider exactly when the provider is enabled,
/// and the translators keep the providers' order: each one is the translator
/// of the enabled provider at its place.
pub proof fn lemma_translators_of_enabled_providers(ps: Seq<TranslationProviderConfig>)
    ensures
        enabled_translators(ps).len() <= ps.len(),
        (forall|i: int| 0 <= i < ps.len() ==> !(#[trigger] ps[i]).enabled) ==> enabled_translators(
            ps,
        ).len() == 0,
        (forall|i: int| 0 <= i < ps.len() ==> (#[trigger] ps[i]).enabled) ==> enabled_translators(
            ps,
        ) == ps.map_values(|p: TranslationProviderConfig| openai::translator_for(p)),
    decreases ps.len(),
{
    if ps.len() > 0 {
        lemma_translators_of_enabled_providers(ps.drop_last());
        let rest = ps.drop_last();
        if forall|i: int| 0 <= i < ps.len() ==> (#[trigger] ps[i]).enabled {
            assert(forall|i: int| 0 <= i < rest.len() ==> (#[trigger] rest[i]).enabled) by {
                assert forall|i: int| 0 <= i < rest.len() implies (#[trigger] rest[i]).enabled by {
                    assert(rest[i] == ps[i]);
                }
            }
            assert(ps.last() == ps[ps.len() - 1]);
            assert(ps.map_values(|p: TranslationProviderConfig| openai::translator_for(p))
                =~= rest.map_values(|p: TranslationProviderConfig| openai::translator_for(p)).push(
                openai::translator_for(ps.last()),
            ));
        }
        if forall|i: int| 0 <= i < ps.len() ==> !(#[trigger] ps[i]).enabled {
            assert(forall|i: int| 0 <= i < rest.len() ==> !(#[trigger] rest[i]).enabled) by {
                assert forall|i: int| 0 <= i < rest.len() implies !(#[trigger] rest[i]).enabled by {
                    assert(rest[i] == ps[i]);
                }
            }
            assert(!ps[ps.len() - 1].enabled);
        }
    }
}

} // verus!
