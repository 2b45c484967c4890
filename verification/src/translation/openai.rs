//! The OpenAI-compatible chat completion translator: its endpoint, the
//! request it sends, and what it makes of the cache and of the reply.
use crate::text::{concat, owned, str_ends_with, str_replace, str_trim, str_trim_end_char};
use crate::text::{contains, ends_with, lemma_replace_without_match, replace_all, trim, trim_end_char};
use crate::text::{lemma_trim_end_char, lemma_trim_strips, stripped_of};
use crate::translation::TranslationProviderConfig;
use vstd::prelude::*;

verus! {

/// A translator talking to an OpenAI-compatible chat completion service.
#[derive(Debug, Clone)]
pub struct OpenAITranslator {
    name: String,
    display_name: String,
    target_lang: String,
    api_url: String,
    api_key: String,
    model: String,
    system_prompt: String,
}

/// The content of a translator.
pub struct TranslatorView {
    pub name: Seq<char>,
    pub display_name: Seq<char>,
    pub target_lang: Seq<char>,
    pub api_url: Seq<char>,
    pub api_key: Seq<char>,
    pub model: Seq<char>,
    pub system_prompt: Seq<char>,
}

impl View for OpenAITranslator {
    type V = TranslatorView;

    closed spec fn view(&self) -> TranslatorView {
        TranslatorView {
            name: self.name@,
            display_name: self.display_name@,
            target_lang: self.target_lang@,
            api_url: self.api_url@,
            api_key: self.api_key@,
            model: self.model@,
            system_prompt: self.system_prompt@,
        }
    }
}

/// The translator made from the provider configuration `p`: its base URL
/// loses every trailing `/`, all else is taken as configured.
pub open spec fn translator_for(p: TranslationProviderConfig) -> TranslatorView {
    TranslatorView {
        name: p.name@,
        display_name: p.display_name@,
        target_lang: p.target_lang@,
        api_url: trim_end_char(p.api_url@, '/'),
        api_key: p.api_key@,
        model: p.model@,
        system_prompt: p.system_prompt@,
    }
}

/// The path every chat completion request goes to.
pub open spec fn completions_path() -> Seq<char> {
    "/chat/completions"@
}

/// The URL requests are sent to: the base URL itself where it already names
/// the chat completion path, otherwise that path appended to it.
pub open spec fn endpoint_of(api_url: Seq<char>) -> Seq<char> {
    if ends_with(api_url, completions_path()) {
        api_url
    } else {
        trim_end_char(api_url, '/') + completions_path()
    }
}

/// The system prompt for text in the language `source`, to be rendered in
/// `target`: the placeholders `{source_lang}` and `{target_lang}` are filled in, in that order.
pub open spec fn prompt_for(template: Seq<char>, source: Seq<char>, target: Seq<char>) -> Seq<
    char,
> {
    replace_all(replace_all(template, "{source_lang}"@, source), "{target_lang}"@, target)
}

/// The limit on the length of a translation that each request sets.
pub open spec fn max_tokens_limit() -> u32 {
    2048
}

/// `req` is the request translator `t` sends to translate `text` from `source`:
/// sent to the endpoint with the key as bearer token, naming the model,
/// with the filled-in prompt as system message and the text as user message.
pub open spec fn is_request_for(t: TranslatorView, text: Seq<char>, source: Seq<char>, req: ChatRequest) -> bool {
    &&& req.endpoint@ == endpoint_of(t.api_url)
    &&& req.authorization@ == "Bearer "@ + t.api_key
    &&& req.model@ == t.model
    &&& req.system_prompt@ == prompt_for(t.system_prompt, source, t.target_lang)
    &&& req.user_text@ == text
    &&& req.max_tokens == max_tokens_limit()
}

/// A chat completion request for one translation.
#[derive(Debug, Clone)]
pub struct ChatRequest {
    pub endpoint: String,
    pub authorization: String,
    pub model: String,
    pub system_prompt: String,
    pub user_text: String,
    pub max_tokens: u32,
}

/// What a cache lookup leads to.
#[derive(Debug, Clone)]
pub enum CacheLookup {
    /// The cached translation is the answer.
    Hit(String),
    /// The service must be asked.
    Miss(ChatRequest),
}

/// What came back from the service.
#[derive(Debug, Clone)]
pub enum ChatReply {
    /// The request could not be made or was refused (with the reason).
    RequestFailed(String),
    /// The answer was not JSON (with the reason).
    BadJson(String),
    /// The answer's `choices[0].message.content`, where it is a string.
    Content(Option<String>),
}

/// Why a translation failed.
#[derive(Debug, Clone, PartialEq, Eq)]
pub enum TranslateError {
    RequestFailed(String),
    BadJson(String),
    UnexpectedFormat,
}

/// The message of a translation error.
pub open spec fn translate_error_message(e: TranslateError) -> Seq<char> {
    match e {
        TranslateError::RequestFailed(r) => "OpenAI request failed: "@ + r@,
        TranslateError::BadJson(r) => "bad JSON response: "@ + r@,
        TranslateError::UnexpectedFormat => "unexpected OpenAI response format"@,
    }
}

impl TranslateError {
    /// The message that reports this error.
    pub fn message(&self) -> (m: String)
        ensures
            m@ == translate_error_message(*self),
    {
        match self {
            TranslateError::RequestFailed(r) => concat("OpenAI request failed: ", r.as_str()),
            TranslateError::BadJson(r) => concat("bad JSON response: ", r.as_str()),
            TranslateError::UnexpectedFormat => owned("unexpected OpenAI response format"),
        }
    }
}

/// The translation a reply yields, or why it yields none: the content, with
/// surrounding white space removed.
pub open spec fn reply_outcome(reply: ChatReply) -> Result<Seq<char>, TranslateError> {
    match reply {
        ChatReply::RequestFailed(r) => Err(TranslateError::RequestFailed(r)),
        ChatReply::BadJson(r) => Err(TranslateError::BadJson(r)),
        ChatReply::Content(None) => Err(TranslateError::UnexpectedFormat),
        ChatReply::Content(Some(c)) => Ok(trim(c@)),
    }
}

impl OpenAITranslator {
    /// The translator for the provider configuration `config`.
    pub fn new(config: &TranslationProviderConfig) -> (t: OpenAITranslator)
        ensures
            t@ == translator_for(*config),
    {
        OpenAITranslator {
            name: config.name.clone(),
            display_name: config.display_name.clone(),
            target_lang: config.target_lang.clone(),
            api_url: str_trim_end_char(config.api_url.as_str(), '/'),
            api_key: config.api_key.clone(),
            model: config.model.clone(),
            system_prompt: config.system_prompt.clone(),
        }
    }

    /// The provider's identifier.
    pub fn name(&self) -> (r: &str)
        ensures
            r@ == self@.name,
    {
        self.name.as_str()
    }

    /// The provider's name as shown to the user.
    pub fn display_name(&self) -> (r: &str)
        ensures
            r@ == self@.display_name,
    {
        self.display_name.as_str()
    }

    /// The language translations are made into.
    pub fn target_lang(&self) -> (r: &str)
        ensures
            r@ == self@.target_lang,
    {
        self.target_lang.as_str()
    }

    /// The URL requests are sent to.
    pub fn endpoint(&self) -> (r: String)
        ensures
            r@ == endpoint_of(self@.api_url),
    {
        if str_ends_with(self.api_url.as_str(), "/chat/completions") {
            self.api_url.clone()
        } else {
            let base = str_trim_end_char(self.api_url.as_str(), '/');
            concat(base.as_str(), "/chat/completions")
        }
    }

    /// The request for `text`, written in `source_lang`, to be rendered in the
    /// target language.
    pub fn request(&self, text: &str, source_lang: &str) -> (r: ChatRequest)
        ensures
            is_request_for(self@, text@, source_lang@, r),
    {
        proof {
            reveal_strlit("{source_lang}");
            reveal_strlit("{target_lang}");
        }
        let filled = str_replace(self.system_prompt.as_str(), "{source_lang}", source_lang);
        let prompt = str_replace(filled.as_str(), "{target_lang}", self.target_lang.as_str());
        ChatRequest {
            endpoint: self.endpoint(),
            authorization: concat("Bearer ", self.api_key.as_str()),
            model: self.model.clone(),
            system_prompt: prompt,
            user_text: owned(text),
            max_tokens: 2048,
        }
    }

    /// What to do once the cache was asked for `text`: answer from the cache
    /// where it holds a translation, otherwise ask the service.
    pub fn after_cache_lookup(&self, cached: Option<String>, text: &str, source_lang: &str) -> (r:
        CacheLookup)
        ensures
            cached matches Some(c) ==> r == CacheLookup::Hit(c),
            cached is None ==> (r matches CacheLookup::Miss(req) && is_request_for(
                self@,
                text@,
                source_lang@,
                req,
            )),
    {
        match cached {
            Some(c) => CacheLookup::Hit(c),
            None => CacheLookup::Miss(self.request(text, source_lang)),
        }
    }
}

/// The translation a reply yields, or why it yields none.
pub fn finish_reply(reply: ChatReply) -> (r: Result<String, TranslateError>)
    ensures
        match (r, reply_outcome(reply)) {
            (Ok(t), Ok(s)) => t@ == s,
            (Err(e), Err(f)) => e == f,
            _ => false,
        },
{
    match reply {
        ChatReply::RequestFailed(reason) => Err(TranslateError::RequestFailed(reason)),
        ChatReply::BadJson(reason) => Err(TranslateError::BadJson(reason)),
        ChatReply::Content(None) => Err(TranslateError::UnexpectedFormat),
        ChatReply::Content(Some(c)) => Ok(str_trim(c.as_str())),
    }
}

/// A prompt template without placeholders is sent exactly as configured.
pub proof fn lemma_prompt_without_placeholders(template: Seq<char>, source: Seq<char>, target: Seq<char>)
    requires
        !contains(template, "{source_lang}"@),
        !contains(template, "{target_lang}"@),
    ensures
        prompt_for(template, source, target) == template,
{
    reveal_strlit("{source_lang}");
    reveal_strlit("{target_lang}");
    lemma_replace_without_match(template, "{source_lang}"@, source);
    lemma_replace_without_match(template, "{target_lang}"@, target);
}

/// Every request goes to a URL that ends with the chat completion path.
pub proof fn lemma_endpoint_ends_with_completions(api_url: Seq<char>)
    ensures
        ends_with(endpoint_of(api_url), completions_path()),
{
    let e = endpoint_of(api_url);
    if !ends_with(api_url, completions_path()) {
        let base = trim_end_char(api_url, '/');
        assert(e.skip(e.len() - completions_path().len()) =~= completions_path());
    }
}

/// A URL that is already an endpoint is its own endpoint: taking the endpoint
/// twice changes nothing.
pub proof fn lemma_endpoint_idempotent(api_url: Seq<char>)
    ensures
        endpoint_of(endpoint_of(api_url)) == endpoint_of(api_url),
{
    lemma_endpoint_ends_with_completions(api_url);
}

/// A reply with content yields that content with the white space around it
/// cut off and nothing else changed; the other replies yield their error.
pub proof fn lemma_reply_trimmed(reply: ChatReply)
    ensures
        reply matches ChatReply::Content(Some(c)) ==> (reply_outcome(reply) matches Ok(t)
            && stripped_of(c@, t)),
        reply matches ChatReply::Content(None) ==> reply_outcome(reply) == Err::<
            Seq<char>,
            TranslateError,
        >(TranslateError::UnexpectedFormat),
        reply matches ChatReply::RequestFailed(r) ==> reply_outcome(reply) == Err::<
            Seq<char>,
            TranslateError,
        >(TranslateError::RequestFailed(r)),
        reply matches ChatReply::BadJson(r) ==> reply_outcome(reply) == Err::<
            Seq<char>,
            TranslateError,
        >(TranslateError::BadJson(r)),
{
    if let ChatReply::Content(Some(c)) = reply {
        lemma_trim_strips(c@);
    }
}

/// A translator keeps its provider's configuration as it is, except that
/// the base URL loses the `/` characters at its end, and only those.
pub proof fn lemma_translator_keeps_config(p: TranslationProviderConfig)
    ensures
        ({
            let t = translator_for(p);
            &&& t.name == p.name@
            &&& t.display_name == p.display_name@
            &&& t.target_lang == p.target_lang@
            &&& t.api_key == p.api_key@
            &&& t.model == p.model@
            &&& t.system_prompt == p.system_prompt@
            &&& t.api_url.len() <= p.api_url@.len()
            &&& t.api_url == p.api_url@.take(t.api_url.len() as int)
            &&& forall|i: int| t.api_url.len() <= i < p.api_url@.len() ==> #[trigger] p.api_url@[i] == '/'
            &&& t.api_url.len() > 0 ==> t.api_url.last() != '/'
        }),
{
    lemma_trim_end_char(p.api_url@, '/');
}

} // verus!
