//! The translator: resolves a phrase through the cache first, and on a
//! miss builds the provider request and interprets the call's outcome.
//!
//! A single translation request runs in two halves around the remote call,
//! so that the host shell never holds the cache across network traffic:
//! `begin_translate` consults the cache and either answers at once or
//! hands back the request to carry to the provider; `finish_translate`
//! classifies the outcome, populates the cache exactly on success, and
//! returns the result or a classified error.

use vstd::prelude::*;

use crate::cache::PhraseCache;
use crate::provider::ProviderOutcome;
use crate::provider::ProviderRequest;
use crate::provider::TranslationError;

verus! {

/// What a translation request needs next, after the cache and the process
/// configuration have been consulted.
pub enum TranslateStep {
    /// The phrase was cached; its translation is returned with no remote call.
    Hit(String),
    /// The phrase is not cached and no remote call can be made.
    Rejected(TranslationError),
    /// The phrase is not cached: this request must be carried to the
    /// provider, and the outcome handed to `finish_translate`.
    CallProvider(ProviderRequest),
}

/// Resolves phrases to translations, using the cache as the fast path and
/// the remote provider as the source of truth on a miss. Owns the cache
/// for the lifetime of the process; its abstract value is the cache's map.
pub struct Translator {
    cache: PhraseCache,
}

impl View for Translator {
    type V = Map<Seq<char>, Seq<char>>;

    closed spec fn view(&self) -> Map<Seq<char>, Seq<char>> {
        self.cache@
    }
}

impl Translator {
    /// A translator over an empty cache.
    pub fn new() -> (translator: Translator)
        ensures
            translator@ == Map::<Seq<char>, Seq<char>>::empty(),
    {
        Translator { cache: PhraseCache::new() }
    }

    /// The cache, for direct inspection.
    pub fn cache(&self) -> (cache: &PhraseCache)
        ensures
            cache@ == self@,
    {
        &self.cache
    }

    /// Start translating `phrase`: a cached phrase is answered immediately
    /// and triggers no remote call; an uncached phrase yields the provider
    /// request for exactly that phrase and the fixed language pair, or is
    /// rejected outright when the credential is absent.
    pub fn begin_translate(&self, phrase: &str, credential: Option<&str>) -> (step: TranslateStep)
        requires
            phrase@.len() > 0,
        ensures
            match step {
                TranslateStep::Hit(translation) => self@.contains_key(phrase@)
                    && translation@ == self@[phrase@],
                TranslateStep::Rejected(error) => !self@.contains_key(phrase@)
                    && credential is None
                    && error == TranslationError::MissingCredential,
                TranslateStep::CallProvider(request) => {
                    &&& !self@.contains_key(phrase@)
                    &&& credential matches Some(key) && request.auth_key@ == key@
                    &&& request.text@ == phrase@
                    &&& request.source_lang@ == "EN"@
                    &&& request.target_lang@ == "JA"@
                },
            },
    {
        match self.cache.lookup(phrase) {
            Some(translation) => TranslateStep::Hit(translation),
            None => match credential {
                None => TranslateStep::Rejected(TranslationError::MissingCredential),
                Some(key) => TranslateStep::CallProvider(
                    ProviderRequest {
                        text: phrase.to_owned(),
                        source_lang: "EN".to_owned(),
                        target_lang: "JA".to_owned(),
                        auth_key: key.to_owned(),
                    },
                ),
            },
        }
    }

    /// Interpret the outcome of the provider call issued for `phrase`:
    /// a transport failure, an undecodable body and an empty candidate
    /// list each yield their error and leave the cache untouched; a
    /// response with candidates yields the first candidate's text, and
    /// stores exactly that mapping in the cache.
    pub fn finish_translate(&mut self, phrase: &str, outcome: ProviderOutcome) -> (result: Result<
        String,
        TranslationError,
    >)
        requires
            phrase@.len() > 0,
        ensures
            match outcome {
                ProviderOutcome::TransportFailure => result == Err::<String, TranslationError>(
                    TranslationError::Transport,
                ) && final(self)@ == old(self)@,
                ProviderOutcome::DecodeFailure => result == Err::<String, TranslationError>(
                    TranslationError::Decode,
                ) && final(self)@ == old(self)@,
                ProviderOutcome::Response(response) => if response.translations@.len() == 0 {
                    result == Err::<String, TranslationError>(TranslationError::EmptyResult)
                        && final(self)@ == old(self)@
                } else {
                    result matches Ok(translation)
                        && translation@ == response.translations@[0].text@
                        && final(self)@ == old(self)@.insert(
                        phrase@,
                        response.translations@[0].text@,
                    )
                },
            },
    {
        match outcome {
            ProviderOutcome::TransportFailure => Err(TranslationError::Transport),
            ProviderOutcome::DecodeFailure => Err(TranslationError::Decode),
            ProviderOutcome::Response(response) => {
                if response.translations.len() == 0 {
                    Err(TranslationError::EmptyResult)
                } else {
                    let translation = response.translations[0].text.clone();
                    self.cache.insert(phrase, translation.as_str());
                    Ok(translation)
                }
            },
        }
    }
}

/// A successful translation is cached exactly: once the cache is extended
/// with the translation `value` returned for `phrase`, it contains `phrase`
/// and maps it to `value`. Hence a direct lookup of `phrase` yields exactly
/// the value the call returned, and any later request for the same phrase
/// is a cache hit carrying the identical value, issuing no further provider
/// request.
pub proof fn lemma_cached_translation_round_trip(
    cache: Map<Seq<char>, Seq<char>>,
    phrase: Seq<char>,
    value: Seq<char>,
)
    ensures
        cache.insert(phrase, value).contains_key(phrase),
        cache.insert(phrase, value)[phrase] == value,
{
}

/// Translations of distinct phrases are independent: completing a
/// translation of `phrase` neither adds nor alters a cache entry for any
/// `other` phrase, so each uncached phrase still triggers its own provider
/// request, with no cross-phrase contamination.
pub proof fn lemma_distinct_phrases_independent(
    cache: Map<Seq<char>, Seq<char>>,
    phrase: Seq<char>,
    value: Seq<char>,
    other: Seq<char>,
)
    requires
        other != phrase,
    ensures
        cache.insert(phrase, value).contains_key(other) == cache.contains_key(other),
        cache.contains_key(other) ==> cache.insert(phrase, value)[other] == cache[other],
{
}

} // verus!
