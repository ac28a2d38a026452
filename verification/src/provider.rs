//! The values exchanged with the remote translation provider, and the
//! classification of how one provider interaction can end.
//!
//! The transport itself (an HTTP form-encoded POST to the provider's
//! endpoint) lives in the host shell; this module only fixes the shapes
//! that the translator reasons about.

use vstd::prelude::*;

verus! {

/// One candidate translation returned by the provider.
#[derive(Debug)]
pub struct Translation {
    /// The source language the provider detected for the request's text.
    pub detected_source_language: String,
    /// The translated text.
    pub text: String,
}

/// The decoded body of a provider response: an ordered sequence of
/// candidate translations. Only the first candidate is ever consulted;
/// the provider is expected to return at most one per request.
#[derive(Debug)]
pub struct TranslationResponse {
    pub translations: Vec<Translation>,
}

/// One outbound translation request, ready to be carried to the provider
/// by the host shell: the phrase's text, the fixed language pair, and the
/// credential for the request's authorization header.
#[derive(Debug)]
pub struct ProviderRequest {
    pub text: String,
    pub source_lang: String,
    pub target_lang: String,
    pub auth_key: String,
}

/// How one provider interaction ended, as reported back by the transport.
#[derive(Debug)]
pub enum ProviderOutcome {
    /// The request could not be sent, or no response was received.
    TransportFailure,
    /// A response was received, but its body was not the expected shape.
    DecodeFailure,
    /// A response was received and decoded.
    Response(TranslationResponse),
}

/// The error taxonomy a translation request surfaces to its caller.
/// None of these is retried automatically.
#[derive(Debug, Clone, Copy, PartialEq, Eq, Structural)]
pub enum TranslationError {
    /// The provider credential is absent from the process configuration;
    /// no remote translation can be performed.
    MissingCredential,
    /// The remote call could not be completed.
    Transport,
    /// The response body did not match the expected shape.
    Decode,
    /// The provider returned zero translation candidates.
    EmptyResult,
}

} // verus!
