//! Language-model providers and the service that dispatches to them.
use vstd::prelude::*;
use crate::model::{stored_key, AuthConfig, Provider};

verus! {

/// Why a provider gave no answer.
#[derive(Debug, Clone, Copy, PartialEq, Eq, Structural)]
pub enum AiError {
    /// No client is configured for the provider.
    NotConfigured,
    /// No API key is stored for the provider.
    MissingCredentials { provider: Provider },
}

/// The text of an [`AiError`].
pub open spec fn ai_error_text(e: AiError) -> Seq<char> {
    match e {
        AiError::NotConfigured => "Provider not configured"@,
        AiError::MissingCredentials { .. } => "no API key configured for this provider"@,
    }
}

impl AiError {
    /// The text of this error.
    pub fn message(&self) -> (r: String)
        ensures
            r@ == ai_error_text(*self),
    {
        match self {
            AiError::NotConfigured => "Provider not configured".to_owned(),
            AiError::MissingCredentials { .. } => "no API key configured for this provider".to_owned(),
        }
    }
}

/// A client that answers prompts.
pub trait ProviderClient {
    fn generate(&self, prompt: &str) -> (r: Result<String, AiError>);
}

/// The Anthropic client.
#[derive(Debug, Clone, Copy)]
pub struct AnthropicClient;

/// The OpenAI client.
#[derive(Debug, Clone, Copy)]
pub struct OpenAiClient;

/// The Gemini client.
#[derive(Debug, Clone, Copy)]
pub struct GeminiClient;

fn labelled(label: &str, prompt: &str) -> (r: String)
    ensures
        r@ == label@ + prompt@,
{
    let mut s = label.to_owned();
    s.append(prompt);
    s
}

impl ProviderClient for AnthropicClient {
    /// Answers with the prompt, marked as coming from Anthropic.
    fn generate(&self, prompt: &str) -> (r: Result<String, AiError>)
        ensures
            r matches Ok(s) && s@ == "[anthropic] "@ + prompt@,
    {
        Ok(labelled("[anthropic] ", prompt))
    }
}

impl ProviderClient for OpenAiClient {
    /// Answers with the prompt, marked as coming from OpenAI.
    fn generate(&self, prompt: &str) -> (r: Result<String, AiError>)
        ensures
            r matches Ok(s) && s@ == "[openai] "@ + prompt@,
    {
        Ok(labelled("[openai] ", prompt))
    }
}

impl ProviderClient for GeminiClient {
    /// Answers with the prompt, marked as coming from Gemini.
    fn generate(&self, prompt: &str) -> (r: Result<String, AiError>)
        ensures
            r matches Ok(s) && s@ == "[gemini] "@ + prompt@,
    {
        Ok(labelled("[gemini] ", prompt))
    }
}

/// One of the built-in clients.
#[derive(Debug, Clone, Copy)]
pub enum BuiltinClient {
    Anthropic(AnthropicClient),
    OpenAi(OpenAiClient),
    Gemini(GeminiClient),
}

/// The mark a built-in client puts before the prompt it answers.
pub open spec fn client_label(c: BuiltinClient) -> Seq<char> {
    match c {
        BuiltinClient::Anthropic(_) => "[anthropic] "@,
        BuiltinClient::OpenAi(_) => "[openai] "@,
        BuiltinClient::Gemini(_) => "[gemini] "@,
    }
}

impl BuiltinClient {
    /// Answers `prompt` with this client.
    pub fn generate(&self, prompt: &str) -> (r: Result<String, AiError>)
        ensures
            r matches Ok(s) && s@ == client_label(*self) + prompt@,
    {
        match self {
            BuiltinClient::Anthropic(c) => c.generate(prompt),
            BuiltinClient::OpenAi(c) => c.generate(prompt),
            BuiltinClient::Gemini(c) => c.generate(prompt),
        }
    }
}

/// A provider together with the client that serves it.
#[derive(Debug, Clone, Copy)]
pub struct ProviderEntry {
    pub provider: Provider,
    pub client: BuiltinClient,
}

/// The client that serves `provider` among `entries`: the first one listed for it.
pub open spec fn client_among(entries: Seq<ProviderEntry>, provider: Provider) -> Option<BuiltinClient>
    decreases entries.len(),
{
    if entries.len() == 0 {
        None
    } else if entries[0].provider == provider {
        Some(entries[0].client)
    } else {
        client_among(entries.drop_first(), provider)
    }
}

/// Dispatches prompts to the configured provider clients.
#[derive(Debug, Clone)]
pub struct AiService {
    clients: Vec<ProviderEntry>,
}

impl AiService {
    /// The client that serves `provider`, if one is configured.
    pub closed spec fn client_for(self, provider: Provider) -> Option<BuiltinClient> {
        client_among(self.clients@, provider)
    }

    /// A service with the built-in client of every provider.
    pub fn new_default() -> (r: AiService)
        ensures
            r.client_for(Provider::Anthropic) == Some(BuiltinClient::Anthropic(AnthropicClient)),
            r.client_for(Provider::OpenAi) == Some(BuiltinClient::OpenAi(OpenAiClient)),
            r.client_for(Provider::Gemini) == Some(BuiltinClient::Gemini(GeminiClient)),
    {
        let mut clients: Vec<ProviderEntry> = Vec::new();
        clients.push(ProviderEntry { provider: Provider::Anthropic, client: BuiltinClient::Anthropic(AnthropicClient) });
        clients.push(ProviderEntry { provider: Provider::OpenAi, client: BuiltinClient::OpenAi(OpenAiClient) });
        clients.push(ProviderEntry { provider: Provider::Gemini, client: BuiltinClient::Gemini(GeminiClient) });
        let r = AiService { clients };
        proof {
            let e = r.clients@;
            assert(e.drop_first().drop_first().drop_first() =~= Seq::<ProviderEntry>::empty());
            assert(client_among(e.drop_first().drop_first(), Provider::Gemini) == Some(BuiltinClient::Gemini(GeminiClient)));
            assert(client_among(e.drop_first(), Provider::OpenAi) == Some(BuiltinClient::OpenAi(OpenAiClient)));
            assert(client_among(e.drop_first(), Provider::Gemini) == Some(BuiltinClient::Gemini(GeminiClient)));
        }
        r
    }

    /// The answer of `provider`'s client to `prompt`; a provider without a
    /// client is refused.
    pub fn generate(&self, provider: Provider, prompt: &str) -> (r: Result<String, AiError>)
        ensures
            match self.client_for(provider) {
                Some(c) => r matches Ok(s) && s@ == client_label(c) + prompt@,
                None => r == Err::<String, AiError>(AiError::NotConfigured),
            },
    {
        let mut i: usize = 0;
        assert(self.clients@.skip(0) =~= self.clients@);
        while i < self.clients.len()
            invariant
                i <= self.clients@.len(),
                client_among(self.clients@, provider) == client_among(self.clients@.skip(i as int), provider),
            decreases self.clients.len() - i,
        {
            let entry = self.clients[i];
            assert(self.clients@.skip(i as int).drop_first() =~= self.clients@.skip(i + 1));
            if entry.provider == provider {
                return entry.client.generate(prompt);
            }
            i = i + 1;
        }
        Err(AiError::NotConfigured)
    }

    /// The answer of `provider`'s client to `prompt`, asked only when `auth`
    /// holds a key for the provider.
    pub fn generate_with_auth(&self, provider: Provider, prompt: &str, auth: &AuthConfig) -> (r: Result<String, AiError>)
        ensures
            stored_key(*auth, provider) is None ==> r == Err::<String, AiError>(
                AiError::MissingCredentials { provider },
            ),
            stored_key(*auth, provider) is Some ==> match self.client_for(provider) {
                Some(c) => r matches Ok(s) && s@ == client_label(c) + prompt@,
                None => r == Err::<String, AiError>(AiError::NotConfigured),
            },
    {
        if auth.key_for(provider).is_none() {
            return Err(AiError::MissingCredentials { provider });
        }
        self.generate(provider, prompt)
    }
}

} // verus!
