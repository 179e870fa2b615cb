//! The capability-typed client: resolved properties, a retry-policy
//! reference, and the shared diagnostic call counter.  The client builds
//! every request under contract; the transport that sends them lives
//! outside the library.

use vstd::prelude::*;
use crate::config::ClientConfig;
use crate::prompt::{message_eq, RenderedMessage, RenderedPrompt};
use crate::request::{
    build_chat_body, build_request_headers, chat_endpoint, is_chat_body, request_headers_view,
};
use crate::resolve::{
    api_key_view, bad_header_view, base_url_view, first_unresolvable, headers_match, headers_view,
    headers_wf, passthrough_view, props_match, resolve_properties, role_view, ResolveError,
    ResolvedProperties,
};
use crate::text::option_str_view;
use crate::value::Value;

verus! {

/// The operations a client advertises.
#[derive(Debug, Clone, Copy, PartialEq, Eq, Structural)]
pub struct ModelFeatures {
    pub chat: bool,
    pub completion: bool,
}

/// The identity a client hands to the prompt-rendering collaborator.
#[derive(Debug)]
pub struct ClientContext {
    pub name: String,
    pub provider: String,
}

/// What the prompt renderer needs from the client: the role given to
/// messages that carry none.
#[derive(Debug)]
pub struct ChatOptions {
    pub default_role: String,
}

/// Shared diagnostic state of one client: a call counter, incremented on
/// every streaming call, never reset.
#[derive(Debug)]
pub struct ClientState {
    pub call_count: u64,
}

impl ClientState {
    /// A fresh counter.
    pub fn new() -> (r: ClientState)
        ensures
            r.call_count == 0,
    {
        ClientState { call_count: 0 }
    }

    /// Counts one more call.
    pub fn increment(&mut self)
        requires
            old(self).call_count < u64::MAX,
        ensures
            final(self).call_count == old(self).call_count + 1,
    {
        self.call_count = self.call_count + 1;
    }
}

/// A fully built, not yet sent streaming request, together with the
/// session identity the stream's items will carry.
#[derive(Debug)]
pub struct SseResponse {
    /// Where to send it.
    pub url: String,
    /// The JSON body, with `stream: true` set.
    pub body: Value,
    /// Headers, authorization included.
    pub headers: Vec<(String, String)>,
    /// Name of the client that opened the session.
    pub client: String,
    /// The prompt of the session.
    pub prompt: Vec<RenderedMessage>,
}

/// A fully built, not yet sent single-shot request.
#[derive(Debug)]
pub struct PreparedRequest {
    pub url: String,
    pub body: Value,
    pub headers: Vec<(String, String)>,
}

/// A client for an OpenAI-style chat-completion API.
#[derive(Debug)]
pub struct OpenAIClient {
    pub retry_policy: Option<String>,
    pub context: ClientContext,
    pub features: ModelFeatures,
    pub properties: ResolvedProperties,
    pub state: ClientState,
}

impl OpenAIClient {
    /// Builds a client from a configuration: resolves its options and
    /// starts the call counter at zero.  Chat is advertised, completion
    /// is not.
    pub fn new(config: ClientConfig, env: &Vec<(String, String)>) -> (r: Result<
        OpenAIClient,
        ResolveError,
    >)
        ensures
            match r {
                Result::Ok(c) => {
                    &&& first_unresolvable(config.options@) is None
                    &&& headers_wf(config.options@)
                    &&& c.context.name@ == config.name@
                    &&& c.context.provider@ == config.provider@
                    &&& c.retry_policy == config.retry_policy
                    &&& c.features == (ModelFeatures { chat: true, completion: false })
                    &&& c.state.call_count == 0
                    &&& c.properties.default_role@ == role_view(config.options@)
                    &&& c.properties.base_url@ == base_url_view(config.options@)
                    &&& option_str_view(c.properties.api_key) == api_key_view(
                        config.options@,
                        env@,
                    )
                    &&& headers_match(c.properties.headers@, headers_view(config.options@))
                    &&& props_match(c.properties.properties@, passthrough_view(config.options@))
                },
                Result::Err(ResolveError::UnresolvableOption { client, key }) => {
                    &&& client@ == config.name@
                    &&& Some(key@) == first_unresolvable(config.options@)
                },
                Result::Err(ResolveError::NonStringHeader { key }) => {
                    &&& first_unresolvable(config.options@) is None
                    &&& Some(key@) == bad_header_view(config.options@)
                },
            },
    {
        let ClientConfig { name, provider, options, retry_policy } = config;
        let properties = match resolve_properties(&name, options, env) {
            Result::Ok(p) => p,
            Result::Err(e) => {
                return Result::Err(e);
            },
        };
        Result::Ok(
            OpenAIClient {
                retry_policy,
                context: ClientContext { name, provider },
                features: ModelFeatures { chat: true, completion: false },
                properties,
                state: ClientState::new(),
            },
        )
    }

    /// The name of the retry policy configured for this client, if any.
    pub fn retry_policy_name(&self) -> (r: Option<&String>)
        ensures
            match r {
                Some(s) => self.retry_policy == Some(*s),
                None => self.retry_policy is None,
            },
    {
        self.retry_policy.as_ref()
    }

    /// The identity handed to the prompt renderer.
    pub fn context(&self) -> (r: &ClientContext)
        ensures
            r == &self.context,
    {
        &self.context
    }

    /// The capability set this client advertises.
    pub fn model_features(&self) -> (r: &ModelFeatures)
        ensures
            r == &self.features,
    {
        &self.features
    }

    /// The resolved default role, for the prompt-rendering collaborator:
    /// the only read path back out of the client.
    pub fn chat_options(&self) -> (r: ChatOptions)
        ensures
            r.default_role@ == self.properties.default_role@,
    {
        ChatOptions { default_role: self.properties.default_role.clone() }
    }

    /// Builds a single-shot chat request: endpoint, body and headers.
    pub fn prepare_chat_request(&self, messages: &Vec<RenderedMessage>) -> (r: PreparedRequest)
        ensures
            r.url@ == self.properties.base_url@ + "/v1/chat/completions"@,
            is_chat_body(r.body, self.properties.properties@, messages@, false),
            headers_match(
                r.headers@,
                request_headers_view(self.properties.api_key, self.properties.headers@),
            ),
    {
        PreparedRequest {
            url: chat_endpoint(self.properties.base_url.as_str()),
            body: build_chat_body(&self.properties, messages, false),
            headers: build_request_headers(&self.properties),
        }
    }

    /// Builds a streaming chat request and counts the call.
    ///
    /// Only chat prompts can be streamed by this client; a completion
    /// prompt is rejected before any network contact, and then nothing —
    /// not even the counter — changes.
    pub fn stream_chat2(&mut self, prompt: &RenderedPrompt) -> (r: Result<
        SseResponse,
        StreamRequestError,
    >)
        requires
            old(self).state.call_count < u64::MAX,
        ensures
            final(self).retry_policy == old(self).retry_policy,
            final(self).context == old(self).context,
            final(self).features == old(self).features,
            final(self).properties == old(self).properties,
            match r {
                Result::Ok(sse) => {
                    &&& prompt matches RenderedPrompt::Chat(msgs) && {
                        &&& sse.prompt@.len() == msgs@.len()
                        &&& forall|i: int|
                            0 <= i < msgs@.len() ==> message_eq(
                                #[trigger] sse.prompt@[i],
                                msgs@[i],
                            )
                        &&& is_chat_body(sse.body, old(self).properties.properties@, msgs@, true)
                    }
                    &&& sse.url@ == old(self).properties.base_url@ + "/v1/chat/completions"@
                    &&& headers_match(
                        sse.headers@,
                        request_headers_view(
                            old(self).properties.api_key,
                            old(self).properties.headers@,
                        ),
                    )
                    &&& sse.client@ == old(self).context.name@
                    &&& final(self).state.call_count == old(self).state.call_count + 1
                },
                Result::Err(e) => {
                    &&& prompt is Completion
                    &&& e is NotAChatPrompt
                    &&& final(self).state.call_count == old(self).state.call_count
                },
            },
    {
        let msgs: &Vec<RenderedMessage> = match prompt {
            RenderedPrompt::Chat(msgs) => msgs,
            RenderedPrompt::Completion(_) => {
                return Result::Err(StreamRequestError::NotAChatPrompt);
            },
        };
        let url = chat_endpoint(self.properties.base_url.as_str());
        let body = build_chat_body(&self.properties, msgs, true);
        let headers = build_request_headers(&self.properties);
        let mut prompt_copy: Vec<RenderedMessage> = Vec::new();
        let mut i: usize = 0;
        while i < msgs.len()
            invariant
                i <= msgs.len(),
                prompt_copy@.len() == i,
                forall|j: int|
                    0 <= j < i ==> message_eq(#[trigger] prompt_copy@[j], msgs@[j]),
            decreases msgs.len() - i,
        {
            prompt_copy.push(msgs[i].clone());
            i = i + 1;
        }
        self.state.increment();
        Result::Ok(
            SseResponse {
                url,
                body,
                headers,
                client: self.context.name.clone(),
                prompt: prompt_copy,
            },
        )
    }
}

/// Why a streaming request could not be built.
#[derive(Debug, Clone, Copy, PartialEq, Eq, Structural)]
pub enum StreamRequestError {
    /// The rendered prompt is not a chat prompt.
    NotAChatPrompt,
}

impl StreamRequestError {
    /// The human-readable description of this error.
    pub fn message(&self) -> (m: String)
        ensures
            m@ == "Expected a chat prompt"@,
    {
        "Expected a chat prompt".to_owned()
    }
}

} // verus!
