//! The inbound half of the codec and the error classifier: every
//! transport outcome of a single-shot call becomes either a typed
//! `LLMResult` or a hard `FatalError`, never both and never neither.

use vstd::prelude::*;
use vstd::string::StringExecFns;
use crate::prompt::RenderedPrompt;
use crate::status::{code_of_status, ErrorCode};
use crate::wire::{ChatCompletionResponse, CompletionUsage, FinishReason, OpenAIErrorResponse};

verus! {

/// The metadata bag of a successful response.
#[derive(Debug, Clone, Copy, PartialEq, Eq, Structural)]
pub struct ResponseMetadata {
    /// True when the completion finished naturally (no reason given, or a
    /// plain stop).
    pub baml_is_complete: bool,
    pub finish_reason: Option<FinishReason>,
    pub prompt_tokens: Option<u32>,
    pub output_tokens: Option<u32>,
    pub total_tokens: Option<u32>,
}

/// A successful call outcome: the extracted content plus diagnostics.
#[derive(Debug)]
pub struct CompleteResponse {
    pub client: String,
    pub prompt: RenderedPrompt,
    pub content: String,
    pub start_time_unix_ms: u64,
    pub latency_ms: u64,
    /// The model that served the call, as reported by the provider.
    pub model: String,
    pub metadata: ResponseMetadata,
}

/// A provider-reported failure, classified.
#[derive(Debug)]
pub struct ErrorResponse {
    pub client: String,
    pub prompt: RenderedPrompt,
    pub model: Option<String>,
    pub start_time_unix_ms: u64,
    pub latency_ms: u64,
    pub message: String,
    pub code: ErrorCode,
}

/// The uniform result of one call: exactly one variant per outcome.
#[derive(Debug)]
pub enum LLMResult {
    Success(CompleteResponse),
    Failure(ErrorResponse),
}

/// What the transport handed back for one single-shot attempt, once the
/// bytes were decoded by the caller.
#[derive(Debug)]
pub enum ChatOutcome {
    /// A 2xx response whose payload decoded.
    Completed(ChatCompletionResponse),
    /// A non-2xx response whose provider error payload decoded.
    ProviderError(u16, OpenAIErrorResponse),
    /// A non-2xx response whose payload did not decode.
    ProviderErrorUndecodable(u16, String),
    /// The request could not be built.
    BuildFailure(String),
    /// The request could not be sent or the reply not received.
    FetchFailure(String),
    /// A 2xx response whose payload did not decode.
    BodyDecodeFailure(String),
}

/// A fault local to this call: a programming or connectivity problem,
/// distinguishable from any LLM-reported failure.
#[derive(Debug)]
pub enum FatalError {
    /// The request never produced a decodable exchange.
    RequestFailed { detail: String },
    /// A non-2xx response did not carry the expected provider error shape.
    UnexpectedErrorShape { status: u16, detail: String },
}

impl FatalError {
    /// The human-readable description of this fault.
    pub fn message(&self) -> (m: String)
        ensures
            match self {
                FatalError::RequestFailed { detail } => m@ == "Failed to make request: "@
                    + detail@,
                FatalError::UnexpectedErrorShape { status, detail } => m@
                    == "Response does not conform to expected provider error shape: "@ + detail@,
            },
    {
        match self {
            FatalError::RequestFailed { detail } => {
                let mut m: String = "Failed to make request: ".to_owned();
                m.append(detail.as_str());
                m
            },
            FatalError::UnexpectedErrorShape { status: _, detail } => {
                let mut m: String = "Response does not conform to expected provider error shape: "
                    .to_owned();
                m.append(detail.as_str());
                m
            },
        }
    }
}

/// True when a finish reason counts as a naturally completed response:
/// absent, or a plain stop.
pub open spec fn finish_is_complete(fr: Option<FinishReason>) -> bool {
    match fr {
        None => true,
        Some(FinishReason::Stop) => true,
        Some(_) => false,
    }
}

/// The tokens of a usage field, carried over when present.
pub open spec fn usage_matches(meta: ResponseMetadata, usage: Option<CompletionUsage>) -> bool {
    match usage {
        Some(u) => meta.prompt_tokens == Some(u.prompt_tokens) && meta.output_tokens == Some(
            u.completion_tokens,
        ) && meta.total_tokens == Some(u.total_tokens),
        None => meta.prompt_tokens is None && meta.output_tokens is None && meta.total_tokens
            is None,
    }
}

/// The extracted content of a successful body: the first choice's text,
/// or empty when the provider sent none.
pub open spec fn content_view(body: ChatCompletionResponse) -> Seq<char> {
    match body.choices[0].message.content {
        Some(s) => s@,
        None => Seq::empty(),
    }
}

/// Interprets a decoded 2xx payload.
///
/// A response without a single choice is itself a `Failure` — never a
/// `Success` — carrying `Other(200)`; otherwise the first choice's
/// content, the reported model and the usage metadata are extracted.
pub fn handle_success_response(
    client: String,
    prompt: RenderedPrompt,
    body: ChatCompletionResponse,
    start_time_unix_ms: u64,
    latency_ms: u64,
) -> (r: LLMResult)
    ensures
        body.choices@.len() == 0 ==> match r {
            LLMResult::Failure(e) => {
                &&& e.client == client
                &&& e.prompt == prompt
                &&& e.model is None
                &&& e.start_time_unix_ms == start_time_unix_ms
                &&& e.latency_ms == latency_ms
                &&& e.message@ == "No content in response"@
                &&& e.code == ErrorCode::Other(200)
            },
            LLMResult::Success(_) => false,
        },
        body.choices@.len() >= 1 ==> match r {
            LLMResult::Success(c) => {
                &&& c.client == client
                &&& c.prompt == prompt
                &&& c.content@ == content_view(body)
                &&& c.start_time_unix_ms == start_time_unix_ms
                &&& c.latency_ms == latency_ms
                &&& c.model == body.model
                &&& c.metadata.baml_is_complete == finish_is_complete(
                    body.choices[0].finish_reason,
                )
                &&& c.metadata.finish_reason == body.choices[0].finish_reason
                &&& usage_matches(c.metadata, body.usage)
            },
            LLMResult::Failure(_) => false,
        },
{
    let ChatCompletionResponse { id: _, mut choices, created: _, model, system_fingerprint: _, object: _, usage } =
        body;
    if choices.len() == 0 {
        return LLMResult::Failure(
            ErrorResponse {
                client,
                prompt,
                model: None,
                start_time_unix_ms,
                latency_ms,
                message: "No content in response".to_owned(),
                code: ErrorCode::Other(200),
            },
        );
    }
    let first = choices.remove(0);
    let content: String = match first.message.content {
        Some(s) => s,
        None => String::new(),
    };
    let baml_is_complete: bool = match first.finish_reason {
        None => true,
        Some(FinishReason::Stop) => true,
        Some(_) => false,
    };
    let (prompt_tokens, output_tokens, total_tokens): (Option<u32>, Option<u32>, Option<u32>) =
        match usage {
        Some(u) => (Some(u.prompt_tokens), Some(u.completion_tokens), Some(u.total_tokens)),
        None => (None, None, None),
    };
    LLMResult::Success(
        CompleteResponse {
            client,
            prompt,
            content,
            start_time_unix_ms,
            latency_ms,
            model,
            metadata: ResponseMetadata {
                baml_is_complete,
                finish_reason: first.finish_reason,
                prompt_tokens,
                output_tokens,
                total_tokens,
            },
        },
    )
}

/// Interprets a decoded provider error payload from a non-2xx exchange:
/// always a `Failure`, with the documented message shape and the code
/// classified from the HTTP status.
pub fn handle_error_response(
    client: String,
    prompt: RenderedPrompt,
    status: u16,
    err: OpenAIErrorResponse,
    start_time_unix_ms: u64,
    latency_ms: u64,
) -> (r: LLMResult)
    ensures
        match r {
            LLMResult::Failure(e) => {
                &&& e.client == client
                &&& e.prompt == prompt
                &&& e.model is None
                &&& e.start_time_unix_ms == start_time_unix_ms
                &&& e.latency_ms == latency_ms
                &&& e.message@ == "API Error ("@ + err.error.error_type@ + "): "@
                    + err.error.message@
                &&& e.code == code_of_status(status)
            },
            LLMResult::Success(_) => false,
        },
{
    let mut message: String = "API Error (".to_owned();
    message.append(err.error.error_type.as_str());
    message.append("): ");
    message.append(err.error.message.as_str());
    LLMResult::Failure(
        ErrorResponse {
            client,
            prompt,
            model: None,
            start_time_unix_ms,
            latency_ms,
            message,
            code: ErrorCode::from_http_status(status),
        },
    )
}

/// Finishes a single-shot call from whatever the transport produced.
///
/// Decoded exchanges — success payloads and provider error payloads —
/// always yield an `Ok` result; build, fetch and decode faults are the
/// only `Err` outcomes.  Latency is measured here, from `start_time_unix_ms`
/// to the moment the decoded outcome is interpreted.
pub fn finish_chat(
    client: String,
    prompt: RenderedPrompt,
    outcome: ChatOutcome,
    start_time_unix_ms: u64,
) -> (r: Result<LLMResult, FatalError>)
    ensures
        match outcome {
            ChatOutcome::Completed(body) => match r {
                Result::Ok(LLMResult::Success(c)) => {
                    &&& body.choices@.len() >= 1
                    &&& c.client == client
                    &&& c.prompt == prompt
                    &&& c.content@ == content_view(body)
                    &&& c.model == body.model
                    &&& c.metadata.baml_is_complete == finish_is_complete(
                        body.choices[0].finish_reason,
                    )
                    &&& c.metadata.finish_reason == body.choices[0].finish_reason
                    &&& usage_matches(c.metadata, body.usage)
                    &&& c.start_time_unix_ms == start_time_unix_ms
                },
                Result::Ok(LLMResult::Failure(e)) => {
                    &&& body.choices@.len() == 0
                    &&& e.client == client
                    &&& e.prompt == prompt
                    &&& e.model is None
                    &&& e.message@ == "No content in response"@
                    &&& e.code == ErrorCode::Other(200)
                    &&& e.start_time_unix_ms == start_time_unix_ms
                },
                Result::Err(_) => false,
            },
            ChatOutcome::ProviderError(status, err) => match r {
                Result::Ok(LLMResult::Failure(e)) => {
                    &&& e.client == client
                    &&& e.prompt == prompt
                    &&& e.model is None
                    &&& e.message@ == "API Error ("@ + err.error.error_type@ + "): "@
                        + err.error.message@
                    &&& e.code == code_of_status(status)
                    &&& e.start_time_unix_ms == start_time_unix_ms
                },
                _ => false,
            },
            ChatOutcome::ProviderErrorUndecodable(status, detail) => r == Result::<
                LLMResult,
                FatalError,
            >::Err(FatalError::UnexpectedErrorShape { status, detail }),
            ChatOutcome::BuildFailure(detail) => r == Result::<LLMResult, FatalError>::Err(
                FatalError::RequestFailed { detail },
            ),
            ChatOutcome::FetchFailure(detail) => r == Result::<LLMResult, FatalError>::Err(
                FatalError::RequestFailed { detail },
            ),
            ChatOutcome::BodyDecodeFailure(detail) => r == Result::<LLMResult, FatalError>::Err(
                FatalError::RequestFailed { detail },
            ),
        },
{
    let latency_ms = crate::clock::elapsed_since(start_time_unix_ms);
    match outcome {
        ChatOutcome::Completed(body) => Result::Ok(
            handle_success_response(client, prompt, body, start_time_unix_ms, latency_ms),
        ),
        ChatOutcome::ProviderError(status, err) => Result::Ok(
            handle_error_response(client, prompt, status, err, start_time_unix_ms, latency_ms),
        ),
        ChatOutcome::ProviderErrorUndecodable(status, detail) => Result::Err(
            FatalError::UnexpectedErrorShape { status, detail },
        ),
        ChatOutcome::BuildFailure(detail) => Result::Err(FatalError::RequestFailed { detail }),
        ChatOutcome::FetchFailure(detail) => Result::Err(FatalError::RequestFailed { detail }),
        ChatOutcome::BodyDecodeFailure(detail) => Result::Err(FatalError::RequestFailed { detail }),
    }
}

} // verus!
