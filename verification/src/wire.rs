//! Provider payload shapes: the decoded form of a chat-completion
//! response, of one streamed delta, and of a provider error body.
//!
//! Turning raw bytes into these values is the transport's job; everything
//! the library decides about them is decided on these plain shapes.

use vstd::prelude::*;

verus! {

/// A chat completion response returned by the model, generic over the
/// choice shape (full message or streamed delta).
#[derive(Debug)]
pub struct ChatCompletionGeneric<C> {
    /// A unique identifier for the chat completion.
    pub id: String,
    /// Chat completion choices; more than one when several were requested.
    pub choices: Vec<C>,
    /// The Unix timestamp (in seconds) of when the completion was created.
    pub created: u32,
    /// The model used for the chat completion, as the provider reports it.
    pub model: String,
    /// Fingerprint of the backend configuration the model ran with.
    pub system_fingerprint: Option<String>,
    /// The object type reported by the provider.
    pub object: String,
    /// Usage statistics, when the provider sends them.
    pub usage: Option<CompletionUsage>,
}

/// A single-shot response.
pub type ChatCompletionResponse = ChatCompletionGeneric<ChatCompletionChoice>;

/// One streamed event's payload.
pub type ChatCompletionResponseDelta = ChatCompletionGeneric<ChatCompletionChoiceDelta>;

/// One full choice of a single-shot response.
#[derive(Debug)]
pub struct ChatCompletionChoice {
    /// The index of the choice in the list of choices.
    pub index: u32,
    pub message: ChatCompletionResponseMessage,
    /// Why the model stopped generating tokens, when it says.
    pub finish_reason: Option<FinishReason>,
}

/// Usage statistics for the completion request.
#[derive(Debug, Clone, Copy, PartialEq, Eq, Structural)]
pub struct CompletionUsage {
    /// Number of tokens in the prompt.
    pub prompt_tokens: u32,
    /// Number of tokens in the generated completion.
    pub completion_tokens: u32,
    /// Total number of tokens used in the request.
    pub total_tokens: u32,
}

/// A chat completion message generated by the model.
#[derive(Debug)]
pub struct ChatCompletionResponseMessage {
    /// The contents of the message, when present.
    pub content: Option<String>,
    /// The role of the author of this message.
    pub role: ChatCompletionMessageRole,
}

/// One choice of a streamed delta.
#[derive(Debug)]
pub struct ChatCompletionChoiceDelta {
    pub index: u64,
    pub finish_reason: Option<String>,
    pub delta: ChatCompletionMessageDelta,
}

/// An incremental message fragment received during a response stream.
#[derive(Debug)]
pub struct ChatCompletionMessageDelta {
    /// The role of the author of this message, when the event carries it.
    pub role: Option<ChatCompletionMessageRole>,
    /// The incremental contents of the message.
    pub content: Option<String>,
}

/// The author role of a chat message.
#[derive(Debug, Clone, Copy, Default, PartialEq, Eq, Structural)]
pub enum ChatCompletionMessageRole {
    System,
    #[default]
    User,
    Assistant,
    Tool,
    Function,
}

/// Why the model stopped generating tokens.
#[derive(Debug, Clone, Copy, PartialEq, Eq, Structural)]
pub enum FinishReason {
    Stop,
    Length,
    ToolCalls,
    ContentFilter,
    FunctionCall,
    Unknown,
}

/// The provider's structured error body.
#[derive(Debug)]
pub struct OpenAIErrorResponse {
    pub error: OpenAIError,
}

/// One provider-reported error.
#[derive(Debug)]
pub struct OpenAIError {
    pub message: String,
    /// The provider's error category tag.
    pub error_type: String,
    pub code: Option<String>,
}

} // verus!
