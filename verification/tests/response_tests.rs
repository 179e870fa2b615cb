use llm_client::prompt::RenderedPrompt;
use llm_client::response::{
    finish_chat, handle_error_response, handle_success_response, ChatOutcome, FatalError,
    LLMResult,
};
use llm_client::status::ErrorCode;
use llm_client::wire::{
    ChatCompletionChoice, ChatCompletionGeneric, ChatCompletionResponse,
    ChatCompletionResponseMessage, ChatCompletionMessageRole, CompletionUsage, FinishReason,
    OpenAIError, OpenAIErrorResponse,
};

fn body_with(choices: Vec<ChatCompletionChoice>, usage: Option<CompletionUsage>) -> ChatCompletionResponse {
    ChatCompletionGeneric {
        id: "chatcmpl-1".to_string(),
        choices,
        created: 1,
        model: "gpt-4-0613".to_string(),
        system_fingerprint: None,
        object: "chat.completion".to_string(),
        usage,
    }
}

fn choice(content: Option<&str>, finish: Option<FinishReason>) -> ChatCompletionChoice {
    ChatCompletionChoice {
        index: 0,
        message: ChatCompletionResponseMessage {
            content: content.map(|s| s.to_string()),
            role: ChatCompletionMessageRole::Assistant,
        },
        finish_reason: finish,
    }
}

fn chat_prompt() -> RenderedPrompt {
    RenderedPrompt::Chat(vec![])
}

#[test]
fn zero_choices_is_a_failure_not_a_success() {
    let r = handle_success_response("c".to_string(), chat_prompt(), body_with(vec![], None), 5, 6);
    match r {
        LLMResult::Failure(e) => {
            assert!(e.message.contains("No content in response"));
            assert_eq!(e.code, ErrorCode::Other(200));
            assert_eq!(e.model, None);
            assert_eq!(e.client, "c");
            assert_eq!(e.start_time_unix_ms, 5);
            assert_eq!(e.latency_ms, 6);
        }
        LLMResult::Success(_) => panic!("empty choices must not be a success"),
    }
}

#[test]
fn content_is_first_choice_content() {
    let body = body_with(
        vec![
            choice(Some("first answer"), Some(FinishReason::Stop)),
            choice(Some("second answer"), Some(FinishReason::Stop)),
        ],
        None,
    );
    let r = handle_success_response("c".to_string(), chat_prompt(), body, 0, 0);
    match r {
        LLMResult::Success(s) => {
            assert_eq!(s.content, "first answer");
            assert_eq!(s.model, "gpt-4-0613");
        }
        LLMResult::Failure(_) => panic!("expected success"),
    }
}

#[test]
fn null_content_becomes_empty_string() {
    let body = body_with(vec![choice(None, Some(FinishReason::Stop))], None);
    let r = handle_success_response("c".to_string(), chat_prompt(), body, 0, 0);
    match r {
        LLMResult::Success(s) => assert_eq!(s.content, ""),
        LLMResult::Failure(_) => panic!("expected success"),
    }
}

#[test]
fn completion_flag_follows_finish_reason() {
    for (finish, expect) in [
        (None, true),
        (Some(FinishReason::Stop), true),
        (Some(FinishReason::Length), false),
        (Some(FinishReason::ContentFilter), false),
        (Some(FinishReason::ToolCalls), false),
        (Some(FinishReason::FunctionCall), false),
        (Some(FinishReason::Unknown), false),
    ] {
        let body = body_with(vec![choice(Some("x"), finish)], None);
        let r = handle_success_response("c".to_string(), chat_prompt(), body, 0, 0);
        match r {
            LLMResult::Success(s) => {
                assert_eq!(s.metadata.baml_is_complete, expect, "finish {:?}", finish);
                assert_eq!(s.metadata.finish_reason, finish);
            }
            LLMResult::Failure(_) => panic!("expected success"),
        }
    }
}

#[test]
fn usage_tokens_are_carried_over() {
    let usage = CompletionUsage { prompt_tokens: 11, completion_tokens: 22, total_tokens: 33 };
    let body = body_with(vec![choice(Some("x"), Some(FinishReason::Stop))], Some(usage));
    let r = handle_success_response("c".to_string(), chat_prompt(), body, 0, 0);
    match r {
        LLMResult::Success(s) => {
            assert_eq!(s.metadata.prompt_tokens, Some(11));
            assert_eq!(s.metadata.output_tokens, Some(22));
            assert_eq!(s.metadata.total_tokens, Some(33));
        }
        LLMResult::Failure(_) => panic!("expected success"),
    }
}

#[test]
fn absent_usage_leaves_tokens_absent() {
    let body = body_with(vec![choice(Some("x"), None)], None);
    let r = handle_success_response("c".to_string(), chat_prompt(), body, 0, 0);
    match r {
        LLMResult::Success(s) => {
            assert_eq!(s.metadata.prompt_tokens, None);
            assert_eq!(s.metadata.output_tokens, None);
            assert_eq!(s.metadata.total_tokens, None);
        }
        LLMResult::Failure(_) => panic!("expected success"),
    }
}

#[test]
fn provider_error_401_yields_classified_failure() {
    let err = OpenAIErrorResponse {
        error: OpenAIError {
            message: "bad key".to_string(),
            error_type: "invalid_request_error".to_string(),
            code: None,
        },
    };
    let r = handle_error_response("c".to_string(), chat_prompt(), 401, err, 0, 0);
    match r {
        LLMResult::Failure(e) => {
            assert_eq!(e.message, "API Error (invalid_request_error): bad key");
            assert_eq!(e.code, ErrorCode::from_http_status(401));
            assert_eq!(e.code, ErrorCode::InvalidAuthentication);
            assert_eq!(e.model, None);
        }
        LLMResult::Success(_) => panic!("expected failure"),
    }
}

#[test]
fn status_codes_classify_totally() {
    assert_eq!(ErrorCode::from_http_status(401), ErrorCode::InvalidAuthentication);
    assert_eq!(ErrorCode::from_http_status(403), ErrorCode::NotSupported);
    assert_eq!(ErrorCode::from_http_status(429), ErrorCode::RateLimited);
    assert_eq!(ErrorCode::from_http_status(500), ErrorCode::ServerError);
    assert_eq!(ErrorCode::from_http_status(503), ErrorCode::ServiceUnavailable);
    assert_eq!(ErrorCode::from_http_status(404), ErrorCode::Other(404));
    assert_eq!(ErrorCode::from_http_status(200), ErrorCode::Other(200));
    assert_eq!(ErrorCode::from_http_status(0), ErrorCode::Other(0));
}

#[test]
fn transport_faults_are_hard_errors() {
    let r = finish_chat(
        "c".to_string(),
        chat_prompt(),
        ChatOutcome::FetchFailure("connection refused".to_string()),
        0,
    );
    match r {
        Err(FatalError::RequestFailed { detail }) => assert_eq!(detail, "connection refused"),
        other => panic!("unexpected: {:?}", other),
    }
    let r = finish_chat(
        "c".to_string(),
        chat_prompt(),
        ChatOutcome::BuildFailure("bad url".to_string()),
        0,
    );
    assert!(matches!(r, Err(FatalError::RequestFailed { .. })));
    let r = finish_chat(
        "c".to_string(),
        chat_prompt(),
        ChatOutcome::BodyDecodeFailure("truncated".to_string()),
        0,
    );
    let msg = r.unwrap_err().message();
    assert_eq!(msg, "Failed to make request: truncated");
}

#[test]
fn undecodable_error_payload_is_fatal() {
    let r = finish_chat(
        "c".to_string(),
        chat_prompt(),
        ChatOutcome::ProviderErrorUndecodable(502, "html page".to_string()),
        0,
    );
    match r {
        Err(FatalError::UnexpectedErrorShape { status, detail }) => {
            assert_eq!(status, 502);
            assert_eq!(detail, "html page");
        }
        other => panic!("unexpected: {:?}", other),
    }
}

#[test]
fn finish_chat_interprets_decoded_success() {
    let body = body_with(vec![choice(Some("hello"), Some(FinishReason::Stop))], None);
    let r = finish_chat("c".to_string(), chat_prompt(), ChatOutcome::Completed(body), 0);
    match r {
        Ok(LLMResult::Success(s)) => {
            assert_eq!(s.content, "hello");
            assert!(s.metadata.baml_is_complete);
        }
        other => panic!("unexpected: {:?}", other),
    }
}

#[test]
fn finish_chat_interprets_provider_error() {
    let err = OpenAIErrorResponse {
        error: OpenAIError {
            message: "overloaded".to_string(),
            error_type: "server_error".to_string(),
            code: None,
        },
    };
    let r = finish_chat("c".to_string(), chat_prompt(), ChatOutcome::ProviderError(503, err), 0);
    match r {
        Ok(LLMResult::Failure(e)) => {
            assert_eq!(e.message, "API Error (server_error): overloaded");
            assert_eq!(e.code, ErrorCode::ServiceUnavailable);
        }
        other => panic!("unexpected: {:?}", other),
    }
}
