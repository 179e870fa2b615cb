use llm_client::client::{OpenAIClient, StreamRequestError};
use llm_client::config::{ClientConfig, OptionValue};
use llm_client::prompt::{MessagePart, RenderedMessage, RenderedPrompt};
use llm_client::request::convert_message_parts_to_content;
use llm_client::value::Value;

fn config_with(options: Vec<(String, OptionValue)>) -> ClientConfig {
    ClientConfig {
        name: "my_client".to_string(),
        provider: "openai".to_string(),
        options,
        retry_policy: Some("default_policy".to_string()),
    }
}

fn opt(key: &str, v: Value) -> (String, OptionValue) {
    (key.to_string(), OptionValue::Resolved(v))
}

fn message(role: &str, text: &str) -> RenderedMessage {
    RenderedMessage {
        role: role.to_string(),
        parts: vec![MessagePart::Text(text.to_string())],
    }
}

fn field<'a>(obj: &'a Value, key: &str) -> &'a Value {
    match obj {
        Value::Obj(fields) => {
            &fields
                .iter()
                .rev()
                .find(|(k, _)| k == key)
                .unwrap_or_else(|| panic!("missing field {key}"))
                .1
        }
        other => panic!("not an object: {:?}", other),
    }
}

#[test]
fn new_client_resolves_and_advertises_chat_only() {
    let config = config_with(vec![opt("model", Value::Text("gpt-4".to_string()))]);
    let client = OpenAIClient::new(config, &vec![]).unwrap();
    assert_eq!(client.context().name, "my_client");
    assert_eq!(client.context().provider, "openai");
    assert!(client.model_features().chat);
    assert!(!client.model_features().completion);
    assert_eq!(client.retry_policy_name().map(String::as_str), Some("default_policy"));
    assert_eq!(client.state.call_count, 0);
    assert_eq!(client.chat_options().default_role, "system");
}

#[test]
fn new_client_surfaces_resolution_errors() {
    let config = config_with(vec![("org".to_string(), OptionValue::Unresolvable)]);
    let err = OpenAIClient::new(config, &vec![]).unwrap_err();
    assert_eq!(err.message(), "client my_client could not resolve options.org");
}

#[test]
fn chat_request_merges_fields_and_messages() {
    let config = config_with(vec![
        opt("model", Value::Text("gpt-4".to_string())),
        opt("api_key", Value::Text("SECRET-REDACTED".to_string())),
    ]);
    let client = OpenAIClient::new(config, &vec![]).unwrap();
    let messages = vec![message("system", "be terse"), message("user", "hi")];
    let req = client.prepare_chat_request(&messages);

    assert_eq!(req.url, "https://api.openai.com/v1/chat/completions");
    assert_eq!(field(&req.body, "model"), &Value::Text("gpt-4".to_string()));
    match field(&req.body, "messages") {
        Value::Arr(items) => {
            assert_eq!(items.len(), 2);
            assert_eq!(field(&items[0], "role"), &Value::Text("system".to_string()));
            // single text part: content is the bare string
            assert_eq!(field(&items[0], "content"), &Value::Text("be terse".to_string()));
            assert_eq!(field(&items[1], "role"), &Value::Text("user".to_string()));
        }
        other => panic!("messages not an array: {:?}", other),
    }
    // non-streaming bodies carry no stream flag
    match &req.body {
        Value::Obj(fields) => assert!(fields.iter().all(|(k, _)| k != "stream")),
        _ => unreachable!(),
    }
    assert_eq!(
        req.headers,
        vec![("Authorization".to_string(), "Bearer SECRET-REDACTED".to_string())]
    );
}

#[test]
fn custom_headers_follow_the_authorization_header() {
    let config = config_with(vec![
        opt("api_key", Value::Text("k".to_string())),
        opt(
            "headers",
            Value::Obj(vec![("x-extra".to_string(), Value::Text("yes".to_string()))]),
        ),
    ]);
    let client = OpenAIClient::new(config, &vec![]).unwrap();
    let req = client.prepare_chat_request(&vec![]);
    assert_eq!(
        req.headers,
        vec![
            ("Authorization".to_string(), "Bearer k".to_string()),
            ("x-extra".to_string(), "yes".to_string()),
        ]
    );
}

#[test]
fn no_credential_means_no_authorization_header() {
    let client = OpenAIClient::new(config_with(vec![]), &vec![]).unwrap();
    let req = client.prepare_chat_request(&vec![]);
    assert!(req.headers.is_empty());
}

#[test]
fn stream_request_sets_the_stream_flag_and_counts_the_call() {
    let config = config_with(vec![opt("model", Value::Text("gpt-4".to_string()))]);
    let mut client = OpenAIClient::new(config, &vec![]).unwrap();
    let prompt = RenderedPrompt::Chat(vec![message("user", "hi")]);
    let sse = client.stream_chat2(&prompt).unwrap();
    assert_eq!(client.state.call_count, 1);
    assert_eq!(sse.url, "https://api.openai.com/v1/chat/completions");
    assert_eq!(sse.client, "my_client");
    assert_eq!(sse.prompt.len(), 1);
    assert_eq!(field(&sse.body, "stream"), &Value::Bool(true));
    assert_eq!(field(&sse.body, "model"), &Value::Text("gpt-4".to_string()));
}

#[test]
fn completion_prompts_are_rejected_before_any_network_contact() {
    let mut client = OpenAIClient::new(config_with(vec![]), &vec![]).unwrap();
    let prompt = RenderedPrompt::Completion("finish this".to_string());
    let err = client.stream_chat2(&prompt).unwrap_err();
    assert_eq!(err, StreamRequestError::NotAChatPrompt);
    assert_eq!(err.message(), "Expected a chat prompt");
    assert_eq!(client.state.call_count, 0, "a rejected call is not counted");
}

#[test]
fn each_stream_call_increments_the_counter_once() {
    let mut client = OpenAIClient::new(config_with(vec![]), &vec![]).unwrap();
    let prompt = RenderedPrompt::Chat(vec![message("user", "hi")]);
    let n = 17;
    for _ in 0..n {
        client.stream_chat2(&prompt).unwrap();
    }
    assert_eq!(client.state.call_count, n);
}

#[test]
fn single_text_part_is_sent_as_a_bare_string() {
    let parts = vec![MessagePart::Text("only".to_string())];
    assert_eq!(
        convert_message_parts_to_content(&parts),
        Value::Text("only".to_string())
    );
}

#[test]
fn several_parts_are_sent_as_typed_objects() {
    let parts = vec![
        MessagePart::Text("look:".to_string()),
        MessagePart::ImageUrl("https://example.com/cat.png".to_string()),
        MessagePart::ImageBase64("aGVsbG8=".to_string()),
    ];
    match convert_message_parts_to_content(&parts) {
        Value::Arr(items) => {
            assert_eq!(items.len(), 3);
            assert_eq!(field(&items[0], "type"), &Value::Text("text".to_string()));
            assert_eq!(field(&items[0], "text"), &Value::Text("look:".to_string()));
            assert_eq!(field(&items[1], "type"), &Value::Text("image_url".to_string()));
            assert_eq!(
                field(field(&items[1], "image_url"), "url"),
                &Value::Text("https://example.com/cat.png".to_string())
            );
            assert_eq!(
                field(field(&items[2], "image_url"), "base64"),
                &Value::Text("aGVsbG8=".to_string())
            );
        }
        other => panic!("expected an array, got {:?}", other),
    }
}

#[test]
fn single_image_part_stays_a_list() {
    let parts = vec![MessagePart::ImageUrl("https://example.com/a.png".to_string())];
    assert!(matches!(convert_message_parts_to_content(&parts), Value::Arr(_)));
}

#[test]
fn configured_base_url_reaches_the_endpoint() {
    let config = config_with(vec![opt(
        "base_url",
        Value::Text("http://localhost:4000".to_string()),
    )]);
    let client = OpenAIClient::new(config, &vec![]).unwrap();
    let req = client.prepare_chat_request(&vec![]);
    assert_eq!(req.url, "http://localhost:4000/v1/chat/completions");
}

#[test]
fn values_clone_deeply() {
    let v = Value::Obj(vec![
        ("a".to_string(), Value::Arr(vec![Value::Int(1), Value::Null])),
        ("b".to_string(), Value::Text("t".to_string())),
    ]);
    assert_eq!(v.clone(), v);
}
