use llm_client::accumulate::{
    accumulate_events, is_done_sentinel, Accumulator, StreamEvent, StreamItem,
};
use llm_client::prompt::RenderedPrompt;
use llm_client::wire::{
    ChatCompletionChoiceDelta, ChatCompletionGeneric, ChatCompletionMessageDelta,
    ChatCompletionResponseDelta,
};

fn delta_event(content: Option<&str>, model: &str) -> StreamEvent {
    StreamEvent::Delta(delta(content, model))
}

fn delta(content: Option<&str>, model: &str) -> ChatCompletionResponseDelta {
    ChatCompletionGeneric {
        id: "chatcmpl-1".to_string(),
        choices: vec![ChatCompletionChoiceDelta {
            index: 0,
            finish_reason: None,
            delta: ChatCompletionMessageDelta {
                role: None,
                content: content.map(|s| s.to_string()),
            },
        }],
        created: 1,
        model: model.to_string(),
        system_fingerprint: None,
        object: "chat.completion.chunk".to_string(),
        usage: None,
    }
}

fn contents(items: &[StreamItem]) -> Vec<String> {
    items
        .iter()
        .map(|it| match it {
            StreamItem::Partial(c) => c.content.clone(),
            StreamItem::Failed(f) => panic!("unexpected failure: {:?}", f),
        })
        .collect()
}

#[test]
fn sentinel_is_recognized() {
    assert!(is_done_sentinel("[DONE]"));
    assert!(!is_done_sentinel("[DONE] "));
    assert!(!is_done_sentinel("{\"id\":\"x\"}"));
    assert!(!is_done_sentinel(""));
}

#[test]
fn partials_grow_and_end_with_the_concatenation() {
    let events = vec![
        delta_event(Some("Hel"), "gpt-4"),
        delta_event(Some("lo"), "gpt-4"),
        delta_event(Some(" world"), "gpt-4"),
    ];
    let out = accumulate_events("c".to_string(), RenderedPrompt::Chat(vec![]), 0, events);
    let got = contents(&out);
    assert_eq!(got, vec!["Hel", "Hello", "Hello world"]);
    for w in got.windows(2) {
        assert!(w[1].starts_with(&w[0]), "partials must never regress");
    }
}

#[test]
fn content_free_deltas_re_emit_the_unchanged_partial() {
    let events = vec![
        delta_event(Some("a"), "m1"),
        delta_event(None, "m2"),
        delta_event(Some("b"), "m3"),
    ];
    let out = accumulate_events("c".to_string(), RenderedPrompt::Chat(vec![]), 0, events);
    let got = contents(&out);
    assert_eq!(got, vec!["a", "a", "ab"]);
    match &out[1] {
        StreamItem::Partial(c) => assert_eq!(c.model, "m1", "model only moves with content"),
        _ => unreachable!(),
    }
    match &out[2] {
        StreamItem::Partial(c) => assert_eq!(c.model, "m3"),
        _ => unreachable!(),
    }
}

#[test]
fn empty_choice_list_contributes_nothing() {
    let mut empty = delta(Some("ignored"), "m");
    empty.choices.clear();
    let events = vec![delta_event(Some("x"), "m"), StreamEvent::Delta(empty)];
    let out = accumulate_events("c".to_string(), RenderedPrompt::Chat(vec![]), 0, events);
    assert_eq!(contents(&out), vec!["x", "x"]);
}

#[test]
fn malformed_event_halts_with_exactly_one_error_item() {
    let events = vec![
        delta_event(Some("par"), "m"),
        StreamEvent::Malformed("expected value at line 1".to_string()),
        delta_event(Some("never seen"), "m"),
        StreamEvent::Malformed("also never seen".to_string()),
    ];
    let out = accumulate_events("c".to_string(), RenderedPrompt::Chat(vec![]), 0, events);
    assert_eq!(out.len(), 2, "nothing is emitted after the error item");
    match &out[0] {
        StreamItem::Partial(c) => assert_eq!(c.content, "par"),
        _ => panic!("first item should be a partial"),
    }
    match &out[1] {
        StreamItem::Failed(f) => {
            assert_eq!(f.detail, "expected value at line 1");
            assert_eq!(
                f.message(),
                "Failed to parse event from EventSource: expected value at line 1"
            );
        }
        _ => panic!("second item should be the failure"),
    }
}

#[test]
fn leading_malformed_event_emits_only_the_error() {
    let events = vec![
        StreamEvent::Malformed("bad".to_string()),
        delta_event(Some("x"), "m"),
    ];
    let out = accumulate_events("c".to_string(), RenderedPrompt::Chat(vec![]), 0, events);
    assert_eq!(out.len(), 1);
    assert!(matches!(out[0], StreamItem::Failed(_)));
}

#[test]
fn no_events_emit_nothing() {
    let out = accumulate_events("c".to_string(), RenderedPrompt::Chat(vec![]), 0, vec![]);
    assert!(out.is_empty());
}

#[test]
fn halted_accumulator_ignores_further_events() {
    let mut acc = Accumulator::new("c".to_string(), RenderedPrompt::Chat(vec![]), 0);
    let first = acc.step(StreamEvent::Malformed("bad".to_string()));
    assert!(matches!(first, Some(StreamItem::Failed(_))));
    let after = acc.step(delta_event(Some("x"), "m"));
    assert!(after.is_none());
}

#[test]
fn partials_carry_the_session_identity() {
    let prompt = RenderedPrompt::Chat(vec![]);
    let out = accumulate_events("my_client".to_string(), prompt, 1234, vec![
        delta_event(Some("x"), "gpt-4"),
    ]);
    match &out[0] {
        StreamItem::Partial(c) => {
            assert_eq!(c.client, "my_client");
            assert_eq!(c.start_time_unix_ms, 1234);
            assert_eq!(c.latency_ms, 0);
            assert!(!c.metadata.baml_is_complete);
        }
        _ => unreachable!(),
    }
}
