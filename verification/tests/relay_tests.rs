use openai_proxy::conversion::{Role, UpstreamChoice, UpstreamChoiceMessage, UpstreamResponse};
use openai_proxy::errors::GatewayError;
use openai_proxy::relay::{relay_response, relay_stream, stream_step};

#[test]
fn whole_stream_is_relayed_in_order() {
    let chunks = vec![
        Ok("{\"delta\":\"a\"}".to_string()),
        Ok("{\"delta\":\"b\"}".to_string()),
        Ok("{\"delta\":\"c\"}".to_string()),
    ];
    let events = relay_stream(&chunks);
    assert_eq!(events.len(), 3);
    assert_eq!(events[0], "{\"delta\":\"a\"}");
    assert_eq!(events[1], "{\"delta\":\"b\"}");
    assert_eq!(events[2], "{\"delta\":\"c\"}");
}

#[test]
fn stream_error_after_two_chunks_yields_exactly_two_events() {
    let chunks = vec![
        Ok("one".to_string()),
        Ok("two".to_string()),
        Err("upstream reset".to_string()),
        Ok("never".to_string()),
    ];
    let events = relay_stream(&chunks);
    assert_eq!(events, vec!["one".to_string(), "two".to_string()]);
}

#[test]
fn stream_error_first_yields_no_event() {
    let chunks: Vec<Result<String, String>> = vec![Err("refused".to_string())];
    assert!(relay_stream(&chunks).is_empty());
}

#[test]
fn empty_stream_yields_no_event() {
    let chunks: Vec<Result<String, String>> = vec![];
    assert!(relay_stream(&chunks).is_empty());
}

#[test]
fn stream_step_emits_then_closes() {
    assert_eq!(stream_step(Some(Ok("payload".to_string()))), Some("payload".to_string()));
    assert_eq!(stream_step(Some(Err("boom".to_string()))), None);
    assert_eq!(stream_step(None), None);
}

#[test]
fn upstream_failure_is_surfaced_not_retried() {
    let r = relay_response(Err("connection refused".to_string()));
    assert_eq!(
        r.unwrap_err(),
        GatewayError::UpstreamError("connection refused".to_string())
    );
}

#[test]
fn upstream_success_is_mapped() {
    let upstream = UpstreamResponse {
        id: "cmpl-9".to_string(),
        object: "chat.completion".to_string(),
        created: 42,
        model: "gpt-x".to_string(),
        choices: vec![UpstreamChoice {
            index: 0,
            finish_reason: Some("stop".to_string()),
            message: UpstreamChoiceMessage {
                content: Some("hi".to_string()),
                role: Role::Assistant,
            },
        }],
        usage: None,
    };
    let completion = relay_response(Ok(upstream)).unwrap();
    assert_eq!(completion.id, "cmpl-9");
    assert_eq!(completion.created, 42);
    assert_eq!(completion.choices.len(), 1);
    assert_eq!(completion.choices[0].message.role, "assistant");
}
