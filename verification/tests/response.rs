use llm_sdk::{
    AssistantMessage, ChatCompleteModel, ChatCompletionChoice, ChatCompletionResponse,
    ChatCompletionUsage, DecodeError, FinishReason, FunctionCall, ToolCalls, ToolType,
};
use serde_json::Value;

const REPLY: &str = r#"{
    "id": "chatcmpl-123",
    "object": "chat.completion",
    "created": 1699896916,
    "model": "gpt-3.5-turbo-1106",
    "system_fingerprint": "fp_44709d6fcb",
    "service_tier": "default",
    "choices": [
        {
            "index": 0,
            "message": {
                "role": "assistant",
                "content": "Hello there",
                "tool_calls": []
            },
            "logprobs": null,
            "finish_reason": "stop"
        },
        {
            "index": 1,
            "message": {
                "content": "",
                "name": "helper",
                "tool_calls": [
                    {
                        "id": "call_abc",
                        "type": "function",
                        "function": {"name": "get_weather", "arguments": "{\"city\":\"Paris\"}"}
                    }
                ]
            },
            "finish_reason": "tool_calls"
        }
    ],
    "usage": {"prompt_tokens": 9, "completion_tokens": 12, "total_tokens": 21}
}"#;

fn parse(text: &str) -> Value {
    serde_json::from_str(text).unwrap()
}

fn reply() -> serde_json::Map<String, Value> {
    match parse(REPLY) {
        Value::Object(map) => map,
        _ => unreachable!(),
    }
}

fn decode(map: serde_json::Map<String, Value>) -> Result<ChatCompletionResponse, DecodeError> {
    ChatCompletionResponse::from_value(&Value::Object(map))
}

fn choice(text: &str) -> Result<ChatCompletionChoice, DecodeError> {
    ChatCompletionChoice::from_value(&parse(text))
}

#[test]
fn a_full_reply_decodes() {
    let res = ChatCompletionResponse::from_bytes(REPLY.as_bytes()).unwrap();
    assert_eq!(res.id, "chatcmpl-123");
    assert_eq!(res.object, "chat.completion");
    assert_eq!(res.created, 1699896916);
    assert_eq!(res.model, ChatCompleteModel::GPT3Turbo);
    assert_eq!(res.system_fingerprint, "fp_44709d6fcb");
    assert_eq!(
        res.usage,
        ChatCompletionUsage { completion_tokens: 12, prompt_tokens: 9, total_tokens: 21 }
    );
    assert_eq!(res.choices.len(), 2);

    let first = &res.choices[0];
    assert_eq!(first.finish_reason, FinishReason::Stop);
    assert_eq!(first.index, 0);
    assert_eq!(first.message.content, "Hello there");
    assert_eq!(first.message.name, None);
    assert_eq!(first.message.tool_calls.len(), 0);

    let second = &res.choices[1];
    assert_eq!(second.finish_reason, FinishReason::ToolCalls);
    assert_eq!(second.index, 1);
    assert_eq!(second.message.content, "");
    assert_eq!(second.message.name.as_deref(), Some("helper"));
    assert_eq!(second.message.tool_calls.len(), 1);
    let call = &second.message.tool_calls[0];
    assert_eq!(call.id, "call_abc");
    assert_eq!(call.kind, ToolType::Function);
    assert_eq!(call.function.name, "get_weather");
    assert_eq!(call.function.arguments, "{\"city\":\"Paris\"}");
}

#[test]
fn decoding_a_value_and_decoding_its_bytes_agree() {
    let from_value = ChatCompletionResponse::from_value(&parse(REPLY)).unwrap();
    let from_bytes = ChatCompletionResponse::from_bytes(REPLY.as_bytes()).unwrap();
    assert_eq!(format!("{:?}", from_value), format!("{:?}", from_bytes));
    assert_eq!(format!("{:?}", from_value.clone()), format!("{:?}", from_value));
}

#[test]
fn absent_finish_reason_is_stop() {
    let decoded = choice(r#"{"index": 3, "message": {"content": "x", "tool_calls": []}}"#).unwrap();
    assert_eq!(decoded.finish_reason, FinishReason::Stop);
    assert_eq!(decoded.index, 3);
    assert_eq!(FinishReason::default(), FinishReason::Stop);
}

#[test]
fn absent_choices_are_no_choices() {
    let mut map = reply();
    map.remove("choices");
    let res = decode(map).unwrap();
    assert!(res.choices.is_empty());
    assert_eq!(res.id, "chatcmpl-123");
}

#[test]
fn empty_choices_are_no_error() {
    let mut map = reply();
    map.insert("choices".to_string(), Value::Array(vec![]));
    assert!(decode(map).unwrap().choices.is_empty());
}

#[test]
fn each_required_field_is_missed() {
    for key in ["id", "created", "model", "system_fingerprint", "object", "usage"] {
        let mut map = reply();
        map.remove(key);
        assert_eq!(decode(map).unwrap_err(), DecodeError::MissingField, "{}", key);
    }
}

#[test]
fn each_field_of_the_wrong_shape_is_a_mismatch() {
    let wrong = [
        ("id", Value::from(1u64)),
        ("id", Value::Null),
        ("choices", Value::Null),
        ("choices", Value::String("none".to_string())),
        ("created", Value::String("now".to_string())),
        ("created", Value::from(-1i64)),
        ("created", Value::from(1.5f64)),
        ("model", Value::from(4u64)),
        ("model", Value::String("gpt-5".to_string())),
        ("model", Value::String("GPT3Turbo".to_string())),
        ("system_fingerprint", Value::Null),
        ("object", Value::Bool(true)),
        ("usage", Value::Array(vec![])),
        ("usage", Value::Null),
    ];
    for (key, value) in wrong {
        let mut map = reply();
        map.insert(key.to_string(), value.clone());
        assert_eq!(decode(map).unwrap_err(), DecodeError::TypeMismatch, "{} = {}", key, value);
    }
}

#[test]
fn what_is_no_object_is_a_mismatch() {
    for text in ["[]", "null", "\"reply\"", "12", "true"] {
        assert_eq!(
            ChatCompletionResponse::from_bytes(text.as_bytes()).unwrap_err(),
            DecodeError::TypeMismatch
        );
    }
    assert_eq!(
        ChatCompletionResponse::from_bytes(b"{}").unwrap_err(),
        DecodeError::MissingField
    );
}

#[test]
fn what_is_no_json_is_a_mismatch() {
    for text in ["", "{", "{\"id\": }", "not json", "{} trailing"] {
        assert_eq!(
            ChatCompletionResponse::from_bytes(text.as_bytes()).unwrap_err(),
            DecodeError::TypeMismatch
        );
    }
    assert_eq!(
        ChatCompletionResponse::from_bytes(&[0xff, 0xfe]).unwrap_err(),
        DecodeError::TypeMismatch
    );
}

#[test]
fn the_first_field_at_fault_decides_the_error() {
    let mut map = reply();
    map.remove("id");
    map.insert("created".to_string(), Value::Null);
    assert_eq!(decode(map).unwrap_err(), DecodeError::MissingField);

    let mut map = reply();
    map.insert("id".to_string(), Value::Null);
    map.remove("created");
    assert_eq!(decode(map).unwrap_err(), DecodeError::TypeMismatch);

    let mut map = reply();
    map.insert(
        "choices".to_string(),
        Value::Array(vec![
            parse(r#"{"index": 0, "message": {"content": "x", "tool_calls": []}}"#),
            parse(r#"{"message": {"content": "x", "tool_calls": []}}"#),
            parse(r#"{"index": "two", "message": {"content": "x", "tool_calls": []}}"#),
        ]),
    );
    assert_eq!(decode(map).unwrap_err(), DecodeError::MissingField);
}

#[test]
fn usage_needs_three_counts() {
    let mut map = reply();
    map.insert("usage".to_string(), parse(r#"{"prompt_tokens": 1, "completion_tokens": 2}"#));
    assert_eq!(decode(map).unwrap_err(), DecodeError::MissingField);

    let mut map = reply();
    map.insert(
        "usage".to_string(),
        parse(r#"{"prompt_tokens": 1, "completion_tokens": "2", "total_tokens": 3}"#),
    );
    assert_eq!(decode(map).unwrap_err(), DecodeError::TypeMismatch);

    assert_eq!(
        ChatCompletionUsage::from_value(&parse(
            r#"{"prompt_tokens": 1, "completion_tokens": 2, "total_tokens": 3, "extra": {}}"#
        )),
        Ok(ChatCompletionUsage { completion_tokens: 2, prompt_tokens: 1, total_tokens: 3 })
    );
}

#[test]
fn finish_reasons_go_by_their_names() {
    let named = [
        ("stop", FinishReason::Stop),
        ("length", FinishReason::Length),
        ("content_filter", FinishReason::ContentFilter),
        ("tool_calls", FinishReason::ToolCalls),
    ];
    for (name, reason) in named {
        assert_eq!(FinishReason::from_name(name), Some(reason));
        assert_eq!(FinishReason::from_value(&Value::String(name.to_string())), Ok(reason));
    }
    assert_eq!(FinishReason::from_name("function_call"), None);
    assert_eq!(FinishReason::from_name("Stop"), None);
    assert_eq!(
        FinishReason::from_value(&Value::String("function_call".to_string())),
        Err(DecodeError::TypeMismatch)
    );
    assert_eq!(FinishReason::from_value(&Value::Null), Err(DecodeError::TypeMismatch));
    let null_reason =
        r#"{"finish_reason": null, "index": 0, "message": {"content": "x", "tool_calls": []}}"#;
    assert_eq!(choice(null_reason).unwrap_err(), DecodeError::TypeMismatch);
}

#[test]
fn a_choice_needs_its_index_and_its_message() {
    assert_eq!(
        choice(r#"{"message": {"content": "x", "tool_calls": []}}"#).unwrap_err(),
        DecodeError::MissingField
    );
    assert_eq!(choice(r#"{"index": 0}"#).unwrap_err(), DecodeError::MissingField);
    assert_eq!(
        choice(r#"{"index": 0, "message": "x"}"#).unwrap_err(),
        DecodeError::TypeMismatch
    );
    assert_eq!(choice(r#"[0, "x"]"#).unwrap_err(), DecodeError::TypeMismatch);
}

#[test]
fn an_assistant_message_decodes_field_by_field() {
    let message = |text: &str| AssistantMessage::from_value(&parse(text));

    let decoded = message(r#"{"content": "x", "name": null, "tool_calls": []}"#).unwrap();
    assert_eq!(decoded.name, None);

    let decoded = message(r#"{"content": "x", "name": "", "tool_calls": []}"#).unwrap();
    assert_eq!(decoded.name.as_deref(), Some(""));

    assert_eq!(message(r#"{"tool_calls": []}"#).unwrap_err(), DecodeError::MissingField);
    assert_eq!(message(r#"{"content": "x"}"#).unwrap_err(), DecodeError::MissingField);
    assert_eq!(
        message(r#"{"content": null, "tool_calls": []}"#).unwrap_err(),
        DecodeError::TypeMismatch
    );
    assert_eq!(
        message(r#"{"content": "x", "name": 1, "tool_calls": []}"#).unwrap_err(),
        DecodeError::TypeMismatch
    );
    assert_eq!(
        message(r#"{"content": "x", "tool_calls": {}}"#).unwrap_err(),
        DecodeError::TypeMismatch
    );
}

#[test]
fn a_tool_call_decodes_field_by_field() {
    let call = |text: &str| ToolCalls::from_value(&parse(text));
    let function = r#"{"name": "f", "arguments": "{}"}"#;

    let whole = format!(r#"{{"id": "c", "type": "function", "function": {}}}"#, function);
    assert!(call(&whole).is_ok());
    assert_eq!(
        call(&format!(r#"{{"type": "function", "function": {}}}"#, function)).unwrap_err(),
        DecodeError::MissingField
    );
    assert_eq!(
        call(&format!(r#"{{"id": "c", "function": {}}}"#, function)).unwrap_err(),
        DecodeError::MissingField
    );
    assert_eq!(
        call(&format!(r#"{{"id": "c", "type": "retrieval", "function": {}}}"#, function))
            .unwrap_err(),
        DecodeError::TypeMismatch
    );
    assert_eq!(
        call(r#"{"id": "c", "type": "function"}"#).unwrap_err(),
        DecodeError::MissingField
    );
    assert_eq!(
        call(r#"{"id": "c", "type": "function", "function": {"name": "f"}}"#).unwrap_err(),
        DecodeError::MissingField
    );
    assert_eq!(
        call(r#"{"id": "c", "type": "function", "function": {"name": "f", "arguments": {}}}"#)
            .unwrap_err(),
        DecodeError::TypeMismatch
    );
    assert_eq!(
        FunctionCall::from_value(&parse(r#"["f", "{}"]"#)).unwrap_err(),
        DecodeError::TypeMismatch
    );

    let items = vec![
        parse(&format!(r#"{{"id": "a", "type": "function", "function": {}}}"#, function)),
        parse(&format!(r#"{{"id": "b", "type": "function", "function": {}}}"#, function)),
    ];
    let decoded = ToolCalls::from_values(&items).unwrap();
    assert_eq!(decoded.len(), 2);
    assert_eq!(decoded[0].id, "a");
    assert_eq!(decoded[1].id, "b");
}
