use llm_sdk::{
    AssistantMessage, ChatCompletionMessage, FunctionCall, ToolCalls, ToolMessage, ToolType,
};
use serde_json::Value;

fn object(entries: Vec<(&str, Value)>) -> Value {
    let mut map = serde_json::Map::new();
    for (key, value) in entries {
        map.insert(key.to_string(), value);
    }
    Value::Object(map)
}

fn text(s: &str) -> Value {
    Value::String(s.to_string())
}

fn call(id: &str, name: &str, arguments: &str) -> ToolCalls {
    ToolCalls {
        id: id.to_string(),
        kind: ToolType::Function,
        function: FunctionCall { name: name.to_string(), arguments: arguments.to_string() },
    }
}

#[test]
fn an_empty_name_is_no_name() {
    assert_eq!(ChatCompletionMessage::get_name(""), None);
    assert_eq!(ChatCompletionMessage::get_name("zheng"), Some("zheng".to_string()));
    assert_eq!(ChatCompletionMessage::get_name(" "), Some(" ".to_string()));
}

#[test]
fn system_message_keeps_a_name_that_is_not_empty() {
    let message = ChatCompletionMessage::new_system("S", "Q-bot");
    match &message {
        ChatCompletionMessage::System(m) => {
            assert_eq!(m.content, "S");
            assert_eq!(m.name.as_deref(), Some("Q-bot"));
        }
        other => panic!("not a system message: {:?}", other),
    }
    assert_eq!(
        message.to_value(),
        object(vec![("role", text("system")), ("content", text("S")), ("name", text("Q-bot"))])
    );
}

#[test]
fn system_message_without_a_name_has_no_name_field() {
    let message = ChatCompletionMessage::new_system("S", "");
    match &message {
        ChatCompletionMessage::System(m) => assert_eq!(m.name, None),
        other => panic!("not a system message: {:?}", other),
    }
    let json = message.to_value();
    assert!(json.get("name").is_none());
    assert_eq!(json, object(vec![("role", text("system")), ("content", text("S"))]));
}

#[test]
fn user_message_keeps_a_name_that_is_not_empty() {
    let message = ChatCompletionMessage::new_user("U", "zheng");
    match &message {
        ChatCompletionMessage::User(m) => {
            assert_eq!(m.content, "U");
            assert_eq!(m.name.as_deref(), Some("zheng"));
        }
        other => panic!("not a user message: {:?}", other),
    }
    assert_eq!(
        message.to_value(),
        object(vec![("role", text("user")), ("content", text("U")), ("name", text("zheng"))])
    );
}

#[test]
fn user_message_without_a_name_has_no_name_field() {
    let json = ChatCompletionMessage::new_user("U", "").to_value();
    assert!(json.get("name").is_none());
    assert_eq!(json, object(vec![("role", text("user")), ("content", text("U"))]));
}

#[test]
fn assistant_message_without_calls_has_no_tool_calls_field() {
    let message = ChatCompletionMessage::Assistant(AssistantMessage {
        content: "A".to_string(),
        name: None,
        tool_calls: vec![],
    });
    let json = message.to_value();
    assert!(json.get("tool_calls").is_none());
    assert_eq!(json, object(vec![("role", text("assistant")), ("content", text("A"))]));
}

#[test]
fn assistant_message_carries_its_calls_in_order() {
    let message = ChatCompletionMessage::Assistant(AssistantMessage {
        content: "A".to_string(),
        name: Some("helper".to_string()),
        tool_calls: vec![call("call_1", "f", "{\"x\":1}"), call("call_2", "g", "{}")],
    });
    let expected_call = |id: &str, name: &str, arguments: &str| {
        object(vec![
            ("id", text(id)),
            ("type", text("function")),
            ("function", object(vec![("name", text(name)), ("arguments", text(arguments))])),
        ])
    };
    assert_eq!(
        message.to_value(),
        object(vec![
            ("role", text("assistant")),
            ("content", text("A")),
            ("name", text("helper")),
            (
                "tool_calls",
                Value::Array(vec![
                    expected_call("call_1", "f", "{\"x\":1}"),
                    expected_call("call_2", "g", "{}"),
                ])
            ),
        ])
    );
}

#[test]
fn tool_message_names_the_call_it_answers() {
    let message = ChatCompletionMessage::Tool(ToolMessage {
        content: "42".to_string(),
        tool_call_id: "call_1".to_string(),
    });
    assert_eq!(
        message.to_value(),
        object(vec![
            ("role", text("tool")),
            ("content", text("42")),
            ("tool_call_id", text("call_1")),
        ])
    );
}

#[test]
fn a_copy_encodes_as_the_message_it_was_copied_from() {
    let messages = vec![
        ChatCompletionMessage::new_system("S", "Q-bot"),
        ChatCompletionMessage::new_user("U", ""),
        ChatCompletionMessage::Assistant(AssistantMessage {
            content: "A".to_string(),
            name: None,
            tool_calls: vec![call("call_1", "f", "{}")],
        }),
        ChatCompletionMessage::Tool(ToolMessage {
            content: "T".to_string(),
            tool_call_id: "call_1".to_string(),
        }),
    ];
    for message in &messages {
        assert_eq!(message.clone().to_value(), message.to_value());
    }
    assert_eq!(
        ChatCompletionMessage::to_values(&messages),
        messages.iter().map(|m| m.to_value()).collect::<Vec<_>>()
    );
}

#[test]
fn tool_calls_come_back_as_they_went_out() {
    let sent = call("call_9", "lookup", "{\"q\":\"rust\"}");
    let decoded = ToolCalls::from_value(&sent.to_value()).unwrap();
    assert_eq!(decoded.id, "call_9");
    assert_eq!(decoded.kind, ToolType::Function);
    assert_eq!(decoded.function.name, "lookup");
    assert_eq!(decoded.function.arguments, "{\"q\":\"rust\"}");
    assert_eq!(ToolType::default(), ToolType::Function);
    assert_eq!(ToolType::Function.as_str(), "function");
    assert_eq!(ToolType::from_name("function"), Some(ToolType::Function));
    assert_eq!(ToolType::from_name("Function"), None);
}
