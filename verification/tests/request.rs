use llm_sdk::{
    BuildError, ChatCompleteModel, ChatCompletionMessage, ChatCompletionRequest,
    ChatCompletionRequestBuilder, ChatResponseFormat, ChatResponseFormatObject, FunctionInfo,
    Tool, ToolChoice, ToolType,
};
use serde_json::Value;

fn object(entries: Vec<(&str, Value)>) -> Value {
    let mut map = serde_json::Map::new();
    for (key, value) in entries {
        map.insert(key.to_string(), value);
    }
    Value::Object(map)
}

fn text(s: &str) -> Value {
    Value::String(s.to_string())
}

fn get_simple_completion_request() -> ChatCompletionRequest {
    let messages = vec![
        ChatCompletionMessage::new_system("我可以回答你问我的任何问题.", "Q-bot"),
        ChatCompletionMessage::new_user("什么是生活?", "zheng"),
    ];
    ChatCompletionRequestBuilder::default()
        .tool_choice(ToolChoice::Auto)
        .messages(messages)
        .build()
        .unwrap()
}

fn simple_messages() -> Value {
    Value::Array(vec![
        object(vec![
            ("role", text("system")),
            ("content", text("我可以回答你问我的任何问题.")),
            ("name", text("Q-bot")),
        ]),
        object(vec![
            ("role", text("user")),
            ("content", text("什么是生活?")),
            ("name", text("zheng")),
        ]),
    ])
}

fn function_choice(name: &str) -> Value {
    object(vec![(
        "function",
        object(vec![("type", text("function")), ("name", text(name))]),
    )])
}

#[test]
fn chat_completion_request_serialize_should_work() {
    let mut req = get_simple_completion_request();
    req.tool_choice = Some(ToolChoice::Function {
        kind: ToolType::Function,
        name: "my_function".to_string(),
    });

    let json = req.to_value();

    assert_eq!(
        json,
        object(vec![
            ("tool_choice", function_choice("my_function")),
            ("model", text("gpt-3.5-turbo-1106")),
            ("messages", simple_messages()),
        ])
    );
    assert_eq!(json.as_object().unwrap().len(), 3);
}

#[test]
fn chat_choice_completion_request_serialize_should_work() {
    let req = get_simple_completion_request();

    let json = req.to_value();

    assert_eq!(
        json,
        object(vec![
            ("tool_choice", text("auto")),
            ("model", text("gpt-3.5-turbo-1106")),
            ("messages", simple_messages()),
        ])
    );
    assert_ne!(
        json,
        object(vec![
            ("tool_choice", function_choice("my_function")),
            ("messages", Value::Array(vec![])),
        ])
    );
}

#[test]
fn build_without_messages_is_refused() {
    let built = ChatCompletionRequestBuilder::default().build();
    assert_eq!(built.unwrap_err(), BuildError::MissingRequiredField);

    let built = ChatCompletionRequestBuilder::default()
        .model(ChatCompleteModel::GPT4Turbo)
        .tool_choice(ToolChoice::Auto)
        .user("someone")
        .build();
    assert_eq!(built.unwrap_err(), BuildError::MissingRequiredField);
}

#[test]
fn messages_alone_encode_with_the_default_model_and_nothing_else() {
    let req = ChatCompletionRequestBuilder::default()
        .messages(vec![ChatCompletionMessage::new_user("hi", "")])
        .build()
        .unwrap();
    assert_eq!(req.model, ChatCompleteModel::GPT3Turbo);
    assert!(req.tools.is_empty());
    assert_eq!(
        req.to_value(),
        object(vec![
            (
                "messages",
                Value::Array(vec![object(vec![
                    ("role", text("user")),
                    ("content", text("hi")),
                ])])
            ),
            ("model", text("gpt-3.5-turbo-1106")),
        ])
    );
}

#[test]
fn empty_messages_encode_as_an_empty_array() {
    let req = ChatCompletionRequestBuilder::default()
        .messages(vec![])
        .build()
        .unwrap();
    let json = req.to_value();
    assert_eq!(json.get("messages"), Some(&Value::Array(vec![])));
    assert_eq!(
        json,
        object(vec![
            ("messages", Value::Array(vec![])),
            ("model", text("gpt-3.5-turbo-1106")),
        ])
    );
}

#[test]
fn every_field_that_is_set_is_encoded() {
    let parameters = object(vec![
        ("type", text("object")),
        ("properties", object(vec![])),
    ]);
    let tool = Tool {
        kind: "function".to_string(),
        function: FunctionInfo {
            description: "Looks up the weather".to_string(),
            name: "weather".to_string(),
            parameters: parameters.clone(),
        },
    };
    let req = ChatCompletionRequestBuilder::default()
        .messages(vec![ChatCompletionMessage::new_user("hi", "")])
        .model(ChatCompleteModel::GPT4TurboVersion)
        .frequency_penalty(-2)
        .max_tokens(256)
        .n(2)
        .presence_penalty(1)
        .response_format(ChatResponseFormatObject { kind: ChatResponseFormat::Json })
        .seed(42)
        .stop("END".to_string())
        .stream(false)
        .temperature(1)
        .top_p(0)
        .tools(vec![tool])
        .tool_choice(ToolChoice::NoTool)
        .user("user-1")
        .build()
        .unwrap();

    let expected = object(vec![
        (
            "messages",
            Value::Array(vec![object(vec![
                ("role", text("user")),
                ("content", text("hi")),
            ])]),
        ),
        ("model", text("gpt-4-1106-vision-preview")),
        ("frequency_penalty", Value::from(-2i64)),
        ("max_tokens", Value::from(256u64)),
        ("n", Value::from(2u64)),
        ("presence_penalty", Value::from(1u64)),
        ("response_format", object(vec![("type", text("json"))])),
        ("seed", Value::from(42u64)),
        ("stop", text("END")),
        ("stream", Value::Bool(false)),
        ("temperature", Value::from(1u64)),
        ("top_p", Value::from(0u64)),
        (
            "tools",
            Value::Array(vec![object(vec![
                ("type", text("function")),
                (
                    "function",
                    object(vec![
                        ("description", text("Looks up the weather")),
                        ("name", text("weather")),
                        ("parameters", parameters),
                    ]),
                ),
            ])]),
        ),
        ("tool_choice", text("none")),
        ("user", text("user-1")),
    ]);
    assert_eq!(req.to_value(), expected);
}

#[test]
fn negative_and_positive_numbers_keep_their_sign() {
    let req = ChatCompletionRequestBuilder::default()
        .messages(vec![])
        .frequency_penalty(-1)
        .temperature(2)
        .build()
        .unwrap();
    let json = req.to_value();
    assert_eq!(json.get("frequency_penalty").unwrap().as_i64(), Some(-1));
    assert_eq!(json.get("frequency_penalty").unwrap().as_u64(), None);
    assert_eq!(json.get("temperature").unwrap().as_u64(), Some(2));
}

#[test]
fn empty_tools_are_left_out() {
    let req = ChatCompletionRequestBuilder::default()
        .messages(vec![])
        .tools(vec![])
        .build()
        .unwrap();
    assert!(req.to_value().get("tools").is_none());
}

#[test]
fn text_response_format_has_its_own_name() {
    let req = ChatCompletionRequestBuilder::default()
        .messages(vec![])
        .response_format(ChatResponseFormatObject { kind: ChatResponseFormat::Text })
        .build()
        .unwrap();
    assert_eq!(
        req.to_value().get("response_format"),
        Some(&object(vec![("type", text("text"))]))
    );
    assert_eq!(ChatResponseFormat::default(), ChatResponseFormat::Json);
    assert_eq!(ChatResponseFormat::Json.as_str(), "json");
    assert_eq!(ChatResponseFormat::Text.as_str(), "text");
}

#[test]
fn function_choice_encodes_the_same_whatever_else_is_set() {
    let choice = || ToolChoice::Function {
        kind: ToolType::Function,
        name: "my_function".to_string(),
    };
    let bare = ChatCompletionRequestBuilder::default()
        .messages(vec![])
        .tool_choice(choice())
        .build()
        .unwrap();
    let full = ChatCompletionRequestBuilder::default()
        .messages(vec![ChatCompletionMessage::new_system("S", "Q-bot")])
        .model(ChatCompleteModel::GPT4Turbo)
        .n(3)
        .stream(true)
        .user("u")
        .tool_choice(choice())
        .build()
        .unwrap();
    let expected = function_choice("my_function");
    assert_eq!(bare.to_value().get("tool_choice"), Some(&expected));
    assert_eq!(full.to_value().get("tool_choice"), Some(&expected));
    assert_eq!(choice().to_value(), expected);
    assert_eq!(ToolChoice::Auto.to_value(), text("auto"));
    assert_eq!(ToolChoice::NoTool.to_value(), text("none"));
    assert_eq!(ToolChoice::default(), ToolChoice::NoTool);
}

#[test]
fn a_later_setting_replaces_an_earlier_one() {
    let req = ChatCompletionRequestBuilder::default()
        .messages(vec![ChatCompletionMessage::new_user("first", "")])
        .messages(vec![])
        .n(1)
        .n(5)
        .build()
        .unwrap();
    assert!(req.messages.is_empty());
    assert_eq!(req.n, Some(5));
}

#[test]
fn a_builder_builds_the_same_request_again() {
    let mut builder = ChatCompletionRequestBuilder::default();
    builder
        .messages(vec![ChatCompletionMessage::new_system("S", "Q-bot")])
        .seed(7);
    let first = builder.build().unwrap();
    let second = builder.build().unwrap();
    assert_eq!(first.to_value(), second.to_value());
    assert_eq!(first.to_bytes(), second.to_bytes());
}

#[test]
fn bytes_are_the_compact_json_text() {
    let req = ChatCompletionRequestBuilder::default()
        .messages(vec![ChatCompletionMessage::new_user("hi", "")])
        .stream(true)
        .build()
        .unwrap();
    let bytes = req.to_bytes().unwrap();
    let expected = [
        r#"{"messages":[{"content":"hi","role":"user"}],"#,
        r#""model":"gpt-3.5-turbo-1106","stream":true}"#,
    ]
    .concat();
    assert_eq!(String::from_utf8(bytes).unwrap(), expected);
}

#[test]
fn model_names_are_exact() {
    assert_eq!(ChatCompleteModel::GPT3Turbo.as_str(), "gpt-3.5-turbo-1106");
    assert_eq!(ChatCompleteModel::GPT3TurboInstruct.as_str(), "gpt-3.5-turbo-instruct");
    assert_eq!(ChatCompleteModel::GPT4Turbo.as_str(), "gpt-4-1106-preview");
    assert_eq!(ChatCompleteModel::GPT4TurboVersion.as_str(), "gpt-4-1106-vision-preview");
    assert_eq!(ChatCompleteModel::default(), ChatCompleteModel::GPT3Turbo);
    for model in [
        ChatCompleteModel::GPT3Turbo,
        ChatCompleteModel::GPT3TurboInstruct,
        ChatCompleteModel::GPT4Turbo,
        ChatCompleteModel::GPT4TurboVersion,
    ] {
        assert_eq!(ChatCompleteModel::from_name(model.as_str()), Some(model));
        assert_eq!(model.to_value(), text(model.as_str()));
    }
    assert_eq!(ChatCompleteModel::from_name("GPT3Turbo"), None);
    assert_eq!(ChatCompleteModel::from_name("gpt-3.5-turbo-110"), None);
    assert_eq!(ChatCompleteModel::from_name(""), None);
}
