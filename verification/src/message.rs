//! The turns of a conversation, and the tool calls an assistant turn may
//! carry.
//!
//! On the wire a message is one JSON object: a `role` field names the kind of
//! turn, and the turn's own fields stand beside it.

use vstd::prelude::*;
use crate::lift::views;
use crate::decode::{
    decode_each, lemma_decode_each_keeps_error, list_outcome_view, optional_field_text,
    outcome_view, read_optional_text, read_text, required_field, required_list, required_text,
    DecodeError,
};
use crate::json::{
    documents, entries_get, entries_insert, entries_new, json_of, non_empty_array, optional_string,
    value_array, value_as_array, value_as_object, value_as_str, value_object, value_text,
    with_optional, Fields, Json,
};
use crate::encode::{put_optional, put_optional_text};
use crate::text::{copy_optional_text, same_text};

verus! {

/// The kind of a tool. Functions are the only kind there is.
#[derive(Debug, Clone, Copy, PartialEq, Eq)]
pub enum ToolType {
    Function,
}

impl ToolType {
    /// The name of the kind on the wire.
    pub open spec fn wire_name(self) -> Seq<char> {
        "function"@
    }

    /// The kind that the wire calls `name`, if there is one.
    pub open spec fn named(name: Seq<char>) -> Option<ToolType> {
        if name == "function"@ {
            Some(ToolType::Function)
        } else {
            None
        }
    }

    /// The kind's wire form: its name as a JSON string.
    pub open spec fn wire(self) -> Json {
        Json::String(self.wire_name())
    }

    /// The kind held by a document: a string that names one.
    pub open spec fn decode(document: Json) -> Result<ToolType, DecodeError> {
        match document {
            Json::String(name) => match Self::named(name) {
                Some(kind) => Ok(kind),
                None => Err(DecodeError::TypeMismatch),
            },
            _ => Err(DecodeError::TypeMismatch),
        }
    }

    /// The name of the kind on the wire.
    pub fn as_str(&self) -> (name: &'static str)
        ensures
            name@ == self.wire_name(),
    {
        "function"
    }

    /// The kind that the wire calls `name`, if there is one.
    pub fn from_name(name: &str) -> (kind: Option<ToolType>)
        ensures
            kind == Self::named(name@),
    {
        if same_text(name, "function") {
            Some(ToolType::Function)
        } else {
            None
        }
    }

    /// Encodes the kind as the JSON string of its name.
    pub fn to_value(&self) -> (value: serde_json::Value)
        ensures
            json_of(value) == self.wire(),
    {
        value_text(self.as_str())
    }

    /// Decodes a kind from a JSON string that names one.
    pub fn from_value(value: &serde_json::Value) -> (decoded: Result<ToolType, DecodeError>)
        ensures
            decoded == Self::decode(json_of(*value)),
    {
        match value_as_str(value) {
            Some(name) => match ToolType::from_name(name) {
                Some(kind) => Ok(kind),
                None => Err(DecodeError::TypeMismatch),
            },
            None => Err(DecodeError::TypeMismatch),
        }
    }
}

impl Default for ToolType {
    fn default() -> (kind: ToolType)
        ensures
            kind == ToolType::Function,
    {
        ToolType::Function
    }
}

/// The function an assistant asks to have called.
#[derive(Debug)]
pub struct FunctionCall {
    /// The name of the function to call.
    pub name: String,
    /// The arguments to call it with, as JSON text written by the model.
    pub arguments: String,
}

/// The view of a [`FunctionCall`].
pub struct FunctionCallView {
    pub name: Seq<char>,
    pub arguments: Seq<char>,
}

impl View for FunctionCall {
    type V = FunctionCallView;

    open spec fn view(&self) -> FunctionCallView {
        FunctionCallView { name: self.name@, arguments: self.arguments@ }
    }
}

impl FunctionCallView {
    /// The fields of the call's wire form.
    pub open spec fn fields(self) -> Fields {
        Fields::empty().insert("name"@, Json::String(self.name)).insert(
            "arguments"@,
            Json::String(self.arguments),
        )
    }

    /// The call's wire form.
    pub open spec fn wire(self) -> Json {
        Json::Object(self.fields())
    }

    /// The call held by a document: an object whose `name` and `arguments`
    /// are strings. `name` is looked at first.
    pub open spec fn decode(document: Json) -> Result<FunctionCallView, DecodeError> {
        match document {
            Json::Object(fields) => {
                let name = required_text(fields, "name"@);
                let arguments = required_text(fields, "arguments"@);
                if name is Err {
                    Err(name->Err_0)
                } else if arguments is Err {
                    Err(arguments->Err_0)
                } else {
                    Ok(FunctionCallView { name: name->Ok_0, arguments: arguments->Ok_0 })
                }
            },
            _ => Err(DecodeError::TypeMismatch),
        }
    }
}

impl FunctionCall {
    /// Encodes the call as a JSON object.
    pub fn to_value(&self) -> (value: serde_json::Value)
        ensures
            json_of(value) == self@.wire(),
    {
        let mut entries = entries_new();
        entries_insert(&mut entries, "name", value_text(self.name.as_str()));
        entries_insert(&mut entries, "arguments", value_text(self.arguments.as_str()));
        value_object(entries)
    }

    /// Decodes a call from a JSON object.
    pub fn from_value(value: &serde_json::Value) -> (decoded: Result<FunctionCall, DecodeError>)
        ensures
            outcome_view(decoded) == FunctionCallView::decode(json_of(*value)),
    {
        match value_as_object(value) {
            None => Err(DecodeError::TypeMismatch),
            Some(entries) => {
                let name = match read_text(entries, "name") {
                    Ok(text) => text,
                    Err(error) => { return Err(error); },
                };
                let arguments = match read_text(entries, "arguments") {
                    Ok(text) => text,
                    Err(error) => { return Err(error); },
                };
                Ok(FunctionCall { name, arguments })
            },
        }
    }
}

impl Clone for FunctionCall {
    fn clone(&self) -> (copy: FunctionCall)
        ensures
            copy@ == self@,
    {
        FunctionCall { name: self.name.clone(), arguments: self.arguments.clone() }
    }
}

/// A call of a tool that the assistant asks for.
#[derive(Debug)]
pub struct ToolCalls {
    /// The identifier of the call.
    pub id: String,
    /// The kind of tool called.
    pub kind: ToolType,
    /// The function called, and its arguments.
    pub function: FunctionCall,
}

/// The view of a [`ToolCalls`].
pub struct ToolCallsView {
    pub id: Seq<char>,
    pub kind: ToolType,
    pub function: FunctionCallView,
}

impl View for ToolCalls {
    type V = ToolCallsView;

    open spec fn view(&self) -> ToolCallsView {
        ToolCallsView { id: self.id@, kind: self.kind, function: self.function@ }
    }
}

impl ToolCallsView {
    /// The fields of the call's wire form.
    pub open spec fn fields(self) -> Fields {
        Fields::empty().insert("id"@, Json::String(self.id)).insert(
            "type"@,
            self.kind.wire(),
        ).insert("function"@, self.function.wire())
    }

    /// The call's wire form.
    pub open spec fn wire(self) -> Json {
        Json::Object(self.fields())
    }

    /// The wire forms of a sequence of calls, in order.
    pub open spec fn wire_all(calls: Seq<ToolCallsView>) -> Seq<Json> {
        calls.map_values(|call: ToolCallsView| call.wire())
    }

    /// The call held by a document: an object with a string `id`, a `type`
    /// that names a kind of tool, and a `function`. The fields are looked at
    /// in that order.
    pub open spec fn decode(document: Json) -> Result<ToolCallsView, DecodeError> {
        match document {
            Json::Object(fields) => {
                let id = required_text(fields, "id"@);
                let kind = required_field(fields, "type"@, |d: Json| ToolType::decode(d));
                let function = required_field(
                    fields,
                    "function"@,
                    |d: Json| FunctionCallView::decode(d),
                );
                if id is Err {
                    Err(id->Err_0)
                } else if kind is Err {
                    Err(kind->Err_0)
                } else if function is Err {
                    Err(function->Err_0)
                } else {
                    Ok(ToolCallsView { id: id->Ok_0, kind: kind->Ok_0, function: function->Ok_0 })
                }
            },
            _ => Err(DecodeError::TypeMismatch),
        }
    }

    /// The calls held by a sequence of documents, or the error of the first
    /// document that holds none.
    pub open spec fn decode_all(items: Seq<Json>) -> Result<Seq<ToolCallsView>, DecodeError> {
        decode_each(items, |d: Json| ToolCallsView::decode(d))
    }
}

impl ToolCalls {
    /// Encodes the call as a JSON object.
    pub fn to_value(&self) -> (value: serde_json::Value)
        ensures
            json_of(value) == self@.wire(),
    {
        let mut entries = entries_new();
        entries_insert(&mut entries, "id", value_text(self.id.as_str()));
        entries_insert(&mut entries, "type", self.kind.to_value());
        entries_insert(&mut entries, "function", self.function.to_value());
        value_object(entries)
    }

    /// Encodes a list of calls, in order.
    pub fn to_values(calls: &Vec<ToolCalls>) -> (items: Vec<serde_json::Value>)
        ensures
            documents(items@) == ToolCallsView::wire_all(views(calls@)),
    {
        let mut items: Vec<serde_json::Value> = Vec::new();
        let mut i: usize = 0;
        while i < calls.len()
            invariant
                i <= calls.len(),
                documents(items@) == ToolCallsView::wire_all(views(calls@.take(i as int))),
            decreases calls.len() - i,
        {
            let item = calls[i].to_value();
            proof {
                let before = calls@.take(i as int);
                assert(calls@.take(i + 1) == before.push(calls@[i as int]));
                assert(documents(items@.push(item)) == documents(items@).push(json_of(item)));
                assert(ToolCallsView::wire_all(views(before.push(calls@[i as int])))
                    == ToolCallsView::wire_all(views(before)).push(calls@[i as int]@.wire()));
            }
            items.push(item);
            i += 1;
        }
        proof {
            assert(calls@.take(calls.len() as int) == calls@);
        }
        items
    }

    /// Decodes a call from a JSON object.
    pub fn from_value(value: &serde_json::Value) -> (decoded: Result<ToolCalls, DecodeError>)
        ensures
            outcome_view(decoded) == ToolCallsView::decode(json_of(*value)),
    {
        match value_as_object(value) {
            None => Err(DecodeError::TypeMismatch),
            Some(entries) => {
                let id = match read_text(entries, "id") {
                    Ok(text) => text,
                    Err(error) => { return Err(error); },
                };
                let kind = match entries_get(entries, "type") {
                    None => { return Err(DecodeError::MissingField); },
                    Some(field) => match ToolType::from_value(field) {
                        Ok(kind) => kind,
                        Err(error) => { return Err(error); },
                    },
                };
                let function = match entries_get(entries, "function") {
                    None => { return Err(DecodeError::MissingField); },
                    Some(field) => match FunctionCall::from_value(field) {
                        Ok(function) => function,
                        Err(error) => { return Err(error); },
                    },
                };
                Ok(ToolCalls { id, kind, function })
            },
        }
    }

    /// Decodes a list of calls: all of them, or the error of the first
    /// document that holds none.
    pub fn from_values(items: &Vec<serde_json::Value>) -> (decoded: Result<
        Vec<ToolCalls>,
        DecodeError,
    >)
        ensures
            list_outcome_view(decoded) == ToolCallsView::decode_all(documents(items@)),
    {
        let mut calls: Vec<ToolCalls> = Vec::new();
        let mut i: usize = 0;
        proof {
            assert(documents(items@).take(0) =~= Seq::empty());
            assert(views(calls@) =~= Seq::empty());
        }
        while i < items.len()
            invariant
                i <= items.len(),
                ToolCallsView::decode_all(documents(items@).take(i as int)) == Ok::<
                    _,
                    DecodeError,
                >(views(calls@)),
            decreases items.len() - i,
        {
            proof {
                let upto = documents(items@).take(i + 1);
                assert(upto.drop_last() == documents(items@).take(i as int));
                assert(upto.last() == json_of(items@[i as int]));
            }
            match ToolCalls::from_value(&items[i]) {
                Ok(call) => {
                    proof {
                        assert(views(calls@.push(call)) == views(calls@).push(call@));
                    }
                    calls.push(call);
                },
                Err(error) => {
                    proof {
                        lemma_decode_each_keeps_error(
                            documents(items@),
                            |d: Json| ToolCallsView::decode(d),
                            i + 1,
                        );
                    }
                    return Err(error);
                },
            }
            i += 1;
        }
        proof {
            assert(documents(items@).take(items.len() as int) == documents(items@));
        }
        Ok(calls)
    }
}

impl Clone for ToolCalls {
    fn clone(&self) -> (copy: ToolCalls)
        ensures
            copy@ == self@,
    {
        ToolCalls { id: self.id.clone(), kind: self.kind, function: self.function.clone() }
    }
}

/// Instructions that frame the conversation.
#[derive(Debug)]
pub struct SystemMessage {
    /// The contents of the message.
    pub content: String,
    /// A name for the participant, to tell participants of one role apart.
    pub name: Option<String>,
}

/// The view of a [`SystemMessage`].
pub struct SystemMessageView {
    pub content: Seq<char>,
    pub name: Option<Seq<char>>,
}

impl View for SystemMessage {
    type V = SystemMessageView;

    open spec fn view(&self) -> SystemMessageView {
        SystemMessageView { content: self.content@, name: self.name.deep_view() }
    }
}

impl SystemMessageView {
    /// The fields of the message's wire form: `name` is left out where the
    /// message has none.
    pub open spec fn fields(self) -> Fields {
        with_optional(
            Fields::empty().insert("role"@, Json::String("system"@)).insert(
                "content"@,
                Json::String(self.content),
            ),
            "name"@,
            optional_string(self.name),
        )
    }

    /// The message's wire form.
    pub open spec fn wire(self) -> Json {
        Json::Object(self.fields())
    }
}

impl SystemMessage {
    /// Encodes the message as a JSON object.
    pub fn to_value(&self) -> (value: serde_json::Value)
        ensures
            json_of(value) == self@.wire(),
    {
        let mut entries = entries_new();
        entries_insert(&mut entries, "role", value_text("system"));
        entries_insert(&mut entries, "content", value_text(self.content.as_str()));
        put_optional_text(&mut entries, "name", &self.name);
        value_object(entries)
    }
}

impl Clone for SystemMessage {
    fn clone(&self) -> (copy: SystemMessage)
        ensures
            copy@ == self@,
    {
        SystemMessage { content: self.content.clone(), name: copy_optional_text(&self.name) }
    }
}

/// What a user said.
#[derive(Debug)]
pub struct UserMessage {
    /// The contents of the message.
    pub content: String,
    /// A name for the participant, to tell participants of one role apart.
    pub name: Option<String>,
}

/// The view of a [`UserMessage`].
pub struct UserMessageView {
    pub content: Seq<char>,
    pub name: Option<Seq<char>>,
}

impl View for UserMessage {
    type V = UserMessageView;

    open spec fn view(&self) -> UserMessageView {
        UserMessageView { content: self.content@, name: self.name.deep_view() }
    }
}

impl UserMessageView {
    /// The fields of the message's wire form: `name` is left out where the
    /// message has none.
    pub open spec fn fields(self) -> Fields {
        with_optional(
            Fields::empty().insert("role"@, Json::String("user"@)).insert(
                "content"@,
                Json::String(self.content),
            ),
            "name"@,
            optional_string(self.name),
        )
    }

    /// The message's wire form.
    pub open spec fn wire(self) -> Json {
        Json::Object(self.fields())
    }
}

impl UserMessage {
    /// Encodes the message as a JSON object.
    pub fn to_value(&self) -> (value: serde_json::Value)
        ensures
            json_of(value) == self@.wire(),
    {
        let mut entries = entries_new();
        entries_insert(&mut entries, "role", value_text("user"));
        entries_insert(&mut entries, "content", value_text(self.content.as_str()));
        put_optional_text(&mut entries, "name", &self.name);
        value_object(entries)
    }
}

impl Clone for UserMessage {
    fn clone(&self) -> (copy: UserMessage)
        ensures
            copy@ == self@,
    {
        UserMessage { content: self.content.clone(), name: copy_optional_text(&self.name) }
    }
}

/// What the assistant answered, with the tool calls it asks for.
#[derive(Debug)]
pub struct AssistantMessage {
    /// The contents of the message.
    pub content: String,
    /// A name for the participant, to tell participants of one role apart.
    pub name: Option<String>,
    /// The tool calls the assistant asks for, in order. May be empty.
    pub tool_calls: Vec<ToolCalls>,
}

/// The view of an [`AssistantMessage`].
pub struct AssistantMessageView {
    pub content: Seq<char>,
    pub name: Option<Seq<char>>,
    pub tool_calls: Seq<ToolCallsView>,
}

impl View for AssistantMessage {
    type V = AssistantMessageView;

    open spec fn view(&self) -> AssistantMessageView {
        AssistantMessageView {
            content: self.content@,
            name: self.name.deep_view(),
            tool_calls: views(self.tool_calls@),
        }
    }
}

impl AssistantMessageView {
    /// The fields of the message's wire form: `name` is left out where the
    /// message has none, and `tool_calls` where there are no calls.
    pub open spec fn fields(self) -> Fields {
        with_optional(
            with_optional(
                Fields::empty().insert("role"@, Json::String("assistant"@)).insert(
                    "content"@,
                    Json::String(self.content),
                ),
                "name"@,
                optional_string(self.name),
            ),
            "tool_calls"@,
            non_empty_array(ToolCallsView::wire_all(self.tool_calls)),
        )
    }

    /// The message's wire form.
    pub open spec fn wire(self) -> Json {
        Json::Object(self.fields())
    }

    /// The message held by a document of a reply: an object with a string
    /// `content`, a `name` that is a string, `null` or absent, and an array
    /// `tool_calls`. The fields are looked at in that order; any other field
    /// is passed over.
    pub open spec fn decode(document: Json) -> Result<AssistantMessageView, DecodeError> {
        match document {
            Json::Object(fields) => {
                let content = required_text(fields, "content"@);
                let name = optional_field_text(fields, "name"@);
                let tool_calls = required_list(
                    fields,
                    "tool_calls"@,
                    |d: Json| ToolCallsView::decode(d),
                );
                if content is Err {
                    Err(content->Err_0)
                } else if name is Err {
                    Err(name->Err_0)
                } else if tool_calls is Err {
                    Err(tool_calls->Err_0)
                } else {
                    Ok(
                        AssistantMessageView {
                            content: content->Ok_0,
                            name: name->Ok_0,
                            tool_calls: tool_calls->Ok_0,
                        },
                    )
                }
            },
            _ => Err(DecodeError::TypeMismatch),
        }
    }
}

impl AssistantMessage {
    /// Encodes the message as a JSON object.
    pub fn to_value(&self) -> (value: serde_json::Value)
        ensures
            json_of(value) == self@.wire(),
    {
        let mut entries = entries_new();
        entries_insert(&mut entries, "role", value_text("assistant"));
        entries_insert(&mut entries, "content", value_text(self.content.as_str()));
        put_optional_text(&mut entries, "name", &self.name);
        let tool_calls = if self.tool_calls.len() > 0 {
            Some(value_array(ToolCalls::to_values(&self.tool_calls)))
        } else {
            None
        };
        put_optional(&mut entries, "tool_calls", tool_calls);
        value_object(entries)
    }

    /// Decodes a message from the JSON object of a reply.
    pub fn from_value(value: &serde_json::Value) -> (decoded: Result<
        AssistantMessage,
        DecodeError,
    >)
        ensures
            outcome_view(decoded) == AssistantMessageView::decode(json_of(*value)),
    {
        match value_as_object(value) {
            None => Err(DecodeError::TypeMismatch),
            Some(entries) => {
                let content = match read_text(entries, "content") {
                    Ok(text) => text,
                    Err(error) => { return Err(error); },
                };
                let name = match read_optional_text(entries, "name") {
                    Ok(text) => text,
                    Err(error) => { return Err(error); },
                };
                let tool_calls = match entries_get(entries, "tool_calls") {
                    None => { return Err(DecodeError::MissingField); },
                    Some(field) => match value_as_array(field) {
                        None => { return Err(DecodeError::TypeMismatch); },
                        Some(items) => match ToolCalls::from_values(items) {
                            Ok(calls) => calls,
                            Err(error) => { return Err(error); },
                        },
                    },
                };
                Ok(AssistantMessage { content, name, tool_calls })
            },
        }
    }
}

impl Clone for AssistantMessage {
    fn clone(&self) -> (copy: AssistantMessage)
        ensures
            copy@ == self@,
    {
        let tool_calls = self.tool_calls.clone();
        proof {
            assert(views(tool_calls@) =~= views(self.tool_calls@));
        }
        AssistantMessage {
            content: self.content.clone(),
            name: copy_optional_text(&self.name),
            tool_calls,
        }
    }
}

/// What a tool returned for a call.
#[derive(Debug)]
pub struct ToolMessage {
    /// The contents of the message.
    pub content: String,
    /// The call that this message answers.
    pub tool_call_id: String,
}

/// The view of a [`ToolMessage`].
pub struct ToolMessageView {
    pub content: Seq<char>,
    pub tool_call_id: Seq<char>,
}

impl View for ToolMessage {
    type V = ToolMessageView;

    open spec fn view(&self) -> ToolMessageView {
        ToolMessageView { content: self.content@, tool_call_id: self.tool_call_id@ }
    }
}

impl ToolMessageView {
    /// The fields of the message's wire form.
    pub open spec fn fields(self) -> Fields {
        Fields::empty().insert("role"@, Json::String("tool"@)).insert(
            "content"@,
            Json::String(self.content),
        ).insert("tool_call_id"@, Json::String(self.tool_call_id))
    }

    /// The message's wire form.
    pub open spec fn wire(self) -> Json {
        Json::Object(self.fields())
    }
}

impl ToolMessage {
    /// Encodes the message as a JSON object.
    pub fn to_value(&self) -> (value: serde_json::Value)
        ensures
            json_of(value) == self@.wire(),
    {
        let mut entries = entries_new();
        entries_insert(&mut entries, "role", value_text("tool"));
        entries_insert(&mut entries, "content", value_text(self.content.as_str()));
        entries_insert(&mut entries, "tool_call_id", value_text(self.tool_call_id.as_str()));
        value_object(entries)
    }
}

impl Clone for ToolMessage {
    fn clone(&self) -> (copy: ToolMessage)
        ensures
            copy@ == self@,
    {
        ToolMessage { content: self.content.clone(), tool_call_id: self.tool_call_id.clone() }
    }
}

/// One turn of a conversation.
#[derive(Debug)]
pub enum ChatCompletionMessage {
    /// A message from the system.
    System(SystemMessage),
    /// A message from a user.
    User(UserMessage),
    /// A message from the assistant.
    Assistant(AssistantMessage),
    /// A message from a tool.
    Tool(ToolMessage),
}

/// The view of a [`ChatCompletionMessage`].
pub enum ChatCompletionMessageView {
    System(SystemMessageView),
    User(UserMessageView),
    Assistant(AssistantMessageView),
    Tool(ToolMessageView),
}

impl View for ChatCompletionMessage {
    type V = ChatCompletionMessageView;

    open spec fn view(&self) -> ChatCompletionMessageView {
        match self {
            ChatCompletionMessage::System(m) => ChatCompletionMessageView::System(m@),
            ChatCompletionMessage::User(m) => ChatCompletionMessageView::User(m@),
            ChatCompletionMessage::Assistant(m) => ChatCompletionMessageView::Assistant(m@),
            ChatCompletionMessage::Tool(m) => ChatCompletionMessageView::Tool(m@),
        }
    }
}

/// The name a participant goes by: none where `name` is empty, and `name`
/// itself otherwise.
pub open spec fn participant_name(name: Seq<char>) -> Option<Seq<char>> {
    if name.len() == 0 {
        None
    } else {
        Some(name)
    }
}

impl ChatCompletionMessageView {
    /// The message's wire form: that of the turn it holds, whose `role` tells
    /// the kinds of turn apart.
    pub open spec fn wire(self) -> Json {
        match self {
            ChatCompletionMessageView::System(m) => m.wire(),
            ChatCompletionMessageView::User(m) => m.wire(),
            ChatCompletionMessageView::Assistant(m) => m.wire(),
            ChatCompletionMessageView::Tool(m) => m.wire(),
        }
    }

    /// The wire forms of a sequence of messages, in order.
    pub open spec fn wire_all(messages: Seq<ChatCompletionMessageView>) -> Seq<Json> {
        messages.map_values(|message: ChatCompletionMessageView| message.wire())
    }
}

impl ChatCompletionMessage {
    /// A system message with the given content. An empty `name` stands for no
    /// name.
    pub fn new_system(content: &str, name: &str) -> (message: ChatCompletionMessage)
        ensures
            message@ == ChatCompletionMessageView::System(
                SystemMessageView { content: content@, name: participant_name(name@) },
            ),
    {
        ChatCompletionMessage::System(
            SystemMessage { content: content.to_owned(), name: Self::get_name(name) },
        )
    }

    /// A user message with the given content. An empty `name` stands for no
    /// name.
    pub fn new_user(content: &str, name: &str) -> (message: ChatCompletionMessage)
        ensures
            message@ == ChatCompletionMessageView::User(
                UserMessageView { content: content@, name: participant_name(name@) },
            ),
    {
        ChatCompletionMessage::User(
            UserMessage { content: content.to_owned(), name: Self::get_name(name) },
        )
    }

    /// The name a participant goes by: none where `name` is empty.
    pub fn get_name(name: &str) -> (found: Option<String>)
        ensures
            found.deep_view() == participant_name(name@),
    {
        if name.is_empty() {
            None
        } else {
            Some(name.to_owned())
        }
    }

    /// Encodes the message as a JSON object.
    pub fn to_value(&self) -> (value: serde_json::Value)
        ensures
            json_of(value) == self@.wire(),
    {
        match self {
            ChatCompletionMessage::System(m) => m.to_value(),
            ChatCompletionMessage::User(m) => m.to_value(),
            ChatCompletionMessage::Assistant(m) => m.to_value(),
            ChatCompletionMessage::Tool(m) => m.to_value(),
        }
    }

    /// Encodes a list of messages, in order.
    pub fn to_values(messages: &Vec<ChatCompletionMessage>) -> (items: Vec<serde_json::Value>)
        ensures
            documents(items@) == ChatCompletionMessageView::wire_all(views(messages@)),
    {
        let mut items: Vec<serde_json::Value> = Vec::new();
        let mut i: usize = 0;
        while i < messages.len()
            invariant
                i <= messages.len(),
                documents(items@) == ChatCompletionMessageView::wire_all(
                    views(messages@.take(i as int)),
                ),
            decreases messages.len() - i,
        {
            let item = messages[i].to_value();
            proof {
                let before = messages@.take(i as int);
                assert(messages@.take(i + 1) == before.push(messages@[i as int]));
                assert(documents(items@.push(item)) == documents(items@).push(json_of(item)));
                assert(ChatCompletionMessageView::wire_all(
                    views(before.push(messages@[i as int])),
                ) == ChatCompletionMessageView::wire_all(views(before)).push(
                    messages@[i as int]@.wire(),
                ));
            }
            items.push(item);
            i += 1;
        }
        proof {
            assert(messages@.take(messages.len() as int) == messages@);
        }
        items
    }
}

impl Clone for ChatCompletionMessage {
    fn clone(&self) -> (copy: ChatCompletionMessage)
        ensures
            copy@ == self@,
    {
        match self {
            ChatCompletionMessage::System(m) => ChatCompletionMessage::System(m.clone()),
            ChatCompletionMessage::User(m) => ChatCompletionMessage::User(m.clone()),
            ChatCompletionMessage::Assistant(m) => ChatCompletionMessage::Assistant(m.clone()),
            ChatCompletionMessage::Tool(m) => ChatCompletionMessage::Tool(m.clone()),
        }
    }
}

} // verus!
