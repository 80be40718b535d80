//! Tools the model may call, the choice among them, and the format asked of
//! the reply.

use vstd::prelude::*;
use crate::lift::views;
use crate::json::{
    documents, entries_insert, entries_new, json_of, value_clone, value_object, value_text,
    Fields, Json,
};
use crate::message::ToolType;

verus! {

/// Which tool, if any, the model is to call.
#[derive(Debug, PartialEq, Eq)]
pub enum ToolChoice {
    /// The model calls no tool and writes a message.
    NoTool,
    /// The model picks between writing a message and calling a tool.
    Auto,
    /// The model calls the function named.
    Function { kind: ToolType, name: String },
}

/// The view of a [`ToolChoice`].
pub enum ToolChoiceView {
    NoTool,
    Auto,
    Function { kind: ToolType, name: Seq<char> },
}

impl View for ToolChoice {
    type V = ToolChoiceView;

    open spec fn view(&self) -> ToolChoiceView {
        match self {
            ToolChoice::NoTool => ToolChoiceView::NoTool,
            ToolChoice::Auto => ToolChoiceView::Auto,
            ToolChoice::Function { kind, name } => ToolChoiceView::Function {
                kind: *kind,
                name: name@,
            },
        }
    }
}

impl ToolChoiceView {
    /// The object that names the function chosen.
    pub open spec fn function_fields(kind: ToolType, name: Seq<char>) -> Fields {
        Fields::empty().insert("type"@, kind.wire()).insert("name"@, Json::String(name))
    }

    /// The choice's wire form: the string `none`, the string `auto`, or an
    /// object whose one field `function` names the function chosen.
    pub open spec fn wire(self) -> Json {
        match self {
            ToolChoiceView::NoTool => Json::String("none"@),
            ToolChoiceView::Auto => Json::String("auto"@),
            ToolChoiceView::Function { kind, name } => Json::Object(
                Fields::empty().insert(
                    "function"@,
                    Json::Object(Self::function_fields(kind, name)),
                ),
            ),
        }
    }

    /// The wire form of a choice, where there is one.
    pub open spec fn optional_wire(choice: Option<ToolChoiceView>) -> Option<Json> {
        match choice {
            Some(c) => Some(c.wire()),
            None => None,
        }
    }
}

impl ToolChoice {
    /// Encodes the choice.
    pub fn to_value(&self) -> (value: serde_json::Value)
        ensures
            json_of(value) == self@.wire(),
    {
        match self {
            ToolChoice::NoTool => value_text("none"),
            ToolChoice::Auto => value_text("auto"),
            ToolChoice::Function { kind, name } => {
                let mut function = entries_new();
                entries_insert(&mut function, "type", kind.to_value());
                entries_insert(&mut function, "name", value_text(name.as_str()));
                let mut entries = entries_new();
                entries_insert(&mut entries, "function", value_object(function));
                value_object(entries)
            },
        }
    }
}

impl Clone for ToolChoice {
    fn clone(&self) -> (copy: ToolChoice)
        ensures
            copy@ == self@,
    {
        match self {
            ToolChoice::NoTool => ToolChoice::NoTool,
            ToolChoice::Auto => ToolChoice::Auto,
            ToolChoice::Function { kind, name } => ToolChoice::Function {
                kind: *kind,
                name: name.clone(),
            },
        }
    }
}

impl Default for ToolChoice {
    fn default() -> (choice: ToolChoice)
        ensures
            choice@ == ToolChoiceView::NoTool,
    {
        ToolChoice::NoTool
    }
}

/// A function the model may call.
#[derive(Debug)]
pub struct FunctionInfo {
    /// What the function does: the model goes by this when it chooses.
    pub description: String,
    /// The name of the function.
    pub name: String,
    /// The parameters the function takes, as a JSON Schema object. It is
    /// passed on as it is.
    pub parameters: serde_json::Value,
}

/// The view of a [`FunctionInfo`].
pub struct FunctionInfoView {
    pub description: Seq<char>,
    pub name: Seq<char>,
    pub parameters: Json,
}

impl View for FunctionInfo {
    type V = FunctionInfoView;

    open spec fn view(&self) -> FunctionInfoView {
        FunctionInfoView {
            description: self.description@,
            name: self.name@,
            parameters: json_of(self.parameters),
        }
    }
}

impl FunctionInfoView {
    /// The fields of the function's wire form.
    pub open spec fn fields(self) -> Fields {
        Fields::empty().insert("description"@, Json::String(self.description)).insert(
            "name"@,
            Json::String(self.name),
        ).insert("parameters"@, self.parameters)
    }

    /// The function's wire form.
    pub open spec fn wire(self) -> Json {
        Json::Object(self.fields())
    }
}

impl FunctionInfo {
    /// Encodes the function as a JSON object.
    pub fn to_value(&self) -> (value: serde_json::Value)
        ensures
            json_of(value) == self@.wire(),
    {
        let mut entries = entries_new();
        entries_insert(&mut entries, "description", value_text(self.description.as_str()));
        entries_insert(&mut entries, "name", value_text(self.name.as_str()));
        entries_insert(&mut entries, "parameters", value_clone(&self.parameters));
        value_object(entries)
    }
}

impl Clone for FunctionInfo {
    fn clone(&self) -> (copy: FunctionInfo)
        ensures
            copy@ == self@,
    {
        FunctionInfo {
            description: self.description.clone(),
            name: self.name.clone(),
            parameters: value_clone(&self.parameters),
        }
    }
}

/// A tool the model may call.
#[derive(Debug)]
pub struct Tool {
    /// The kind of the tool, as the wire names it.
    pub kind: String,
    /// The function that the tool is.
    pub function: FunctionInfo,
}

/// The view of a [`Tool`].
pub struct ToolView {
    pub kind: Seq<char>,
    pub function: FunctionInfoView,
}

impl View for Tool {
    type V = ToolView;

    open spec fn view(&self) -> ToolView {
        ToolView { kind: self.kind@, function: self.function@ }
    }
}

impl ToolView {
    /// The fields of the tool's wire form.
    pub open spec fn fields(self) -> Fields {
        Fields::empty().insert("type"@, Json::String(self.kind)).insert(
            "function"@,
            self.function.wire(),
        )
    }

    /// The tool's wire form.
    pub open spec fn wire(self) -> Json {
        Json::Object(self.fields())
    }

    /// The wire forms of a sequence of tools, in order.
    pub open spec fn wire_all(tools: Seq<ToolView>) -> Seq<Json> {
        tools.map_values(|tool: ToolView| tool.wire())
    }
}

impl Tool {
    /// Encodes the tool as a JSON object.
    pub fn to_value(&self) -> (value: serde_json::Value)
        ensures
            json_of(value) == self@.wire(),
    {
        let mut entries = entries_new();
        entries_insert(&mut entries, "type", value_text(self.kind.as_str()));
        entries_insert(&mut entries, "function", self.function.to_value());
        value_object(entries)
    }

    /// Encodes a list of tools, in order.
    pub fn to_values(tools: &Vec<Tool>) -> (items: Vec<serde_json::Value>)
        ensures
            documents(items@) == ToolView::wire_all(views(tools@)),
    {
        let mut items: Vec<serde_json::Value> = Vec::new();
        let mut i: usize = 0;
        while i < tools.len()
            invariant
                i <= tools.len(),
                documents(items@) == ToolView::wire_all(views(tools@.take(i as int))),
            decreases tools.len() - i,
        {
            let item = tools[i].to_value();
            proof {
                let before = tools@.take(i as int);
                assert(tools@.take(i + 1) == before.push(tools@[i as int]));
                assert(documents(items@.push(item)) == documents(items@).push(json_of(item)));
                assert(ToolView::wire_all(views(before.push(tools@[i as int])))
                    == ToolView::wire_all(views(before)).push(tools@[i as int]@.wire()));
            }
            items.push(item);
            i += 1;
        }
        proof {
            assert(tools@.take(tools.len() as int) == tools@);
        }
        items
    }
}

impl Clone for Tool {
    fn clone(&self) -> (copy: Tool)
        ensures
            copy@ == self@,
    {
        Tool { kind: self.kind.clone(), function: self.function.clone() }
    }
}

/// The format the model's reply is to have.
#[derive(Debug, Clone, Copy, PartialEq, Eq)]
pub enum ChatResponseFormat {
    Text,
    Json,
}

impl ChatResponseFormat {
    /// The name of the format on the wire.
    pub open spec fn wire_name(self) -> Seq<char> {
        match self {
            ChatResponseFormat::Text => "text"@,
            ChatResponseFormat::Json => "json"@,
        }
    }

    /// The format's wire form: its name as a JSON string.
    pub open spec fn wire(self) -> Json {
        Json::String(self.wire_name())
    }

    /// The name of the format on the wire.
    pub fn as_str(&self) -> (name: &'static str)
        ensures
            name@ == self.wire_name(),
    {
        match self {
            ChatResponseFormat::Text => "text",
            ChatResponseFormat::Json => "json",
        }
    }

    /// Encodes the format as the JSON string of its name.
    pub fn to_value(&self) -> (value: serde_json::Value)
        ensures
            json_of(value) == self.wire(),
    {
        value_text(self.as_str())
    }
}

impl Default for ChatResponseFormat {
    fn default() -> (format: ChatResponseFormat)
        ensures
            format == ChatResponseFormat::Json,
    {
        ChatResponseFormat::Json
    }
}

/// The object that carries the format asked of the reply.
#[derive(Debug, Clone, Copy)]
pub struct ChatResponseFormatObject {
    /// The format asked for.
    pub kind: ChatResponseFormat,
}

impl ChatResponseFormatObject {
    /// The fields of the object's wire form.
    pub open spec fn fields(self) -> Fields {
        Fields::empty().insert("type"@, self.kind.wire())
    }

    /// The object's wire form.
    pub open spec fn wire(self) -> Json {
        Json::Object(self.fields())
    }

    /// The wire form of the object, where there is one.
    pub open spec fn optional_wire(format: Option<ChatResponseFormatObject>) -> Option<Json> {
        match format {
            Some(f) => Some(f.wire()),
            None => None,
        }
    }

    /// Encodes the object.
    pub fn to_value(&self) -> (value: serde_json::Value)
        ensures
            json_of(value) == self.wire(),
    {
        let mut entries = entries_new();
        entries_insert(&mut entries, "type", self.kind.to_value());
        value_object(entries)
    }
}

} // verus!
