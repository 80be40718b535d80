//! The models the service offers, and the names it knows them by.

use vstd::prelude::*;
use crate::decode::DecodeError;
use crate::json::{json_of, value_as_str, value_text, Json};
use crate::text::same_text;

verus! {

/// A model of the service.
#[derive(Debug, Clone, Copy, PartialEq, Eq)]
pub enum ChatCompleteModel {
    GPT3Turbo,
    GPT3TurboInstruct,
    GPT4Turbo,
    GPT4TurboVersion,
}

impl ChatCompleteModel {
    /// The model a request asks for when none was chosen.
    pub open spec fn default_model() -> ChatCompleteModel {
        ChatCompleteModel::GPT3Turbo
    }

    /// The name by which the service knows the model.
    pub open spec fn wire_name(self) -> Seq<char> {
        match self {
            ChatCompleteModel::GPT3Turbo => "gpt-3.5-turbo-1106"@,
            ChatCompleteModel::GPT3TurboInstruct => "gpt-3.5-turbo-instruct"@,
            ChatCompleteModel::GPT4Turbo => "gpt-4-1106-preview"@,
            ChatCompleteModel::GPT4TurboVersion => "gpt-4-1106-vision-preview"@,
        }
    }

    /// The model that the service knows by `name`, if there is one.
    pub open spec fn named(name: Seq<char>) -> Option<ChatCompleteModel> {
        if name == "gpt-3.5-turbo-1106"@ {
            Some(ChatCompleteModel::GPT3Turbo)
        } else if name == "gpt-3.5-turbo-instruct"@ {
            Some(ChatCompleteModel::GPT3TurboInstruct)
        } else if name == "gpt-4-1106-preview"@ {
            Some(ChatCompleteModel::GPT4Turbo)
        } else if name == "gpt-4-1106-vision-preview"@ {
            Some(ChatCompleteModel::GPT4TurboVersion)
        } else {
            None
        }
    }

    /// The model's wire form: its name as a JSON string.
    pub open spec fn wire(self) -> Json {
        Json::String(self.wire_name())
    }

    /// The model held by a document: a string that names one.
    pub open spec fn decode(document: Json) -> Result<ChatCompleteModel, DecodeError> {
        match document {
            Json::String(name) => match Self::named(name) {
                Some(model) => Ok(model),
                None => Err(DecodeError::TypeMismatch),
            },
            _ => Err(DecodeError::TypeMismatch),
        }
    }

    /// The name by which the service knows the model.
    pub fn as_str(&self) -> (name: &'static str)
        ensures
            name@ == self.wire_name(),
    {
        match self {
            ChatCompleteModel::GPT3Turbo => "gpt-3.5-turbo-1106",
            ChatCompleteModel::GPT3TurboInstruct => "gpt-3.5-turbo-instruct",
            ChatCompleteModel::GPT4Turbo => "gpt-4-1106-preview",
            ChatCompleteModel::GPT4TurboVersion => "gpt-4-1106-vision-preview",
        }
    }

    /// The model that the service knows by `name`, if there is one.
    pub fn from_name(name: &str) -> (model: Option<ChatCompleteModel>)
        ensures
            model == Self::named(name@),
    {
        if same_text(name, "gpt-3.5-turbo-1106") {
            Some(ChatCompleteModel::GPT3Turbo)
        } else if same_text(name, "gpt-3.5-turbo-instruct") {
            Some(ChatCompleteModel::GPT3TurboInstruct)
        } else if same_text(name, "gpt-4-1106-preview") {
            Some(ChatCompleteModel::GPT4Turbo)
        } else if same_text(name, "gpt-4-1106-vision-preview") {
            Some(ChatCompleteModel::GPT4TurboVersion)
        } else {
            None
        }
    }

    /// Encodes the model as the JSON string of its name.
    pub fn to_value(&self) -> (value: serde_json::Value)
        ensures
            json_of(value) == self.wire(),
    {
        value_text(self.as_str())
    }

    /// Decodes a model from a JSON string that names one.
    pub fn from_value(value: &serde_json::Value) -> (decoded: Result<
        ChatCompleteModel,
        DecodeError,
    >)
        ensures
            decoded == Self::decode(json_of(*value)),
    {
        match value_as_str(value) {
            Some(name) => match ChatCompleteModel::from_name(name) {
                Some(model) => Ok(model),
                None => Err(DecodeError::TypeMismatch),
            },
            None => Err(DecodeError::TypeMismatch),
        }
    }

    /// Every model is found again by its own name.
    pub proof fn lemma_named_inverts_wire_name(self)
        ensures
            Self::named(self.wire_name()) == Some(self),
    {
        reveal_strlit("gpt-3.5-turbo-1106");
        reveal_strlit("gpt-3.5-turbo-instruct");
        reveal_strlit("gpt-4-1106-preview");
        reveal_strlit("gpt-4-1106-vision-preview");
        assert("gpt-3.5-turbo-1106"@.len() == 18);
        assert("gpt-3.5-turbo-instruct"@.len() == 22);
        assert("gpt-4-1106-preview"@.len() == 18);
        assert("gpt-4-1106-vision-preview"@.len() == 25);
        assert("gpt-3.5-turbo-1106"@[4] == '3');
        assert("gpt-4-1106-preview"@[4] == '4');
    }
}

impl Default for ChatCompleteModel {
    /// The model a request asks for when none was chosen.
    fn default() -> (model: ChatCompleteModel)
        ensures
            model == ChatCompleteModel::default_model(),
    {
        ChatCompleteModel::GPT3Turbo
    }
}

} // verus!
