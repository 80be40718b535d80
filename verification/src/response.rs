//! The service's reply to a request, and how it is decoded.
//!
//! A reply is a JSON object. Fields that the types here do not model are
//! passed over. Where several fields are at fault, the error is that of the
//! first one in the order in which each decoder names its fields.

use vstd::prelude::*;
use crate::lift::{copy_list, views};
use crate::decode::{
    decode_each, defaulted_field, defaulted_list, lemma_decode_each_keeps_error,
    list_outcome_view, outcome_view, read_count, read_text, required_count, required_field,
    required_text, DecodeError,
};
use crate::json::{
    documents, entries_get, json_of, parsed_document, value_as_array, value_as_object,
    value_as_str, value_from_bytes, Json,
};
use crate::message::{AssistantMessage, AssistantMessageView};
use crate::model::ChatCompleteModel;
use crate::text::same_text;

verus! {

/// Why the model stopped generating.
#[derive(Debug, Clone, Copy, PartialEq, Eq)]
pub enum FinishReason {
    /// A natural stop, or a stop sequence.
    Stop,
    /// The limit on tokens was reached.
    Length,
    /// Content was left out by a content filter.
    ContentFilter,
    /// The model called a tool.
    ToolCalls,
}

impl FinishReason {
    /// The reason that the wire calls `name`, if there is one.
    pub open spec fn named(name: Seq<char>) -> Option<FinishReason> {
        if name == "stop"@ {
            Some(FinishReason::Stop)
        } else if name == "length"@ {
            Some(FinishReason::Length)
        } else if name == "content_filter"@ {
            Some(FinishReason::ContentFilter)
        } else if name == "tool_calls"@ {
            Some(FinishReason::ToolCalls)
        } else {
            None
        }
    }

    /// The reason held by a document: a string that names one.
    pub open spec fn decode(document: Json) -> Result<FinishReason, DecodeError> {
        match document {
            Json::String(name) => match Self::named(name) {
                Some(reason) => Ok(reason),
                None => Err(DecodeError::TypeMismatch),
            },
            _ => Err(DecodeError::TypeMismatch),
        }
    }

    /// The reason that the wire calls `name`, if there is one.
    pub fn from_name(name: &str) -> (reason: Option<FinishReason>)
        ensures
            reason == Self::named(name@),
    {
        if same_text(name, "stop") {
            Some(FinishReason::Stop)
        } else if same_text(name, "length") {
            Some(FinishReason::Length)
        } else if same_text(name, "content_filter") {
            Some(FinishReason::ContentFilter)
        } else if same_text(name, "tool_calls") {
            Some(FinishReason::ToolCalls)
        } else {
            None
        }
    }

    /// Decodes a reason from a JSON string that names one.
    pub fn from_value(value: &serde_json::Value) -> (decoded: Result<FinishReason, DecodeError>)
        ensures
            decoded == Self::decode(json_of(*value)),
    {
        match value_as_str(value) {
            Some(name) => match FinishReason::from_name(name) {
                Some(reason) => Ok(reason),
                None => Err(DecodeError::TypeMismatch),
            },
            None => Err(DecodeError::TypeMismatch),
        }
    }
}

impl Default for FinishReason {
    fn default() -> (reason: FinishReason)
        ensures
            reason == FinishReason::Stop,
    {
        FinishReason::Stop
    }
}

/// How many tokens a request used.
#[derive(Debug, Clone, Copy, PartialEq, Eq)]
pub struct ChatCompletionUsage {
    /// Tokens in the completion.
    pub completion_tokens: usize,
    /// Tokens in the prompt.
    pub prompt_tokens: usize,
    /// Tokens in all.
    pub total_tokens: usize,
}

impl ChatCompletionUsage {
    /// The usage held by a document: an object whose `completion_tokens`,
    /// `prompt_tokens` and `total_tokens` are counts. The fields are looked at
    /// in that order.
    pub open spec fn decode(document: Json) -> Result<ChatCompletionUsage, DecodeError> {
        match document {
            Json::Object(fields) => {
                let completion_tokens = required_count(fields, "completion_tokens"@);
                let prompt_tokens = required_count(fields, "prompt_tokens"@);
                let total_tokens = required_count(fields, "total_tokens"@);
                if completion_tokens is Err {
                    Err(completion_tokens->Err_0)
                } else if prompt_tokens is Err {
                    Err(prompt_tokens->Err_0)
                } else if total_tokens is Err {
                    Err(total_tokens->Err_0)
                } else {
                    Ok(
                        ChatCompletionUsage {
                            completion_tokens: completion_tokens->Ok_0,
                            prompt_tokens: prompt_tokens->Ok_0,
                            total_tokens: total_tokens->Ok_0,
                        },
                    )
                }
            },
            _ => Err(DecodeError::TypeMismatch),
        }
    }

    /// Decodes the usage from a JSON object.
    pub fn from_value(value: &serde_json::Value) -> (decoded: Result<
        ChatCompletionUsage,
        DecodeError,
    >)
        ensures
            decoded == Self::decode(json_of(*value)),
    {
        match value_as_object(value) {
            None => Err(DecodeError::TypeMismatch),
            Some(entries) => {
                let completion_tokens = match read_count(entries, "completion_tokens") {
                    Ok(count) => count,
                    Err(error) => { return Err(error); },
                };
                let prompt_tokens = match read_count(entries, "prompt_tokens") {
                    Ok(count) => count,
                    Err(error) => { return Err(error); },
                };
                let total_tokens = match read_count(entries, "total_tokens") {
                    Ok(count) => count,
                    Err(error) => { return Err(error); },
                };
                Ok(ChatCompletionUsage { completion_tokens, prompt_tokens, total_tokens })
            },
        }
    }
}

/// One completion of a reply.
#[derive(Debug)]
pub struct ChatCompletionChoice {
    /// Why the model stopped generating.
    pub finish_reason: FinishReason,
    /// The place of the choice in the list of choices.
    pub index: usize,
    /// The message the model generated.
    pub message: AssistantMessage,
}

/// The view of a [`ChatCompletionChoice`].
pub struct ChatCompletionChoiceView {
    pub finish_reason: FinishReason,
    pub index: usize,
    pub message: AssistantMessageView,
}

impl View for ChatCompletionChoice {
    type V = ChatCompletionChoiceView;

    open spec fn view(&self) -> ChatCompletionChoiceView {
        ChatCompletionChoiceView {
            finish_reason: self.finish_reason,
            index: self.index,
            message: self.message@,
        }
    }
}

impl ChatCompletionChoiceView {
    /// The choice held by a document: an object with a `finish_reason` that
    /// names a reason, or none, which stands for `Stop`; a count `index`; and
    /// a `message`. The fields are looked at in that order.
    pub open spec fn decode(document: Json) -> Result<ChatCompletionChoiceView, DecodeError> {
        match document {
            Json::Object(fields) => {
                let finish_reason = defaulted_field(
                    fields,
                    "finish_reason"@,
                    |d: Json| FinishReason::decode(d),
                    FinishReason::Stop,
                );
                let index = required_count(fields, "index"@);
                let message = required_field(
                    fields,
                    "message"@,
                    |d: Json| AssistantMessageView::decode(d),
                );
                if finish_reason is Err {
                    Err(finish_reason->Err_0)
                } else if index is Err {
                    Err(index->Err_0)
                } else if message is Err {
                    Err(message->Err_0)
                } else {
                    Ok(
                        ChatCompletionChoiceView {
                            finish_reason: finish_reason->Ok_0,
                            index: index->Ok_0,
                            message: message->Ok_0,
                        },
                    )
                }
            },
            _ => Err(DecodeError::TypeMismatch),
        }
    }

    /// The choices held by a sequence of documents, or the error of the first
    /// document that holds none.
    pub open spec fn decode_all(items: Seq<Json>) -> Result<
        Seq<ChatCompletionChoiceView>,
        DecodeError,
    > {
        decode_each(items, |d: Json| ChatCompletionChoiceView::decode(d))
    }
}

impl ChatCompletionChoice {
    /// Decodes a choice from a JSON object.
    pub fn from_value(value: &serde_json::Value) -> (decoded: Result<
        ChatCompletionChoice,
        DecodeError,
    >)
        ensures
            outcome_view(decoded) == ChatCompletionChoiceView::decode(json_of(*value)),
    {
        match value_as_object(value) {
            None => Err(DecodeError::TypeMismatch),
            Some(entries) => {
                let finish_reason = match entries_get(entries, "finish_reason") {
                    None => FinishReason::default(),
                    Some(field) => match FinishReason::from_value(field) {
                        Ok(reason) => reason,
                        Err(error) => { return Err(error); },
                    },
                };
                let index = match read_count(entries, "index") {
                    Ok(count) => count,
                    Err(error) => { return Err(error); },
                };
                let message = match entries_get(entries, "message") {
                    None => { return Err(DecodeError::MissingField); },
                    Some(field) => match AssistantMessage::from_value(field) {
                        Ok(message) => message,
                        Err(error) => { return Err(error); },
                    },
                };
                Ok(ChatCompletionChoice { finish_reason, index, message })
            },
        }
    }

    /// Decodes a list of choices: all of them, or the error of the first
    /// document that holds none.
    pub fn from_values(items: &Vec<serde_json::Value>) -> (decoded: Result<
        Vec<ChatCompletionChoice>,
        DecodeError,
    >)
        ensures
            list_outcome_view(decoded) == ChatCompletionChoiceView::decode_all(documents(items@)),
    {
        let mut choices: Vec<ChatCompletionChoice> = Vec::new();
        let mut i: usize = 0;
        proof {
            assert(documents(items@).take(0) =~= Seq::empty());
            assert(views(choices@) =~= Seq::empty());
        }
        while i < items.len()
            invariant
                i <= items.len(),
                ChatCompletionChoiceView::decode_all(documents(items@).take(i as int)) == Ok::<
                    _,
                    DecodeError,
                >(views(choices@)),
            decreases items.len() - i,
        {
            proof {
                let upto = documents(items@).take(i + 1);
                assert(upto.drop_last() == documents(items@).take(i as int));
                assert(upto.last() == json_of(items@[i as int]));
            }
            match ChatCompletionChoice::from_value(&items[i]) {
                Ok(choice) => {
                    proof {
                        assert(views(choices@.push(choice)) == views(choices@).push(choice@));
                    }
                    choices.push(choice);
                },
                Err(error) => {
                    proof {
                        lemma_decode_each_keeps_error(
                            documents(items@),
                            |d: Json| ChatCompletionChoiceView::decode(d),
                            i + 1,
                        );
                    }
                    return Err(error);
                },
            }
            i += 1;
        }
        proof {
            assert(documents(items@).take(items.len() as int) == documents(items@));
        }
        Ok(choices)
    }
}

impl Clone for ChatCompletionChoice {
    fn clone(&self) -> (copy: ChatCompletionChoice)
        ensures
            copy@ == self@,
    {
        ChatCompletionChoice {
            finish_reason: self.finish_reason,
            index: self.index,
            message: self.message.clone(),
        }
    }
}

/// The reply to a request for a chat completion.
#[derive(Debug)]
pub struct ChatCompletionResponse {
    /// The identifier of the completion.
    pub id: String,
    /// The completions, in order. May be empty.
    pub choices: Vec<ChatCompletionChoice>,
    /// When the completion was made, in seconds since the Unix epoch.
    pub created: usize,
    /// The model that made the completion.
    pub model: ChatCompleteModel,
    /// A fingerprint of the backend configuration the model ran with.
    pub system_fingerprint: String,
    /// The kind of object the reply is.
    pub object: String,
    /// How many tokens the request used.
    pub usage: ChatCompletionUsage,
}

/// The view of a [`ChatCompletionResponse`].
pub struct ChatCompletionResponseView {
    pub id: Seq<char>,
    pub choices: Seq<ChatCompletionChoiceView>,
    pub created: usize,
    pub model: ChatCompleteModel,
    pub system_fingerprint: Seq<char>,
    pub object: Seq<char>,
    pub usage: ChatCompletionUsage,
}

impl View for ChatCompletionResponse {
    type V = ChatCompletionResponseView;

    open spec fn view(&self) -> ChatCompletionResponseView {
        ChatCompletionResponseView {
            id: self.id@,
            choices: views(self.choices@),
            created: self.created,
            model: self.model,
            system_fingerprint: self.system_fingerprint@,
            object: self.object@,
            usage: self.usage,
        }
    }
}

impl ChatCompletionResponseView {
    /// The reply held by a document: an object with a string `id`; an array
    /// `choices`, or none, which stands for no choices; a count `created`; a
    /// `model` that names one; strings `system_fingerprint` and `object`; and
    /// a `usage`. The fields are looked at in that order.
    pub open spec fn decode(document: Json) -> Result<ChatCompletionResponseView, DecodeError> {
        match document {
            Json::Object(fields) => {
                let id = required_text(fields, "id"@);
                let choices = defaulted_list(
                    fields,
                    "choices"@,
                    |d: Json| ChatCompletionChoiceView::decode(d),
                );
                let created = required_count(fields, "created"@);
                let model = required_field(
                    fields,
                    "model"@,
                    |d: Json| ChatCompleteModel::decode(d),
                );
                let system_fingerprint = required_text(fields, "system_fingerprint"@);
                let object = required_text(fields, "object"@);
                let usage = required_field(
                    fields,
                    "usage"@,
                    |d: Json| ChatCompletionUsage::decode(d),
                );
                if id is Err {
                    Err(id->Err_0)
                } else if choices is Err {
                    Err(choices->Err_0)
                } else if created is Err {
                    Err(created->Err_0)
                } else if model is Err {
                    Err(model->Err_0)
                } else if system_fingerprint is Err {
                    Err(system_fingerprint->Err_0)
                } else if object is Err {
                    Err(object->Err_0)
                } else if usage is Err {
                    Err(usage->Err_0)
                } else {
                    Ok(
                        ChatCompletionResponseView {
                            id: id->Ok_0,
                            choices: choices->Ok_0,
                            created: created->Ok_0,
                            model: model->Ok_0,
                            system_fingerprint: system_fingerprint->Ok_0,
                            object: object->Ok_0,
                            usage: usage->Ok_0,
                        },
                    )
                }
            },
            _ => Err(DecodeError::TypeMismatch),
        }
    }

    /// The reply held by the bytes of a JSON text. Bytes that are no JSON
    /// text do not have the shape of a reply.
    pub open spec fn decode_bytes(bytes: Seq<u8>) -> Result<
        ChatCompletionResponseView,
        DecodeError,
    > {
        match parsed_document(bytes) {
            Some(document) => Self::decode(document),
            None => Err(DecodeError::TypeMismatch),
        }
    }
}

impl ChatCompletionResponse {
    /// Decodes a reply from a JSON object.
    pub fn from_value(value: &serde_json::Value) -> (decoded: Result<
        ChatCompletionResponse,
        DecodeError,
    >)
        ensures
            outcome_view(decoded) == ChatCompletionResponseView::decode(json_of(*value)),
    {
        match value_as_object(value) {
            None => Err(DecodeError::TypeMismatch),
            Some(entries) => {
                let id = match read_text(entries, "id") {
                    Ok(text) => text,
                    Err(error) => { return Err(error); },
                };
                let choices = match entries_get(entries, "choices") {
                    None => {
                        proof {
                            assert(views(Seq::<ChatCompletionChoice>::empty()) =~= Seq::empty());
                        }
                        Vec::new()
                    },
                    Some(field) => match value_as_array(field) {
                        None => { return Err(DecodeError::TypeMismatch); },
                        Some(items) => match ChatCompletionChoice::from_values(items) {
                            Ok(choices) => choices,
                            Err(error) => { return Err(error); },
                        },
                    },
                };
                let created = match read_count(entries, "created") {
                    Ok(count) => count,
                    Err(error) => { return Err(error); },
                };
                let model = match entries_get(entries, "model") {
                    None => { return Err(DecodeError::MissingField); },
                    Some(field) => match ChatCompleteModel::from_value(field) {
                        Ok(model) => model,
                        Err(error) => { return Err(error); },
                    },
                };
                let system_fingerprint = match read_text(entries, "system_fingerprint") {
                    Ok(text) => text,
                    Err(error) => { return Err(error); },
                };
                let object = match read_text(entries, "object") {
                    Ok(text) => text,
                    Err(error) => { return Err(error); },
                };
                let usage = match entries_get(entries, "usage") {
                    None => { return Err(DecodeError::MissingField); },
                    Some(field) => match ChatCompletionUsage::from_value(field) {
                        Ok(usage) => usage,
                        Err(error) => { return Err(error); },
                    },
                };
                Ok(
                    ChatCompletionResponse {
                        id,
                        choices,
                        created,
                        model,
                        system_fingerprint,
                        object,
                        usage,
                    },
                )
            },
        }
    }

    /// Decodes a reply from the bytes received: they are read as JSON text by
    /// `serde_json`, and the document read is decoded.
    pub fn from_bytes(bytes: &[u8]) -> (decoded: Result<ChatCompletionResponse, DecodeError>)
        ensures
            outcome_view(decoded) == ChatCompletionResponseView::decode_bytes(bytes@),
    {
        match value_from_bytes(bytes) {
            Ok(value) => ChatCompletionResponse::from_value(&value),
            Err(_) => Err(DecodeError::TypeMismatch),
        }
    }
}

impl Clone for ChatCompletionResponse {
    fn clone(&self) -> (copy: ChatCompletionResponse)
        ensures
            copy@ == self@,
    {
        ChatCompletionResponse {
            id: self.id.clone(),
            choices: copy_list(&self.choices),
            created: self.created,
            model: self.model,
            system_fingerprint: self.system_fingerprint.clone(),
            object: self.object.clone(),
            usage: self.usage,
        }
    }
}

} // verus!
