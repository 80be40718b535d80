//! The request for a chat completion, its builder and its wire form.
//!
//! A request always carries its messages and a model. Every other field is
//! optional, and a field that holds nothing is left out of the wire form.

use vstd::prelude::*;
use crate::lift::{copy_list, optional_view, optional_views, views};
use crate::encode::{
    optional_count, optional_flag, optional_signed, put_optional, put_optional_count,
    put_optional_flag, put_optional_signed, put_optional_text,
};
use crate::json::{
    document_bytes, entries_insert, entries_new, json_of, non_empty_array, optional_string,
    value_array, value_object, value_to_bytes, with_optional, Fields, Json,
};
use crate::message::{ChatCompletionMessage, ChatCompletionMessageView};
use crate::model::ChatCompleteModel;
use crate::text::copy_optional_text;
use crate::tool::{ChatResponseFormatObject, Tool, ToolChoice, ToolChoiceView, ToolView};

verus! {

/// A request for a chat completion.
#[derive(Debug)]
pub struct ChatCompletionRequest {
    /// The conversation so far.
    pub messages: Vec<ChatCompletionMessage>,
    /// The model to use.
    pub model: ChatCompleteModel,
    /// Penalty on tokens by how often they occurred so far.
    pub frequency_penalty: Option<i32>,
    /// The most tokens to generate.
    pub max_tokens: Option<usize>,
    /// How many completions to generate.
    pub n: Option<usize>,
    /// Penalty on tokens that occurred so far at all.
    pub presence_penalty: Option<usize>,
    /// The format the reply is to have.
    pub response_format: Option<ChatResponseFormatObject>,
    /// A seed for sampling.
    pub seed: Option<usize>,
    /// A sequence at which the model stops generating.
    pub stop: Option<String>,
    /// Whether the reply is to be streamed.
    pub stream: Option<bool>,
    /// The sampling temperature.
    pub temperature: Option<i32>,
    /// The probability mass for nucleus sampling.
    pub top_p: Option<i32>,
    /// The tools the model may call. May be empty.
    pub tools: Vec<Tool>,
    /// Which tool, if any, the model is to call.
    pub tool_choice: Option<ToolChoice>,
    /// An identifier for the end user.
    pub user: Option<String>,
}

/// The view of a [`ChatCompletionRequest`].
pub struct ChatCompletionRequestView {
    pub messages: Seq<ChatCompletionMessageView>,
    pub model: ChatCompleteModel,
    pub frequency_penalty: Option<i32>,
    pub max_tokens: Option<usize>,
    pub n: Option<usize>,
    pub presence_penalty: Option<usize>,
    pub response_format: Option<ChatResponseFormatObject>,
    pub seed: Option<usize>,
    pub stop: Option<Seq<char>>,
    pub stream: Option<bool>,
    pub temperature: Option<i32>,
    pub top_p: Option<i32>,
    pub tools: Seq<ToolView>,
    pub tool_choice: Option<ToolChoiceView>,
    pub user: Option<Seq<char>>,
}

impl View for ChatCompletionRequest {
    type V = ChatCompletionRequestView;

    open spec fn view(&self) -> ChatCompletionRequestView {
        ChatCompletionRequestView {
            messages: views(self.messages@),
            model: self.model,
            frequency_penalty: self.frequency_penalty,
            max_tokens: self.max_tokens,
            n: self.n,
            presence_penalty: self.presence_penalty,
            response_format: self.response_format,
            seed: self.seed,
            stop: self.stop.deep_view(),
            stream: self.stream,
            temperature: self.temperature,
            top_p: self.top_p,
            tools: views(self.tools@),
            tool_choice: optional_view(self.tool_choice),
            user: self.user.deep_view(),
        }
    }
}

impl ChatCompletionRequestView {
    /// The two fields every request has on the wire: `messages`, an array
    /// even where there are no messages, and `model`.
    pub open spec fn required_fields(self) -> Fields {
        Fields::empty().insert(
            "messages"@,
            Json::Array(ChatCompletionMessageView::wire_all(self.messages)),
        ).insert("model"@, self.model.wire())
    }

    /// The required fields and the sampling fields that hold a value.
    pub open spec fn sampling_fields(self) -> Fields {
        let f0 = self.required_fields();
        let f1 = with_optional(f0, "frequency_penalty"@, optional_signed(self.frequency_penalty));
        let f2 = with_optional(f1, "max_tokens"@, optional_count(self.max_tokens));
        let f3 = with_optional(f2, "n"@, optional_count(self.n));
        let f4 = with_optional(f3, "presence_penalty"@, optional_count(self.presence_penalty));
        let f5 = with_optional(
            f4,
            "response_format"@,
            ChatResponseFormatObject::optional_wire(self.response_format),
        );
        let f6 = with_optional(f5, "seed"@, optional_count(self.seed));
        let f7 = with_optional(f6, "stop"@, optional_string(self.stop));
        let f8 = with_optional(f7, "stream"@, optional_flag(self.stream));
        let f9 = with_optional(f8, "temperature"@, optional_signed(self.temperature));
        with_optional(f9, "top_p"@, optional_signed(self.top_p))
    }

    /// The fields of the request's wire form: the required fields, and each
    /// optional field that holds a value. `tools` is left out where there are
    /// no tools.
    pub open spec fn fields(self) -> Fields {
        let f0 = self.sampling_fields();
        let f1 = with_optional(f0, "tools"@, non_empty_array(ToolView::wire_all(self.tools)));
        let f2 = with_optional(f1, "tool_choice"@, ToolChoiceView::optional_wire(self.tool_choice));
        with_optional(f2, "user"@, optional_string(self.user))
    }

    /// The request's wire form.
    pub open spec fn wire(self) -> Json {
        Json::Object(self.fields())
    }
}

impl ChatCompletionRequest {
    /// Encodes the request as the JSON object the service expects.
    pub fn to_value(&self) -> (value: serde_json::Value)
        ensures
            json_of(value) == self@.wire(),
    {
        let mut entries = entries_new();
        let messages = ChatCompletionMessage::to_values(&self.messages);
        entries_insert(&mut entries, "messages", value_array(messages));
        entries_insert(&mut entries, "model", self.model.to_value());
        put_optional_signed(&mut entries, "frequency_penalty", self.frequency_penalty);
        put_optional_count(&mut entries, "max_tokens", self.max_tokens);
        put_optional_count(&mut entries, "n", self.n);
        put_optional_count(&mut entries, "presence_penalty", self.presence_penalty);
        let response_format = match &self.response_format {
            Some(format) => Some(format.to_value()),
            None => None,
        };
        put_optional(&mut entries, "response_format", response_format);
        put_optional_count(&mut entries, "seed", self.seed);
        put_optional_text(&mut entries, "stop", &self.stop);
        put_optional_flag(&mut entries, "stream", self.stream);
        put_optional_signed(&mut entries, "temperature", self.temperature);
        put_optional_signed(&mut entries, "top_p", self.top_p);
        let tools = if self.tools.len() > 0 {
            Some(value_array(Tool::to_values(&self.tools)))
        } else {
            None
        };
        put_optional(&mut entries, "tools", tools);
        let tool_choice = match &self.tool_choice {
            Some(choice) => Some(choice.to_value()),
            None => None,
        };
        put_optional(&mut entries, "tool_choice", tool_choice);
        put_optional_text(&mut entries, "user", &self.user);
        value_object(entries)
    }

    /// Encodes the request as the bytes of its JSON text, ready to be sent.
    ///
    /// The bytes are those that `serde_json` writes for the request's wire
    /// form; there are none exactly where it reports a failure on that form.
    pub fn to_bytes(&self) -> (written: Option<Vec<u8>>)
        ensures
            match written {
                Some(bytes) => document_bytes(self@.wire()) == Some(bytes@),
                None => document_bytes(self@.wire()) is None,
            },
    {
        let value = self.to_value();
        match value_to_bytes(&value) {
            Ok(bytes) => Some(bytes),
            Err(_) => None,
        }
    }
}

/// Why a request could not be built.
#[derive(Debug, Clone, Copy, PartialEq, Eq)]
pub enum BuildError {
    /// A field that every request needs was never set.
    MissingRequiredField,
}

/// Collects the fields of a request.
///
/// Only `messages` has to be set. A field that was never set is unset: that
/// is not the same as set to an empty value.
#[derive(Debug)]
pub struct ChatCompletionRequestBuilder {
    messages: Option<Vec<ChatCompletionMessage>>,
    model: Option<ChatCompleteModel>,
    frequency_penalty: Option<i32>,
    max_tokens: Option<usize>,
    n: Option<usize>,
    presence_penalty: Option<usize>,
    response_format: Option<ChatResponseFormatObject>,
    seed: Option<usize>,
    stop: Option<String>,
    stream: Option<bool>,
    temperature: Option<i32>,
    top_p: Option<i32>,
    tools: Option<Vec<Tool>>,
    tool_choice: Option<ToolChoice>,
    user: Option<String>,
}

/// The view of a [`ChatCompletionRequestBuilder`]: for each field, what it
/// was set to, or `None` while it is unset.
pub struct ChatCompletionRequestBuilderView {
    pub messages: Option<Seq<ChatCompletionMessageView>>,
    pub model: Option<ChatCompleteModel>,
    pub frequency_penalty: Option<i32>,
    pub max_tokens: Option<usize>,
    pub n: Option<usize>,
    pub presence_penalty: Option<usize>,
    pub response_format: Option<ChatResponseFormatObject>,
    pub seed: Option<usize>,
    pub stop: Option<Seq<char>>,
    pub stream: Option<bool>,
    pub temperature: Option<i32>,
    pub top_p: Option<i32>,
    pub tools: Option<Seq<ToolView>>,
    pub tool_choice: Option<ToolChoiceView>,
    pub user: Option<Seq<char>>,
}

impl View for ChatCompletionRequestBuilder {
    type V = ChatCompletionRequestBuilderView;

    closed spec fn view(&self) -> ChatCompletionRequestBuilderView {
        ChatCompletionRequestBuilderView {
            messages: optional_views(self.messages),
            model: self.model,
            frequency_penalty: self.frequency_penalty,
            max_tokens: self.max_tokens,
            n: self.n,
            presence_penalty: self.presence_penalty,
            response_format: self.response_format,
            seed: self.seed,
            stop: self.stop.deep_view(),
            stream: self.stream,
            temperature: self.temperature,
            top_p: self.top_p,
            tools: optional_views(self.tools),
            tool_choice: optional_view(self.tool_choice),
            user: self.user.deep_view(),
        }
    }
}

impl ChatCompletionRequestBuilderView {
    /// The builder with every field unset.
    pub open spec fn unset() -> ChatCompletionRequestBuilderView {
        ChatCompletionRequestBuilderView {
            messages: None,
            model: None,
            frequency_penalty: None,
            max_tokens: None,
            n: None,
            presence_penalty: None,
            response_format: None,
            seed: None,
            stop: None,
            stream: None,
            temperature: None,
            top_p: None,
            tools: None,
            tool_choice: None,
            user: None,
        }
    }

    /// The request that the builder stands for, if `messages` was set.
    ///
    /// An unset `model` stands for the default model and unset `tools` for no
    /// tools; every other unset field stays absent.
    pub open spec fn request(self) -> Option<ChatCompletionRequestView> {
        match self.messages {
            None => None,
            Some(messages) => Some(
                ChatCompletionRequestView {
                    messages,
                    model: match self.model {
                        Some(model) => model,
                        None => ChatCompleteModel::default_model(),
                    },
                    frequency_penalty: self.frequency_penalty,
                    max_tokens: self.max_tokens,
                    n: self.n,
                    presence_penalty: self.presence_penalty,
                    response_format: self.response_format,
                    seed: self.seed,
                    stop: self.stop,
                    stream: self.stream,
                    temperature: self.temperature,
                    top_p: self.top_p,
                    tools: match self.tools {
                        Some(tools) => tools,
                        None => Seq::empty(),
                    },
                    tool_choice: self.tool_choice,
                    user: self.user,
                },
            ),
        }
    }
}

impl Default for ChatCompletionRequestBuilder {
    /// A builder with every field unset.
    fn default() -> (builder: ChatCompletionRequestBuilder)
        ensures
            builder@ == ChatCompletionRequestBuilderView::unset(),
    {
        ChatCompletionRequestBuilder {
            messages: None,
            model: None,
            frequency_penalty: None,
            max_tokens: None,
            n: None,
            presence_penalty: None,
            response_format: None,
            seed: None,
            stop: None,
            stream: None,
            temperature: None,
            top_p: None,
            tools: None,
            tool_choice: None,
            user: None,
        }
    }
}

impl ChatCompletionRequestBuilder {
    /// Sets the conversation so far. It may be empty.
    pub fn messages(&mut self, value: Vec<ChatCompletionMessage>) -> (builder: &mut Self)
        ensures
            *final(self) == *final(builder),
            builder@ == (ChatCompletionRequestBuilderView {
                messages: Some(views(value@)),
                ..old(self)@
            }),
    {
        self.messages = Some(value);
        self
    }

    /// Sets the model to use.
    pub fn model(&mut self, value: ChatCompleteModel) -> (builder: &mut Self)
        ensures
            *final(self) == *final(builder),
            builder@ == (ChatCompletionRequestBuilderView { model: Some(value), ..old(self)@ }),
    {
        self.model = Some(value);
        self
    }

    /// Sets the penalty on tokens by how often they occurred so far.
    pub fn frequency_penalty(&mut self, value: i32) -> (builder: &mut Self)
        ensures
            *final(self) == *final(builder),
            builder@ == (ChatCompletionRequestBuilderView {
                frequency_penalty: Some(value),
                ..old(self)@
            }),
    {
        self.frequency_penalty = Some(value);
        self
    }

    /// Sets the most tokens to generate.
    pub fn max_tokens(&mut self, value: usize) -> (builder: &mut Self)
        ensures
            *final(self) == *final(builder),
            builder@ == (ChatCompletionRequestBuilderView {
                max_tokens: Some(value),
                ..old(self)@
            }),
    {
        self.max_tokens = Some(value);
        self
    }

    /// Sets how many completions to generate.
    pub fn n(&mut self, value: usize) -> (builder: &mut Self)
        ensures
            *final(self) == *final(builder),
            builder@ == (ChatCompletionRequestBuilderView { n: Some(value), ..old(self)@ }),
    {
        self.n = Some(value);
        self
    }

    /// Sets the penalty on tokens that occurred so far at all.
    pub fn presence_penalty(&mut self, value: usize) -> (builder: &mut Self)
        ensures
            *final(self) == *final(builder),
            builder@ == (ChatCompletionRequestBuilderView {
                presence_penalty: Some(value),
                ..old(self)@
            }),
    {
        self.presence_penalty = Some(value);
        self
    }

    /// Sets the format the reply is to have.
    pub fn response_format(&mut self, value: ChatResponseFormatObject) -> (builder: &mut Self)
        ensures
            *final(self) == *final(builder),
            builder@ == (ChatCompletionRequestBuilderView {
                response_format: Some(value),
                ..old(self)@
            }),
    {
        self.response_format = Some(value);
        self
    }

    /// Sets the seed for sampling.
    pub fn seed(&mut self, value: usize) -> (builder: &mut Self)
        ensures
            *final(self) == *final(builder),
            builder@ == (ChatCompletionRequestBuilderView { seed: Some(value), ..old(self)@ }),
    {
        self.seed = Some(value);
        self
    }

    /// Sets the sequence at which the model stops generating.
    pub fn stop(&mut self, value: String) -> (builder: &mut Self)
        ensures
            *final(self) == *final(builder),
            builder@ == (ChatCompletionRequestBuilderView { stop: Some(value@), ..old(self)@ }),
    {
        self.stop = Some(value);
        self
    }

    /// Sets whether the reply is to be streamed.
    pub fn stream(&mut self, value: bool) -> (builder: &mut Self)
        ensures
            *final(self) == *final(builder),
            builder@ == (ChatCompletionRequestBuilderView { stream: Some(value), ..old(self)@ }),
    {
        self.stream = Some(value);
        self
    }

    /// Sets the sampling temperature.
    pub fn temperature(&mut self, value: i32) -> (builder: &mut Self)
        ensures
            *final(self) == *final(builder),
            builder@ == (ChatCompletionRequestBuilderView {
                temperature: Some(value),
                ..old(self)@
            }),
    {
        self.temperature = Some(value);
        self
    }

    /// Sets the probability mass for nucleus sampling.
    pub fn top_p(&mut self, value: i32) -> (builder: &mut Self)
        ensures
            *final(self) == *final(builder),
            builder@ == (ChatCompletionRequestBuilderView { top_p: Some(value), ..old(self)@ }),
    {
        self.top_p = Some(value);
        self
    }

    /// Sets the tools the model may call.
    pub fn tools(&mut self, value: Vec<Tool>) -> (builder: &mut Self)
        ensures
            *final(self) == *final(builder),
            builder@ == (ChatCompletionRequestBuilderView {
                tools: Some(views(value@)),
                ..old(self)@
            }),
    {
        self.tools = Some(value);
        self
    }

    /// Sets the tool choice.
    pub fn tool_choice(&mut self, value: ToolChoice) -> (builder: &mut Self)
        ensures
            *final(self) == *final(builder),
            builder@ == (ChatCompletionRequestBuilderView {
                tool_choice: Some(value@),
                ..old(self)@
            }),
    {
        self.tool_choice = Some(value);
        self
    }

    /// Sets the identifier for the end user.
    pub fn user(&mut self, value: &str) -> (builder: &mut Self)
        ensures
            *final(self) == *final(builder),
            builder@ == (ChatCompletionRequestBuilderView { user: Some(value@), ..old(self)@ }),
    {
        self.user = Some(value.to_owned());
        self
    }

    /// Builds the request: the fields that were set, and the defaults for
    /// `model` and `tools` where they were not. Fails if `messages` was never
    /// set, and only then.
    pub fn build(&self) -> (built: Result<ChatCompletionRequest, BuildError>)
        ensures
            match built {
                Ok(request) => self@.request() == Some(request@),
                Err(error) => self@.request() is None && error
                    == BuildError::MissingRequiredField,
            },
    {
        let messages = match &self.messages {
            Some(messages) => copy_list(messages),
            None => { return Err(BuildError::MissingRequiredField); },
        };
        let model = match self.model {
            Some(model) => model,
            None => ChatCompleteModel::default(),
        };
        let tools = match &self.tools {
            Some(tools) => copy_list(tools),
            None => Vec::new(),
        };
        let tool_choice = match &self.tool_choice {
            Some(choice) => Some(choice.clone()),
            None => None,
        };
        proof {
            assert(views(Seq::<Tool>::empty()) =~= Seq::empty());
        }
        Ok(
            ChatCompletionRequest {
                messages,
                model,
                frequency_penalty: self.frequency_penalty,
                max_tokens: self.max_tokens,
                n: self.n,
                presence_penalty: self.presence_penalty,
                response_format: self.response_format,
                seed: self.seed,
                stop: copy_optional_text(&self.stop),
                stream: self.stream,
                temperature: self.temperature,
                top_p: self.top_p,
                tools,
                tool_choice,
                user: copy_optional_text(&self.user),
            },
        )
    }
}

} // verus!
