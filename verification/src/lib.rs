//! Typed requests and responses for a remote chat-completion service.
//!
//! A request is assembled with [`request::ChatCompletionRequestBuilder`] and
//! mapped to the JSON document the service expects; the service's reply is
//! decoded into typed values. Every type has a mathematical view, every
//! executable function a contract over those views, and the contracts are
//! proved. JSON values themselves are `serde_json`'s: see [`json`] for the
//! operations on them that the proofs take on trust.

pub mod json;
pub mod text;
pub mod lift;
pub mod decode;
pub mod encode;
pub mod model;
pub mod message;
pub mod tool;
pub mod request;
pub mod response;
pub mod laws;

pub use decode::DecodeError;
pub use message::{
    AssistantMessage, ChatCompletionMessage, FunctionCall, SystemMessage, ToolCalls, ToolMessage,
    ToolType, UserMessage,
};
pub use model::ChatCompleteModel;
pub use request::{BuildError, ChatCompletionRequest, ChatCompletionRequestBuilder};
pub use response::{
    ChatCompletionChoice, ChatCompletionResponse, ChatCompletionUsage, FinishReason,
};
pub use tool::{ChatResponseFormat, ChatResponseFormatObject, FunctionInfo, Tool, ToolChoice};
