//! What holds of every request and every reply, proved from the definitions of
//! their wire forms.

use vstd::prelude::*;
use crate::decode::DecodeError;
use crate::encode::{optional_count, optional_flag, optional_signed};
use crate::json::{
    document_bytes, lemma_with_optional, non_empty_array, optional_string, with_optional, Fields,
    Json,
};
use crate::message::{
    participant_name, AssistantMessageView, ChatCompletionMessageView, FunctionCallView,
    SystemMessageView, ToolCallsView, ToolType, UserMessageView,
};
use crate::request::{
    ChatCompletionRequest, ChatCompletionRequestBuilder, ChatCompletionRequestBuilderView,
    ChatCompletionRequestView,
};
use crate::response::{ChatCompletionChoiceView, ChatCompletionResponseView, FinishReason};
use crate::tool::{ChatResponseFormatObject, ToolChoiceView, ToolView};

verus! {

/// How long the names of a request's fields are, and the characters that
/// tell names of one length apart: no two names are the same.
proof fn lemma_request_field_names()
    ensures
        "messages"@.len() == 8,
        "model"@.len() == 5,
        "frequency_penalty"@.len() == 17,
        "max_tokens"@.len() == 10,
        "n"@.len() == 1,
        "presence_penalty"@.len() == 16,
        "response_format"@.len() == 15,
        "seed"@.len() == 4,
        "stop"@.len() == 4,
        "stream"@.len() == 6,
        "temperature"@.len() == 11,
        "top_p"@.len() == 5,
        "tools"@.len() == 5,
        "tool_choice"@.len() == 11,
        "user"@.len() == 4,
        "model"@[0] == 'm',
        "top_p"@[0] == 't',
        "top_p"@[2] == 'p',
        "tools"@[0] == 't',
        "tools"@[2] == 'o',
        "seed"@[0] == 's',
        "seed"@[1] == 'e',
        "stop"@[0] == 's',
        "stop"@[1] == 't',
        "user"@[0] == 'u',
        "temperature"@[1] == 'e',
        "tool_choice"@[1] == 'o',
{
    reveal_strlit("messages");
    reveal_strlit("model");
    reveal_strlit("frequency_penalty");
    reveal_strlit("max_tokens");
    reveal_strlit("n");
    reveal_strlit("presence_penalty");
    reveal_strlit("response_format");
    reveal_strlit("seed");
    reveal_strlit("stop");
    reveal_strlit("stream");
    reveal_strlit("temperature");
    reveal_strlit("top_p");
    reveal_strlit("tools");
    reveal_strlit("tool_choice");
    reveal_strlit("user");
}

/// What each field of a request's wire form holds.
///
/// `messages` and `model` are always there: `messages` is the array of the
/// messages' wire forms, empty where there are none, and `model` is the
/// model's name. Every other field is there exactly when the request holds a
/// value for it (for `tools`: at least one tool), and then holds that value's
/// wire form.
pub proof fn lemma_request_fields(request: ChatCompletionRequestView)
    ensures
        request.fields().contains_key("messages"@),
        request.fields()["messages"@] == Json::Array(
            ChatCompletionMessageView::wire_all(request.messages),
        ),
        request.fields().contains_key("model"@),
        request.fields()["model"@] == Json::String(request.model.wire_name()),
        request.fields().contains_key("frequency_penalty"@) <==> request.frequency_penalty
            is Some,
        request.frequency_penalty matches Some(v) ==> request.fields()["frequency_penalty"@]
            == Json::signed(v as i64),
        request.fields().contains_key("max_tokens"@) <==> request.max_tokens is Some,
        request.max_tokens matches Some(v) ==> request.fields()["max_tokens"@] == Json::unsigned(
            v as u64,
        ),
        request.fields().contains_key("n"@) <==> request.n is Some,
        request.n matches Some(v) ==> request.fields()["n"@] == Json::unsigned(v as u64),
        request.fields().contains_key("presence_penalty"@) <==> request.presence_penalty is Some,
        request.presence_penalty matches Some(v) ==> request.fields()["presence_penalty"@]
            == Json::unsigned(v as u64),
        request.fields().contains_key("response_format"@) <==> request.response_format is Some,
        request.response_format matches Some(v) ==> request.fields()["response_format"@]
            == v.wire(),
        request.fields().contains_key("seed"@) <==> request.seed is Some,
        request.seed matches Some(v) ==> request.fields()["seed"@] == Json::unsigned(v as u64),
        request.fields().contains_key("stop"@) <==> request.stop is Some,
        request.stop matches Some(v) ==> request.fields()["stop"@] == Json::String(v),
        request.fields().contains_key("stream"@) <==> request.stream is Some,
        request.stream matches Some(v) ==> request.fields()["stream"@] == Json::Bool(v),
        request.fields().contains_key("temperature"@) <==> request.temperature is Some,
        request.temperature matches Some(v) ==> request.fields()["temperature"@] == Json::signed(
            v as i64,
        ),
        request.fields().contains_key("top_p"@) <==> request.top_p is Some,
        request.top_p matches Some(v) ==> request.fields()["top_p"@] == Json::signed(v as i64),
        request.fields().contains_key("tools"@) <==> request.tools.len() > 0,
        request.tools.len() > 0 ==> request.fields()["tools"@] == Json::Array(
            ToolView::wire_all(request.tools),
        ),
        request.fields().contains_key("tool_choice"@) <==> request.tool_choice is Some,
        request.tool_choice matches Some(v) ==> request.fields()["tool_choice"@] == v.wire(),
        request.fields().contains_key("user"@) <==> request.user is Some,
        request.user matches Some(v) ==> request.fields()["user"@] == Json::String(v),
{
    lemma_request_field_names();
    let f0 = request.required_fields();
    let f1 = with_optional(f0, "frequency_penalty"@, optional_signed(request.frequency_penalty));
    let f2 = with_optional(f1, "max_tokens"@, optional_count(request.max_tokens));
    let f3 = with_optional(f2, "n"@, optional_count(request.n));
    let f4 = with_optional(f3, "presence_penalty"@, optional_count(request.presence_penalty));
    let f5 = with_optional(
        f4,
        "response_format"@,
        ChatResponseFormatObject::optional_wire(request.response_format),
    );
    let f6 = with_optional(f5, "seed"@, optional_count(request.seed));
    let f7 = with_optional(f6, "stop"@, optional_string(request.stop));
    let f8 = with_optional(f7, "stream"@, optional_flag(request.stream));
    let f9 = with_optional(f8, "temperature"@, optional_signed(request.temperature));
    let f10 = with_optional(f9, "top_p"@, optional_signed(request.top_p));
    let f11 = with_optional(f10, "tools"@, non_empty_array(ToolView::wire_all(request.tools)));
    let f12 = with_optional(
        f11,
        "tool_choice"@,
        ToolChoiceView::optional_wire(request.tool_choice),
    );
    lemma_with_optional(f0, "frequency_penalty"@, optional_signed(request.frequency_penalty));
    lemma_with_optional(f1, "max_tokens"@, optional_count(request.max_tokens));
    lemma_with_optional(f2, "n"@, optional_count(request.n));
    lemma_with_optional(f3, "presence_penalty"@, optional_count(request.presence_penalty));
    lemma_with_optional(
        f4,
        "response_format"@,
        ChatResponseFormatObject::optional_wire(request.response_format),
    );
    lemma_with_optional(f5, "seed"@, optional_count(request.seed));
    lemma_with_optional(f6, "stop"@, optional_string(request.stop));
    lemma_with_optional(f7, "stream"@, optional_flag(request.stream));
    lemma_with_optional(f8, "temperature"@, optional_signed(request.temperature));
    lemma_with_optional(f9, "top_p"@, optional_signed(request.top_p));
    lemma_with_optional(f10, "tools"@, non_empty_array(ToolView::wire_all(request.tools)));
    lemma_with_optional(f11, "tool_choice"@, ToolChoiceView::optional_wire(request.tool_choice));
    lemma_with_optional(f12, "user"@, optional_string(request.user));
}

/// A request built from messages alone has two fields on the wire and no
/// other: `messages`, and `model` with the name of the default model.
pub proof fn lemma_messages_alone(messages: Seq<ChatCompletionMessageView>)
    ensures
        (ChatCompletionRequestBuilderView {
            messages: Some(messages),
            ..ChatCompletionRequestBuilderView::unset()
        }).request() matches Some(request) && request.wire() == Json::Object(
            Fields::empty().insert(
                "messages"@,
                Json::Array(ChatCompletionMessageView::wire_all(messages)),
            ).insert("model"@, Json::String("gpt-3.5-turbo-1106"@)),
        ),
{
    let builder = ChatCompletionRequestBuilderView {
        messages: Some(messages),
        ..ChatCompletionRequestBuilderView::unset()
    };
    let request = builder.request()->Some_0;
    let f0 = request.required_fields();
    lemma_with_optional(f0, "frequency_penalty"@, optional_signed(request.frequency_penalty));
    lemma_with_optional(f0, "max_tokens"@, optional_count(request.max_tokens));
    lemma_with_optional(f0, "n"@, optional_count(request.n));
    lemma_with_optional(f0, "presence_penalty"@, optional_count(request.presence_penalty));
    lemma_with_optional(
        f0,
        "response_format"@,
        ChatResponseFormatObject::optional_wire(request.response_format),
    );
    lemma_with_optional(f0, "seed"@, optional_count(request.seed));
    lemma_with_optional(f0, "stop"@, optional_string(request.stop));
    lemma_with_optional(f0, "stream"@, optional_flag(request.stream));
    lemma_with_optional(f0, "temperature"@, optional_signed(request.temperature));
    lemma_with_optional(f0, "top_p"@, optional_signed(request.top_p));
    lemma_with_optional(f0, "tools"@, non_empty_array(ToolView::wire_all(request.tools)));
    lemma_with_optional(f0, "tool_choice"@, ToolChoiceView::optional_wire(request.tool_choice));
    lemma_with_optional(f0, "user"@, optional_string(request.user));
}

/// The messages of a request always reach the wire: where there are none,
/// `messages` is the empty array, not an absent field.
pub proof fn lemma_messages_always_present(request: ChatCompletionRequestView)
    ensures
        request.fields().contains_key("messages"@),
        request.fields()["messages"@] == Json::Array(
            ChatCompletionMessageView::wire_all(request.messages),
        ),
        request.messages.len() == 0 ==> request.fields()["messages"@] == Json::Array(
            Seq::empty(),
        ),
{
    lemma_request_fields(request);
    if request.messages.len() == 0 {
        assert(ChatCompletionMessageView::wire_all(request.messages) =~= Seq::empty());
    }
}

/// The choice of a function reaches the wire as an object whose one field
/// `function` holds the kind `function` and the function's name, whatever
/// else the request holds.
pub proof fn lemma_function_choice_on_the_wire(request: ChatCompletionRequestView, name: Seq<char>)
    requires
        request.tool_choice == Some(ToolChoiceView::Function { kind: ToolType::Function, name }),
    ensures
        request.fields().contains_key("tool_choice"@),
        request.fields()["tool_choice"@] == Json::Object(
            Fields::empty().insert(
                "function"@,
                Json::Object(
                    Fields::empty().insert("type"@, Json::String("function"@)).insert(
                        "name"@,
                        Json::String(name),
                    ),
                ),
            ),
        ),
{
    lemma_request_fields(request);
}

/// A system message made with an empty name has no `name` on the wire; made
/// with any other name, it has that name there, unchanged.
pub proof fn lemma_system_name_on_the_wire(content: Seq<char>, name: Seq<char>)
    ensures
        ({
            let fields = (SystemMessageView { content, name: participant_name(name) }).fields();
            if name.len() == 0 {
                !fields.contains_key("name"@)
            } else {
                fields.contains_key("name"@) && fields["name"@] == Json::String(name)
            }
        }),
{
    reveal_strlit("role");
    reveal_strlit("content");
    reveal_strlit("name");
    assert("role"@[0] == 'r');
    assert("name"@[0] == 'n');
    assert("content"@.len() == 7);
    assert("name"@.len() == 4);
    let base = Fields::empty().insert("role"@, Json::String("system"@)).insert(
        "content"@,
        Json::String(content),
    );
    lemma_with_optional(base, "name"@, optional_string(participant_name(name)));
}

/// A user message made with an empty name has no `name` on the wire; made
/// with any other name, it has that name there, unchanged.
pub proof fn lemma_user_name_on_the_wire(content: Seq<char>, name: Seq<char>)
    ensures
        ({
            let fields = (UserMessageView { content, name: participant_name(name) }).fields();
            if name.len() == 0 {
                !fields.contains_key("name"@)
            } else {
                fields.contains_key("name"@) && fields["name"@] == Json::String(name)
            }
        }),
{
    reveal_strlit("role");
    reveal_strlit("content");
    reveal_strlit("name");
    assert("role"@[0] == 'r');
    assert("name"@[0] == 'n');
    assert("content"@.len() == 7);
    assert("name"@.len() == 4);
    let base = Fields::empty().insert("role"@, Json::String("user"@)).insert(
        "content"@,
        Json::String(content),
    );
    lemma_with_optional(base, "name"@, optional_string(participant_name(name)));
}

/// A choice without `finish_reason` decodes as the same choice with
/// `finish_reason` set to `stop`: where it decodes, its reason is `Stop`.
pub proof fn lemma_absent_finish_reason(fields: Fields)
    requires
        !fields.contains_key("finish_reason"@),
    ensures
        ChatCompletionChoiceView::decode(Json::Object(fields)) == ChatCompletionChoiceView::decode(
            Json::Object(fields.insert("finish_reason"@, Json::String("stop"@))),
        ),
        ChatCompletionChoiceView::decode(Json::Object(fields)) matches Ok(choice)
            ==> choice.finish_reason == FinishReason::Stop,
{
    reveal_strlit("finish_reason");
    reveal_strlit("index");
    reveal_strlit("message");
    assert("finish_reason"@.len() == 13);
    assert("index"@.len() == 5);
    assert("message"@.len() == 7);
}

/// A reply without `choices` decodes as the same reply with `choices` set to
/// the empty array: the absence is no error, and where the reply decodes, it
/// has no choices.
pub proof fn lemma_absent_choices(fields: Fields)
    requires
        !fields.contains_key("choices"@),
    ensures
        ChatCompletionResponseView::decode(Json::Object(fields))
            == ChatCompletionResponseView::decode(
            Json::Object(fields.insert("choices"@, Json::Array(Seq::empty()))),
        ),
        ChatCompletionResponseView::decode(Json::Object(fields)) matches Ok(reply)
            ==> reply.choices == Seq::<ChatCompletionChoiceView>::empty(),
{
    reveal_strlit("id");
    reveal_strlit("choices");
    reveal_strlit("created");
    reveal_strlit("model");
    reveal_strlit("system_fingerprint");
    reveal_strlit("object");
    reveal_strlit("usage");
    assert("choices"@[1] == 'h');
    assert("created"@[1] == 'r');
}

/// Encoding is a function of what a request holds: two requests with the
/// same view have the same wire form, and the same bytes are written for
/// them, or none for either.
pub proof fn lemma_encoding_is_deterministic(a: ChatCompletionRequest, b: ChatCompletionRequest)
    requires
        a@ == b@,
    ensures
        a@.wire() == b@.wire(),
        document_bytes(a@.wire()) == document_bytes(b@.wire()),
{
}

/// Building is a function of what the builder holds: two builders with the
/// same view stand for the same request, or both for none.
pub proof fn lemma_building_is_deterministic(
    a: ChatCompletionRequestBuilder,
    b: ChatCompletionRequestBuilder,
)
    requires
        a@ == b@,
    ensures
        a@.request() == b@.request(),
{
}

/// A field that a reply does not model makes no difference to how the reply
/// decodes, whatever the field holds.
pub proof fn lemma_unknown_reply_field(fields: Fields, key: Seq<char>, value: Json)
    requires
        key != "id"@,
        key != "choices"@,
        key != "created"@,
        key != "model"@,
        key != "system_fingerprint"@,
        key != "object"@,
        key != "usage"@,
    ensures
        ChatCompletionResponseView::decode(Json::Object(fields.insert(key, value)))
            == ChatCompletionResponseView::decode(Json::Object(fields)),
{
}

/// A tool call comes back from its wire form as it went out.
pub proof fn lemma_tool_call_round_trip(call: ToolCallsView)
    ensures
        ToolCallsView::decode(call.wire()) == Ok::<ToolCallsView, DecodeError>(call),
{
    reveal_strlit("id");
    reveal_strlit("type");
    reveal_strlit("function");
    reveal_strlit("name");
    reveal_strlit("arguments");
    assert("id"@.len() == 2);
    assert("type"@.len() == 4);
    assert("function"@.len() == 8);
    assert("name"@.len() == 4);
    assert("arguments"@.len() == 9);
    assert(FunctionCallView::decode(call.function.wire()) == Ok::<FunctionCallView, DecodeError>(
        call.function,
    ));
    assert(ToolType::decode(call.kind.wire()) == Ok::<ToolType, DecodeError>(call.kind));
}

/// A list of tool calls comes back from its wire form as it went out, in
/// order.
pub proof fn lemma_tool_calls_round_trip(calls: Seq<ToolCallsView>)
    ensures
        ToolCallsView::decode_all(ToolCallsView::wire_all(calls)) == Ok::<
            Seq<ToolCallsView>,
            DecodeError,
        >(calls),
    decreases calls.len(),
{
    let wires = ToolCallsView::wire_all(calls);
    if calls.len() == 0 {
        assert(calls =~= Seq::empty());
    } else {
        lemma_tool_calls_round_trip(calls.drop_last());
        lemma_tool_call_round_trip(calls.last());
        assert(wires.drop_last() =~= ToolCallsView::wire_all(calls.drop_last()));
        assert(wires.last() == calls.last().wire());
        assert(calls.drop_last().push(calls.last()) =~= calls);
    }
}

/// An assistant message that carries tool calls comes back from its wire form
/// as it went out. (One without calls has no `tool_calls` on the wire, and a
/// reply's message has to have that field.)
pub proof fn lemma_assistant_message_round_trip(message: AssistantMessageView)
    requires
        message.tool_calls.len() > 0,
    ensures
        AssistantMessageView::decode(message.wire()) == Ok::<AssistantMessageView, DecodeError>(
            message,
        ),
{
    reveal_strlit("role");
    reveal_strlit("content");
    reveal_strlit("name");
    reveal_strlit("tool_calls");
    assert("role"@[0] == 'r');
    assert("name"@[0] == 'n');
    assert("content"@.len() == 7);
    assert("tool_calls"@.len() == 10);
    let base = Fields::empty().insert("role"@, Json::String("assistant"@)).insert(
        "content"@,
        Json::String(message.content),
    );
    let named = with_optional(base, "name"@, optional_string(message.name));
    let wires = ToolCallsView::wire_all(message.tool_calls);
    lemma_with_optional(base, "name"@, optional_string(message.name));
    lemma_with_optional(named, "tool_calls"@, non_empty_array(wires));
    lemma_tool_calls_round_trip(message.tool_calls);
}

} // verus!
