//! The chat-completions request: its endpoint and its JSON body.
use vstd::prelude::*;

use crate::chat_messages::{
    convert_input_to_messages, item_views, message_views, messages_for, ChatMessage, ResponseItem,
};
use crate::chat_tools::{
    chat_tool_views, chat_tools_for, convert_tools, freeform_names, tool_spec_views, ChatTool,
    ToolSpec,
};
use crate::string_set::StringSet;
use crate::text::{str_trim_end_matches_char, trim_end_char_spec};

verus! {

/// What a turn sends to the model: the conversation, the tools, and whether
/// the model may call several tools at once.
#[derive(Debug, Clone)]
pub struct Prompt {
    pub input: Vec<ResponseItem>,
    pub tools: Vec<ToolSpec>,
    pub parallel_tool_calls: bool,
}

/// The JSON body of a chat-completions request.
#[derive(Debug, Clone)]
pub struct ChatRequest {
    /// `model`.
    pub model: String,
    /// `messages`.
    pub messages: Vec<ChatMessage>,
    /// `stream`.
    pub stream: bool,
    /// `tools`; the key is absent when there are no tools to declare.
    pub tools: Option<Vec<ChatTool>>,
    /// Whether the key `parallel_tool_calls` is sent, with the value `true`.
    pub parallel_tool_calls: bool,
}

/// The path appended to the provider's base URL.
pub const CHAT_COMPLETIONS_PATH: &'static str = "/chat/completions";

/// The endpoint for a provider base URL: the base URL without trailing
/// slashes, followed by `/chat/completions`.
pub fn chat_completions_url(base_url: &str) -> (r: String)
    ensures
        r@ == trim_end_char_spec(base_url@, '/') + CHAT_COMPLETIONS_PATH@,
{
    let mut url = str_trim_end_matches_char(base_url, '/').to_string();
    url.append(CHAT_COMPLETIONS_PATH);
    url
}

/// The request body for `prompt` on model `model_slug`, and the names of the
/// freeform tools it declares as functions. The `tools` key is sent only when
/// some tool can be declared, and `parallel_tool_calls` only then and only
/// when the prompt allows parallel calls.
pub fn build_chat_request(prompt: &Prompt, model_slug: &str, stream: bool) -> (r: (
    ChatRequest,
    StringSet,
))
    ensures
        r.0.model@ == model_slug@,
        message_views(r.0.messages@) == messages_for(item_views(prompt.input@)),
        r.0.stream == stream,
        match r.0.tools {
            Some(tools) => {
                &&& chat_tool_views(tools@) == chat_tools_for(tool_spec_views(prompt.tools@))
                &&& tools@.len() > 0
            },
            None => chat_tools_for(tool_spec_views(prompt.tools@)).len() == 0,
        },
        r.0.parallel_tool_calls == (chat_tools_for(tool_spec_views(prompt.tools@)).len() > 0
            && prompt.parallel_tool_calls),
        r.1@ == freeform_names(tool_spec_views(prompt.tools@)),
{
    let messages = convert_input_to_messages(&prompt.input);
    let (tools, freeform) = convert_tools(&prompt.tools);
    let has_tools = tools.len() > 0;
    let parallel_tool_calls = has_tools && prompt.parallel_tool_calls;
    let tools = if has_tools {
        Some(tools)
    } else {
        None
    };
    (
        ChatRequest {
            model: model_slug.to_string(),
            messages,
            stream,
            tools,
            parallel_tool_calls,
        },
        freeform,
    )
}

impl ChatRequest {
    /// The same request with streaming off, as sent alongside a streaming
    /// request to recover tool-call arguments.
    pub fn into_non_streaming(self) -> (r: ChatRequest)
        ensures
            r == (ChatRequest { stream: false, ..self }),
    {
        ChatRequest { stream: false, ..self }
    }
}

} // verus!
