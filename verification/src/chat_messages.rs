//! Conversation items and their conversion into the `messages` array of a
//! chat-completions request.
use vstd::prelude::*;

verus! {

/// One part of a message's content.
#[derive(Debug, Clone)]
pub enum ContentItem {
    /// Text written by the user.
    InputText { text: String },
    /// Text written by the model.
    OutputText { text: String },
    /// An image, by URL.
    InputImage { image_url: String },
}

/// A content part, with its text as characters.
pub enum ContentItemView {
    InputText(Seq<char>),
    OutputText(Seq<char>),
    InputImage(Seq<char>),
}

impl View for ContentItem {
    type V = ContentItemView;

    open spec fn view(&self) -> ContentItemView {
        match self {
            ContentItem::InputText { text } => ContentItemView::InputText(text@),
            ContentItem::OutputText { text } => ContentItemView::OutputText(text@),
            ContentItem::InputImage { image_url } => ContentItemView::InputImage(image_url@),
        }
    }
}

/// An item of the conversation history, or one produced by the model.
#[derive(Debug, Clone)]
pub enum ResponseItem {
    /// A message of a role (`user`, `assistant`, `system`, ...).
    Message { id: Option<String>, role: String, content: Vec<ContentItem> },
    /// A call of a function tool by the model; `id` is the item's own id and
    /// `namespace` the tool's namespace, when the provider gives them.
    FunctionCall {
        id: Option<String>,
        name: String,
        namespace: Option<String>,
        arguments: String,
        call_id: String,
    },
    /// The result of a function tool call.
    FunctionCallOutput { call_id: String, output: String },
    /// A call of a freeform tool by the model; `id` is the item's own id and
    /// `status` its progress, when the provider gives them.
    CustomToolCall {
        id: Option<String>,
        status: Option<String>,
        call_id: String,
        name: String,
        input: String,
    },
    /// The result of a freeform tool call.
    CustomToolCallOutput { call_id: String, output: String },
    /// Any other item (reasoning, shell calls, web searches, ...), which has
    /// no chat-completions counterpart.
    Other,
}

/// A conversation item, with its texts as characters.
pub enum ResponseItemView {
    Message { id: Option<Seq<char>>, role: Seq<char>, content: Seq<ContentItemView> },
    FunctionCall {
        id: Option<Seq<char>>,
        name: Seq<char>,
        namespace: Option<Seq<char>>,
        arguments: Seq<char>,
        call_id: Seq<char>,
    },
    FunctionCallOutput { call_id: Seq<char>, output: Seq<char> },
    CustomToolCall {
        id: Option<Seq<char>>,
        status: Option<Seq<char>>,
        call_id: Seq<char>,
        name: Seq<char>,
        input: Seq<char>,
    },
    CustomToolCallOutput { call_id: Seq<char>, output: Seq<char> },
    Other,
}

/// The views of a sequence of content parts.
pub open spec fn content_views(s: Seq<ContentItem>) -> Seq<ContentItemView> {
    s.map_values(|c: ContentItem| c@)
}

impl View for ResponseItem {
    type V = ResponseItemView;

    open spec fn view(&self) -> ResponseItemView {
        match self {
            ResponseItem::Message { id, role, content } => ResponseItemView::Message {
                id: id.deep_view(),
                role: role@,
                content: content_views(content@),
            },
            ResponseItem::FunctionCall { id, name, namespace, arguments, call_id } =>
                ResponseItemView::FunctionCall {
                id: id.deep_view(),
                name: name@,
                namespace: namespace.deep_view(),
                arguments: arguments@,
                call_id: call_id@,
            },
            ResponseItem::FunctionCallOutput { call_id, output } =>
                ResponseItemView::FunctionCallOutput { call_id: call_id@, output: output@ },
            ResponseItem::CustomToolCall { id, status, call_id, name, input } =>
                ResponseItemView::CustomToolCall {
                id: id.deep_view(),
                status: status.deep_view(),
                call_id: call_id@,
                name: name@,
                input: input@,
            },
            ResponseItem::CustomToolCallOutput { call_id, output } =>
                ResponseItemView::CustomToolCallOutput { call_id: call_id@, output: output@ },
            ResponseItem::Other => ResponseItemView::Other,
        }
    }
}

/// The views of a sequence of conversation items.
pub open spec fn item_views(s: Seq<ResponseItem>) -> Seq<ResponseItemView> {
    s.map_values(|i: ResponseItem| i@)
}

/// One entry of the request's `messages` array.
#[derive(Debug, Clone)]
pub enum ChatMessage {
    /// `{"role": role, "content": content}`.
    Text { role: String, content: String },
    /// An assistant message with no content and one tool call:
    /// `{"role": "assistant", "content": null, "tool_calls": [{"id": call_id,
    /// "type": "function", "function": {"name": name, "arguments": arguments}}]}`.
    ToolCall { call_id: String, name: String, arguments: String },
    /// `{"role": "tool", "tool_call_id": call_id, "content": content}`.
    ToolResult { call_id: String, content: String },
}

/// A request message, with its texts as characters.
pub enum ChatMessageView {
    Text { role: Seq<char>, content: Seq<char> },
    ToolCall { call_id: Seq<char>, name: Seq<char>, arguments: Seq<char> },
    ToolResult { call_id: Seq<char>, content: Seq<char> },
}

impl View for ChatMessage {
    type V = ChatMessageView;

    open spec fn view(&self) -> ChatMessageView {
        match self {
            ChatMessage::Text { role, content } => ChatMessageView::Text {
                role: role@,
                content: content@,
            },
            ChatMessage::ToolCall { call_id, name, arguments } => ChatMessageView::ToolCall {
                call_id: call_id@,
                name: name@,
                arguments: arguments@,
            },
            ChatMessage::ToolResult { call_id, content } => ChatMessageView::ToolResult {
                call_id: call_id@,
                content: content@,
            },
        }
    }
}

/// The views of a sequence of request messages.
pub open spec fn message_views(s: Seq<ChatMessage>) -> Seq<ChatMessageView> {
    s.map_values(|m: ChatMessage| m@)
}

/// The text of a message's content: its text parts joined, images dropped.
pub open spec fn content_text(content: Seq<ContentItemView>) -> Seq<char>
    decreases content.len(),
{
    if content.len() == 0 {
        Seq::empty()
    } else {
        let rest = content_text(content.drop_last());
        match content.last() {
            ContentItemView::InputText(t) => rest + t,
            ContentItemView::OutputText(t) => rest + t,
            ContentItemView::InputImage(_) => rest,
        }
    }
}

/// The request message for one conversation item, if it has one. Calls of
/// either kind become assistant tool calls; outputs of either kind become
/// tool results.
pub open spec fn message_for(item: ResponseItemView) -> Option<ChatMessageView> {
    match item {
        ResponseItemView::Message { role, content, .. } => Some(
            ChatMessageView::Text { role, content: content_text(content) },
        ),
        ResponseItemView::FunctionCall { name, arguments, call_id, .. } => Some(
            ChatMessageView::ToolCall { call_id, name, arguments },
        ),
        ResponseItemView::FunctionCallOutput { call_id, output } => Some(
            ChatMessageView::ToolResult { call_id, content: output },
        ),
        ResponseItemView::CustomToolCallOutput { call_id, output } => Some(
            ChatMessageView::ToolResult { call_id, content: output },
        ),
        ResponseItemView::CustomToolCall { call_id, name, input, .. } => Some(
            ChatMessageView::ToolCall { call_id, name, arguments: input },
        ),
        ResponseItemView::Other => None,
    }
}

/// The request messages for a conversation, in order.
pub open spec fn messages_for(items: Seq<ResponseItemView>) -> Seq<ChatMessageView>
    decreases items.len(),
{
    if items.len() == 0 {
        Seq::empty()
    } else {
        let rest = messages_for(items.drop_last());
        match message_for(items.last()) {
            Some(m) => rest.push(m),
            None => rest,
        }
    }
}

/// The text of a message's content parts.
fn join_content_text(content: &Vec<ContentItem>) -> (r: String)
    ensures
        r@ == content_text(content_views(content@)),
{
    let mut text = String::new();
    let mut i: usize = 0;
    while i < content.len()
        invariant
            i <= content@.len(),
            text@ == content_text(content_views(content@.take(i as int))),
        decreases content@.len() - i,
    {
        proof {
            let next = content_views(content@.take(i + 1));
            assert(next.drop_last() =~= content_views(content@.take(i as int)));
            assert(next.last() == content@[i as int]@);
        }
        match &content[i] {
            ContentItem::InputText { text: t } => text.append(t.as_str()),
            ContentItem::OutputText { text: t } => text.append(t.as_str()),
            ContentItem::InputImage { .. } => {},
        }
        i = i + 1;
    }
    proof {
        assert(content@.take(i as int) =~= content@);
    }
    text
}

/// The request message for one conversation item, if it has one.
pub fn item_to_message(item: &ResponseItem) -> (r: Option<ChatMessage>)
    ensures
        match r {
            Some(m) => message_for(item@) == Some(m@),
            None => message_for(item@) is None,
        },
{
    match item {
        ResponseItem::Message { role, content, .. } => Some(
            ChatMessage::Text { role: role.clone(), content: join_content_text(content) },
        ),
        ResponseItem::FunctionCall { name, arguments, call_id, .. } => Some(
            ChatMessage::ToolCall {
                call_id: call_id.clone(),
                name: name.clone(),
                arguments: arguments.clone(),
            },
        ),
        ResponseItem::FunctionCallOutput { call_id, output } => Some(
            ChatMessage::ToolResult { call_id: call_id.clone(), content: output.clone() },
        ),
        ResponseItem::CustomToolCallOutput { call_id, output } => Some(
            ChatMessage::ToolResult { call_id: call_id.clone(), content: output.clone() },
        ),
        ResponseItem::CustomToolCall { call_id, name, input, .. } => Some(
            ChatMessage::ToolCall {
                call_id: call_id.clone(),
                name: name.clone(),
                arguments: input.clone(),
            },
        ),
        ResponseItem::Other => None,
    }
}

/// Convert conversation items into the chat-completions `messages` array.
/// Items with no chat-completions counterpart are skipped.
pub fn convert_input_to_messages(input: &Vec<ResponseItem>) -> (r: Vec<ChatMessage>)
    ensures
        message_views(r@) == messages_for(item_views(input@)),
{
    let mut out: Vec<ChatMessage> = Vec::new();
    let mut i: usize = 0;
    while i < input.len()
        invariant
            i <= input@.len(),
            message_views(out@) == messages_for(item_views(input@.take(i as int))),
        decreases input@.len() - i,
    {
        let ghost prev_out = out@;
        proof {
            let next = item_views(input@.take(i + 1));
            assert(next.drop_last() =~= item_views(input@.take(i as int)));
            assert(next.last() == input@[i as int]@);
        }
        match item_to_message(&input[i]) {
            Some(m) => {
                out.push(m);
                proof {
                    assert(message_views(out@) =~= message_views(prev_out).push(out@.last()@));
                }
            },
            None => {},
        }
        i = i + 1;
    }
    proof {
        assert(input@.take(i as int) =~= input@);
    }
    out
}

/// The text of two runs of content parts is the text of the first run
/// followed by the text of the second: parts are joined in order, none
/// replaces another.
pub proof fn lemma_content_text_concatenates(a: Seq<ContentItemView>, b: Seq<ContentItemView>)
    ensures
        content_text(a + b) == content_text(a) + content_text(b),
    decreases b.len(),
{
    if b.len() == 0 {
        assert(a + b =~= a);
        assert(content_text(a) + Seq::<char>::empty() =~= content_text(a));
    } else {
        lemma_content_text_concatenates(a, b.drop_last());
        assert((a + b).drop_last() =~= a + b.drop_last());
        assert((a + b).last() == b.last());
        match b.last() {
            ContentItemView::InputText(t) => {
                assert(content_text(a) + (content_text(b.drop_last()) + t) =~= (content_text(a)
                    + content_text(b.drop_last())) + t);
            },
            ContentItemView::OutputText(t) => {
                assert(content_text(a) + (content_text(b.drop_last()) + t) =~= (content_text(a)
                    + content_text(b.drop_last())) + t);
            },
            ContentItemView::InputImage(_) => {},
        }
    }
}

/// A text part, written by the user or by the model, contributes its text
/// unchanged; an image contributes nothing.
pub proof fn lemma_content_text_of_one_part(p: ContentItemView)
    ensures
        p matches ContentItemView::InputText(t) ==> content_text(seq![p]) == t,
        p matches ContentItemView::OutputText(t) ==> content_text(seq![p]) == t,
        p is InputImage ==> content_text(seq![p]) == Seq::<char>::empty(),
{
    let one = seq![p];
    assert(one.drop_last() =~= Seq::<ContentItemView>::empty());
    assert(one.last() == p);
    assert(content_text(one.drop_last()) == Seq::<char>::empty());
    match p {
        ContentItemView::InputText(t) => {
            assert(content_text(one) == content_text(one.drop_last()) + t);
            assert(Seq::<char>::empty() + t =~= t);
        },
        ContentItemView::OutputText(t) => {
            assert(content_text(one) == content_text(one.drop_last()) + t);
            assert(Seq::<char>::empty() + t =~= t);
        },
        ContentItemView::InputImage(_) => {},
    }
}

/// The messages of two runs of items are the messages of the first run
/// followed by those of the second: each item is converted on its own, in
/// order.
pub proof fn lemma_messages_concatenate(a: Seq<ResponseItemView>, b: Seq<ResponseItemView>)
    ensures
        messages_for(a + b) == messages_for(a) + messages_for(b),
    decreases b.len(),
{
    if b.len() == 0 {
        assert(a + b =~= a);
        assert(messages_for(a) + Seq::<ChatMessageView>::empty() =~= messages_for(a));
    } else {
        lemma_messages_concatenate(a, b.drop_last());
        assert((a + b).drop_last() =~= a + b.drop_last());
        assert((a + b).last() == b.last());
        match message_for(b.last()) {
            Some(m) => {
                assert(messages_for(a) + messages_for(b.drop_last()).push(m) =~= (messages_for(a)
                    + messages_for(b.drop_last())).push(m));
            },
            None => {},
        }
    }
}

/// What one item becomes: a message keeps its role and carries the text of
/// its content; a call of either kind becomes a tool call with the same call
/// id and name, its arguments (or freeform input) as arguments; an output of
/// either kind becomes a tool result with the same call id and the output as
/// content; any other item becomes nothing.
pub proof fn lemma_message_of_one_item(item: ResponseItemView)
    ensures
        item matches ResponseItemView::Message { role, content, .. } ==> messages_for(seq![item])
            == seq![ChatMessageView::Text { role, content: content_text(content) }],
        item matches ResponseItemView::FunctionCall { name, arguments, call_id, .. }
            ==> messages_for(seq![item]) == seq![ChatMessageView::ToolCall { call_id, name, arguments }],
        item matches ResponseItemView::CustomToolCall { call_id, name, input, .. }
            ==> messages_for(seq![item]) == seq![
            ChatMessageView::ToolCall { call_id, name, arguments: input },
        ],
        item matches ResponseItemView::FunctionCallOutput { call_id, output } ==> messages_for(
            seq![item],
        ) == seq![ChatMessageView::ToolResult { call_id, content: output }],
        item matches ResponseItemView::CustomToolCallOutput { call_id, output } ==> messages_for(
            seq![item],
        ) == seq![ChatMessageView::ToolResult { call_id, content: output }],
        item is Other ==> messages_for(seq![item]) == Seq::<ChatMessageView>::empty(),
{
    let one = seq![item];
    assert(one.drop_last() =~= Seq::<ResponseItemView>::empty());
    assert(one.last() == item);
    assert(messages_for(one.drop_last()) == Seq::<ChatMessageView>::empty());
    match message_for(item) {
        Some(m) => {
            assert(messages_for(one) == messages_for(one.drop_last()).push(m));
            assert(Seq::<ChatMessageView>::empty().push(m) =~= seq![m]);
        },
        None => {},
    }
}

} // verus!
